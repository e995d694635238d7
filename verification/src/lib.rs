//! An HTTP mock-and-proxy test server, as a verified core.
//!
//! The crate holds the decisions of the server and of its client: the rule
//! store with its priority order, request matching, the control-plane
//! commands, the proxy's address resolution and error mapping, and the
//! fluent builders that author rules. Sockets, tasks and JSON stay outside:
//! callers hand in plain values and act on the plain values they get back.

pub mod client;
pub mod cors;
pub mod form;
pub mod hyper_helpers;
pub mod interchange;
pub mod matching;
pub mod network_client;
pub mod proxy;
pub mod request;
pub mod rules;
pub mod server;
pub mod shared_client;
