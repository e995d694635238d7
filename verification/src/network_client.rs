//! The client's side of an exchange with the control plane: where to send a
//! command, and what the answer means.

use crate::hyper_helpers::{Address, AddressView, DEFAULT_PORT};
use vstd::prelude::*;

verus! {

/// Why a command got no usable answer. `E` is the error that the control
/// plane itself can answer with.
#[derive(Debug, PartialEq)]
pub enum ClientNetworkError<E> {
    ResponseDeserializeError,
    Response(E),
    FailedToConnectToMockServer,
    FailedToSerializeCommand,
    FailedBuildRequest,
}

impl<E> ClientNetworkError<E> {
    /// The message of the error.
    pub open spec fn message_text(self) -> Seq<char> {
        match self {
            ClientNetworkError::ResponseDeserializeError => "Failed to deserialize response"@,
            ClientNetworkError::Response(_) => "Response"@,
            ClientNetworkError::FailedToConnectToMockServer => "Failed to connect to mock server"@,
            ClientNetworkError::FailedToSerializeCommand => "Failed to serialize command"@,
            ClientNetworkError::FailedBuildRequest => "Failed to build request"@,
        }
    }

    /// The message of the error.
    pub fn message(&self) -> (text: &'static str)
        ensures
            text@ == self.message_text(),
    {
        match self {
            ClientNetworkError::ResponseDeserializeError => "Failed to deserialize response",
            ClientNetworkError::Response(_) => "Response",
            ClientNetworkError::FailedToConnectToMockServer => "Failed to connect to mock server",
            ClientNetworkError::FailedToSerializeCommand => "Failed to serialize command",
            ClientNetworkError::FailedBuildRequest => "Failed to build request",
        }
    }
}

/// Where a command goes: the address to connect to and the path to post to.
#[derive(Debug)]
pub struct Endpoint {
    pub address: Address,
    pub path: String,
}

/// The view of an [`Endpoint`].
pub struct EndpointView {
    pub address: AddressView,
    pub path: Seq<char>,
}

impl View for Endpoint {
    type V = EndpointView;

    open spec fn view(&self) -> EndpointView {
        EndpointView { address: self.address@, path: self.path@ }
    }
}

/// The host, the port and the path that `http::Uri` reads from a text, or
/// `None` where it refuses the text.
pub uninterp spec fn uri_parts(text: Seq<char>) -> Option<
    (Option<Seq<char>>, Option<u16>, Seq<char>),
>;

/// Parses a text as an `http::Uri` and takes the result apart with `host`,
/// `port_u16` and `path`. The contract names what comes back [`uri_parts`]
/// and claims that the same text always gives the same parts.
#[verifier::external_body]
fn parse_uri(text: &str) -> (parts: Option<(Option<String>, Option<u16>, String)>)
    ensures
        parts.deep_view() == uri_parts(text@),
{
    match text.parse::<hyper::Uri>() {
        Ok(uri) => {
            let host = match uri.host() {
                Some(host) => Some(host.to_string()),
                None => None,
            };
            Some((host, uri.port_u16(), uri.path().to_string()))
        },
        Err(_) => None,
    }
}

/// The endpoint that the parts of a URL stand for: its host, its port or 80
/// where it names none, and its path. There is none for a text that is no
/// URL or names no host.
pub open spec fn endpoint_of(parts: Option<(Option<Seq<char>>, Option<u16>, Seq<char>)>) -> Option<
    EndpointView,
> {
    match parts {
        Some((Some(host), port, path)) => Some(
            EndpointView {
                address: AddressView {
                    host,
                    port: match port {
                        Some(port) => port,
                        None => DEFAULT_PORT,
                    },
                },
                path,
            },
        ),
        _ => None,
    }
}

/// A status from 200 to 299.
pub open spec fn success_status(status: u16) -> bool {
    200 <= status < 300
}

/// The transport of commands to the control plane.
#[derive(Debug, Clone, Copy)]
pub struct NetworkClient;

impl NetworkClient {
    /// The endpoint for the parts of a URL.
    pub fn endpoint_from_parts(parts: Option<(Option<String>, Option<u16>, String)>) -> (endpoint:
        Option<Endpoint>)
        ensures
            match endpoint {
                Some(found) => endpoint_of(parts.deep_view()) == Some(found@),
                None => endpoint_of(parts.deep_view()) is None,
            },
    {
        match parts {
            Some((Some(host), port, path)) => {
                let port = match port {
                    Some(port) => port,
                    None => DEFAULT_PORT,
                };
                Some(Endpoint { address: Address { host, port }, path })
            },
            _ => None,
        }
    }

    /// Where the commands for a control plane go, given its URL. Without an
    /// endpoint there is no way to connect.
    pub fn endpoint(control_plane_url: &str) -> (endpoint: Option<Endpoint>)
        ensures
            match endpoint {
                Some(found) => endpoint_of(uri_parts(control_plane_url@)) == Some(found@),
                None => endpoint_of(uri_parts(control_plane_url@)) is None,
            },
    {
        NetworkClient::endpoint_from_parts(parse_uri(control_plane_url))
    }

    /// Whether a status says that the command was carried out.
    pub fn is_success(status: u16) -> (success: bool)
        ensures
            success == success_status(status),
    {
        200 <= status && status < 300
    }

    /// What an answer with a success status means: the response that its
    /// body holds; a body that holds none cannot be deserialized.
    pub fn accepted<U, E>(body: Option<U>) -> (outcome: Result<U, ClientNetworkError<E>>)
        ensures
            outcome == match body {
                Some(response) => Ok::<U, ClientNetworkError<E>>(response),
                None => Err::<U, ClientNetworkError<E>>(
                    ClientNetworkError::ResponseDeserializeError,
                ),
            },
    {
        match body {
            Some(response) => Ok(response),
            None => Err(ClientNetworkError::ResponseDeserializeError),
        }
    }

    /// What an answer with another status means: the error that its body
    /// holds; a body that holds none cannot be deserialized.
    pub fn rejected<U, E>(body: Option<E>) -> (outcome: Result<U, ClientNetworkError<E>>)
        ensures
            outcome == match body {
                Some(error) => Err::<U, ClientNetworkError<E>>(
                    ClientNetworkError::Response(error),
                ),
                None => Err::<U, ClientNetworkError<E>>(
                    ClientNetworkError::ResponseDeserializeError,
                ),
            },
    {
        match body {
            Some(error) => Err(ClientNetworkError::Response(error)),
            None => Err(ClientNetworkError::ResponseDeserializeError),
        }
    }
}

} // verus!
