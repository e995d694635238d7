//! The proxy: which upstream a request names, what is sent on to it, and
//! what the client gets back at the end of the exchange.

use crate::cors::{
    allow_origin, allow_origin_name, allowing_any_origin, allows_any_origin,
    lemma_allowing_any_origin, with_cors, without_name,
};
use crate::hyper_helpers::{
    address_of, authority_parts, Address, AddressView, HyperHelpers, RequestError, ResponseError,
};
use crate::request::{
    find_header, header_value, Header, Reply, ReplyView, UnpackedRequest, UnpackedRequestView,
};
use crate::server::{lemma_text_reply_allows_any_origin, respond_text, text_reply};
use vstd::prelude::*;

verus! {

/// Why the proxy could not relay an exchange.
#[derive(Debug, Clone, Copy, PartialEq, Eq, Structural)]
pub enum ProxyError {
    BadHostHeader,
    UpstreamNotFound,
    UpstreamNotHttp,
    CannotReadRequestBody,
    UpstreamSendError,
    CannotReadResponseBody,
    CannotConstructResponseBody,
}

impl ProxyError {
    /// The message of the error.
    pub open spec fn message_text(self) -> Seq<char> {
        match self {
            ProxyError::BadHostHeader => "Bad host header"@,
            ProxyError::UpstreamNotFound => "Upstream not found"@,
            ProxyError::UpstreamNotHttp => "Upstream does not support HTTP"@,
            ProxyError::CannotReadRequestBody => "Cannot read request body"@,
            ProxyError::UpstreamSendError => "Upstream send error"@,
            ProxyError::CannotReadResponseBody => "Cannot read response body"@,
            ProxyError::CannotConstructResponseBody => "Cannot construct response body"@,
        }
    }

    /// The status with which the error is answered: 400 for a request that
    /// names no upstream, 502 for everything that went wrong behind it.
    pub open spec fn status(self) -> u16 {
        match self {
            ProxyError::BadHostHeader => 400,
            _ => 502,
        }
    }

    /// The text with which the error is answered.
    pub open spec fn reply_text(self) -> Seq<char> {
        match self {
            ProxyError::BadHostHeader => "Bad host header"@,
            ProxyError::UpstreamNotFound => "Upstream not found"@,
            ProxyError::UpstreamNotHttp => "Upstream not HTTP"@,
            ProxyError::CannotReadRequestBody => "Cannot read request body"@,
            ProxyError::UpstreamSendError => "Upstream send error"@,
            ProxyError::CannotReadResponseBody => "Cannot read response body"@,
            ProxyError::CannotConstructResponseBody => "Cannot construct response body"@,
        }
    }

    /// The reply with which the error is answered.
    pub open spec fn reply(self) -> ReplyView {
        text_reply(self.status(), self.reply_text())
    }

    /// The proxy's error for a request that did not reach the upstream.
    pub open spec fn of_request_error(error: RequestError) -> ProxyError {
        match error {
            RequestError::UpstreamNotHttp => ProxyError::UpstreamNotHttp,
            RequestError::UpstreamSendError => ProxyError::UpstreamSendError,
            RequestError::CannotConnect => ProxyError::UpstreamNotFound,
            RequestError::CannotSerializeBody => ProxyError::UpstreamSendError,
        }
    }

    /// The message of the error.
    pub fn message(&self) -> (text: &'static str)
        ensures
            text@ == self.message_text(),
    {
        match self {
            ProxyError::BadHostHeader => "Bad host header",
            ProxyError::UpstreamNotFound => "Upstream not found",
            ProxyError::UpstreamNotHttp => "Upstream does not support HTTP",
            ProxyError::CannotReadRequestBody => "Cannot read request body",
            ProxyError::UpstreamSendError => "Upstream send error",
            ProxyError::CannotReadResponseBody => "Cannot read response body",
            ProxyError::CannotConstructResponseBody => "Cannot construct response body",
        }
    }

    /// The reply with which the error is answered.
    pub fn to_response(&self) -> (reply: Reply)
        ensures
            reply@ == self.reply(),
    {
        match self {
            ProxyError::BadHostHeader => respond_text(400, "Bad host header"),
            ProxyError::UpstreamNotFound => respond_text(502, "Upstream not found"),
            ProxyError::UpstreamNotHttp => respond_text(502, "Upstream not HTTP"),
            ProxyError::CannotReadRequestBody => respond_text(502, "Cannot read request body"),
            ProxyError::UpstreamSendError => respond_text(502, "Upstream send error"),
            ProxyError::CannotReadResponseBody => respond_text(502, "Cannot read response body"),
            ProxyError::CannotConstructResponseBody => respond_text(
                502,
                "Cannot construct response body",
            ),
        }
    }

    /// The proxy's error for a request that did not reach the upstream.
    pub fn from_request_error(error: RequestError) -> (mapped: ProxyError)
        ensures
            mapped == ProxyError::of_request_error(error),
    {
        match error {
            RequestError::UpstreamNotHttp => ProxyError::UpstreamNotHttp,
            RequestError::UpstreamSendError => ProxyError::UpstreamSendError,
            RequestError::CannotConnect => ProxyError::UpstreamNotFound,
            RequestError::CannotSerializeBody => ProxyError::UpstreamSendError,
        }
    }
}

/// A byte that may stand in the text of a header value: a printable ASCII
/// character, a space or a tab.
pub open spec fn visible_ascii(byte: u8) -> bool {
    (32 <= byte && byte < 127) || byte == 9
}

/// Every byte may stand in the text of a header value.
pub open spec fn all_visible(bytes: Seq<u8>) -> bool {
    forall|i: int| 0 <= i < bytes.len() ==> visible_ascii(#[trigger] bytes[i])
}

/// The value of the `Host` header, where the request has one and it is text.
pub open spec fn host_text(req: UnpackedRequestView) -> Option<Seq<u8>> {
    match header_value(req.headers, "host"@) {
        Some(value) => if all_visible(value) {
            Some(value)
        } else {
            None
        },
        None => None,
    }
}

/// The upstream that a request names: its `Host` header read as
/// `host[:port]`, with port 80 where none is named. `None` where the header
/// is missing, is no text, or is no authority.
pub open spec fn upstream_of(req: UnpackedRequestView) -> Option<AddressView> {
    match host_text(req) {
        Some(text) => address_of(authority_parts(text)),
        None => None,
    }
}

fn is_visible_text(bytes: &Vec<u8>) -> (visible: bool)
    ensures
        visible == all_visible(bytes@),
{
    let mut at: usize = 0;
    while at < bytes.len()
        invariant
            at <= bytes.len(),
            forall|i: int| 0 <= i < at ==> visible_ascii(#[trigger] bytes@[i]),
        decreases bytes.len() - at,
    {
        let byte = bytes[at];
        if !((32 <= byte && byte < 127) || byte == 9) {
            return false;
        }
        at += 1;
    }
    true
}

/// The upstream that a request names in its `Host` header.
pub fn address_from_request(req: &UnpackedRequest) -> (address: Option<Address>)
    ensures
        match address {
            Some(found) => upstream_of(req@) == Some(found@),
            None => upstream_of(req@) is None,
        },
{
    match find_header(&req.headers, "host") {
        Some(value) => {
            if is_visible_text(value) {
                HyperHelpers::parse_address(value.as_slice())
            } else {
                None
            }
        },
        None => None,
    }
}

/// A request on its way to an upstream: where to send it, and what to send.
#[derive(Debug)]
pub struct ProxyRequest {
    pub address: Address,
    pub method: String,
    pub path: String,
    pub headers: Vec<Header>,
    pub body: Vec<u8>,
}

/// The view of a [`ProxyRequest`].
pub struct ProxyRequestView {
    pub address: AddressView,
    pub method: Seq<char>,
    pub path: Seq<char>,
    pub headers: Seq<(Seq<char>, Seq<u8>)>,
    pub body: Seq<u8>,
}

impl View for ProxyRequest {
    type V = ProxyRequestView;

    open spec fn view(&self) -> ProxyRequestView {
        ProxyRequestView {
            address: self.address@,
            method: self.method@,
            path: self.path@,
            headers: self.headers.deep_view(),
            body: self.body@,
        }
    }
}

/// The request as it is sent on: method, path, every header line in its
/// place and the body are those that came in.
pub open spec fn forwarded(req: UnpackedRequestView, address: AddressView) -> ProxyRequestView {
    ProxyRequestView {
        address,
        method: req.method,
        path: req.path,
        headers: req.headers,
        body: req.body,
    }
}

/// The request to send to the given upstream; without an upstream the `Host`
/// header was bad.
pub fn request_to(req: UnpackedRequest, address: Option<Address>) -> (plan: Result<
    ProxyRequest,
    ProxyError,
>)
    ensures
        match address {
            Some(target) => plan matches Ok(request) && request@ == forwarded(req@, target@),
            None => plan == Err::<ProxyRequest, ProxyError>(ProxyError::BadHostHeader),
        },
{
    match address {
        Some(address) => Ok(
            ProxyRequest {
                address,
                method: req.method,
                path: req.path,
                headers: req.headers,
                body: req.body,
            },
        ),
        None => Err(ProxyError::BadHostHeader),
    }
}

/// The request to send to the upstream that the request names.
pub fn request_from_proxy(req: UnpackedRequest) -> (plan: Result<ProxyRequest, ProxyError>)
    ensures
        match upstream_of(req@) {
            Some(target) => plan matches Ok(request) && request@ == forwarded(req@, target),
            None => plan == Err::<ProxyRequest, ProxyError>(ProxyError::BadHostHeader),
        },
{
    let address = address_from_request(&req);
    request_to(req, address)
}

/// What came back from an upstream: status and header lines, and the body
/// or the reason why it could not be read.
#[derive(Debug)]
pub struct UpstreamResponse {
    pub status: u16,
    pub headers: Vec<Header>,
    pub body: Result<Vec<u8>, ResponseError>,
}

/// The view of an [`UpstreamResponse`].
pub struct UpstreamResponseView {
    pub status: u16,
    pub headers: Seq<(Seq<char>, Seq<u8>)>,
    pub body: Result<Seq<u8>, ResponseError>,
}

impl View for UpstreamResponse {
    type V = UpstreamResponseView;

    open spec fn view(&self) -> UpstreamResponseView {
        UpstreamResponseView {
            status: self.status,
            headers: self.headers.deep_view(),
            body: match self.body {
                Ok(body) => Ok(body@),
                Err(error) => Err(error),
            },
        }
    }
}

/// A number that is a status code: three digits.
pub open spec fn is_status_code(status: u16) -> bool {
    100 <= status <= 999
}

/// The reply that relays what came back from an upstream: status, header
/// lines and body as they came. There is none where the body could not be
/// read, or where the status is no status code.
pub open spec fn relayed(response: UpstreamResponseView) -> Result<ReplyView, ProxyError> {
    match response.body {
        Err(_) => Err(ProxyError::CannotReadResponseBody),
        Ok(body) => if is_status_code(response.status) {
            Ok(ReplyView { status: response.status, headers: response.headers, body })
        } else {
            Err(ProxyError::CannotConstructResponseBody)
        },
    }
}

/// Relays what came back from an upstream.
pub fn proxy_response_to_response(response: UpstreamResponse) -> (relay: Result<
    Reply,
    ProxyError,
>)
    ensures
        match relayed(response@) {
            Ok(reply) => relay matches Ok(made) && made@ == reply,
            Err(error) => relay == Err::<Reply, ProxyError>(error),
        },
{
    match response.body {
        Err(_) => Err(ProxyError::CannotReadResponseBody),
        Ok(body) => {
            if 100 <= response.status && response.status <= 999 {
                Ok(Reply { status: response.status, headers: response.headers, body })
            } else {
                Err(ProxyError::CannotConstructResponseBody)
            }
        },
    }
}

/// The view of the end of an exchange with an upstream.
pub open spec fn exchange_view(sent: Result<UpstreamResponse, RequestError>) -> Result<
    UpstreamResponseView,
    RequestError,
> {
    match sent {
        Ok(response) => Ok(response@),
        Err(error) => Err(error),
    }
}

/// The reply to the client at the end of an exchange with an upstream: the
/// relayed response, made to allow every origin, or the reply of the error
/// that ended the exchange.
pub open spec fn proxied(sent: Result<UpstreamResponseView, RequestError>) -> ReplyView {
    match sent {
        Err(error) => ProxyError::of_request_error(error).reply(),
        Ok(response) => match relayed(response) {
            Ok(reply) => allowing_any_origin(reply),
            Err(error) => error.reply(),
        },
    }
}

/// Every reply at the end of an exchange with an upstream allows every
/// origin. A relayed response keeps its status and its body, and its header
/// lines but for those that allow origins.
pub proof fn lemma_proxied(sent: Result<UpstreamResponseView, RequestError>)
    ensures
        allows_any_origin(proxied(sent)),
        sent matches Ok(response) ==> (relayed(response) is Ok ==> {
            &&& proxied(sent).status == response.status
            &&& proxied(sent).body == response.body->Ok_0
            &&& proxied(sent).headers == without_name(
                response.headers,
                allow_origin_name(),
            ).push(allow_origin())
        }),
{
    match sent {
        Err(error) => {
            let mapped = ProxyError::of_request_error(error);
            lemma_text_reply_allows_any_origin(mapped.status(), mapped.reply_text());
        },
        Ok(response) => match relayed(response) {
            Ok(reply) => {
                lemma_allowing_any_origin(reply);
            },
            Err(error) => {
                lemma_text_reply_allows_any_origin(error.status(), error.reply_text());
            },
        },
    }
}

/// The reply to the client at the end of an exchange with an upstream.
pub fn proxy_reply(sent: Result<UpstreamResponse, RequestError>) -> (reply: Reply)
    ensures
        reply@ == proxied(exchange_view(sent)),
        allows_any_origin(reply@),
{
    proof {
        lemma_proxied(exchange_view(sent));
    }
    match sent {
        Err(error) => ProxyError::from_request_error(error).to_response(),
        Ok(response) => match proxy_response_to_response(response) {
            Ok(reply) => with_cors(reply),
            Err(error) => error.to_response(),
        },
    }
}

} // verus!
