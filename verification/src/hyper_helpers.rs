//! Upstream addresses and the errors of an exchange with an upstream.

use vstd::prelude::*;
use vstd::string::*;

verus! {

/// Why a request did not reach an upstream.
#[derive(Debug, Clone, Copy, PartialEq, Eq, Structural)]
pub enum RequestError {
    UpstreamNotHttp,
    UpstreamSendError,
    CannotConnect,
    CannotSerializeBody,
}

impl RequestError {
    /// The message of the error.
    pub open spec fn message_text(self) -> Seq<char> {
        match self {
            RequestError::UpstreamNotHttp => "Upstream is not HTTP"@,
            RequestError::UpstreamSendError => "Cannot send request to upstream"@,
            RequestError::CannotConnect => "Cannot connect to upstream"@,
            RequestError::CannotSerializeBody => "Cannot serialize body"@,
        }
    }

    /// The message of the error.
    pub fn message(&self) -> (text: &'static str)
        ensures
            text@ == self.message_text(),
    {
        match self {
            RequestError::UpstreamNotHttp => "Upstream is not HTTP",
            RequestError::UpstreamSendError => "Cannot send request to upstream",
            RequestError::CannotConnect => "Cannot connect to upstream",
            RequestError::CannotSerializeBody => "Cannot serialize body",
        }
    }
}

/// Why the body of a response could not be had.
#[derive(Debug, Clone, Copy, PartialEq, Eq, Structural)]
pub enum ResponseError {
    CannotFetchBody,
    DeserializeError,
}

impl ResponseError {
    /// The message of the error.
    pub open spec fn message_text(self) -> Seq<char> {
        match self {
            ResponseError::CannotFetchBody => "Cannot fetch body"@,
            ResponseError::DeserializeError => "Cannot deserialize body"@,
        }
    }

    /// The message of the error.
    pub fn message(&self) -> (text: &'static str)
        ensures
            text@ == self.message_text(),
    {
        match self {
            ResponseError::CannotFetchBody => "Cannot fetch body",
            ResponseError::DeserializeError => "Cannot deserialize body",
        }
    }
}

/// The decimal digit of a number below ten.
pub open spec fn digit(d: nat) -> char {
    if d == 0 {
        '0'
    } else if d == 1 {
        '1'
    } else if d == 2 {
        '2'
    } else if d == 3 {
        '3'
    } else if d == 4 {
        '4'
    } else if d == 5 {
        '5'
    } else if d == 6 {
        '6'
    } else if d == 7 {
        '7'
    } else if d == 8 {
        '8'
    } else {
        '9'
    }
}

/// A number in decimal, without leading zeros.
pub open spec fn decimal(n: nat) -> Seq<char>
    decreases n,
{
    if n < 10 {
        seq![digit(n)]
    } else {
        decimal(n / 10).push(digit(n % 10))
    }
}

fn digit_text(d: u16) -> (text: &'static str)
    requires
        d < 10,
    ensures
        text@ == seq![digit(d as nat)],
{
    proof {
        reveal_strlit("0");
        reveal_strlit("1");
        reveal_strlit("2");
        reveal_strlit("3");
        reveal_strlit("4");
        reveal_strlit("5");
        reveal_strlit("6");
        reveal_strlit("7");
        reveal_strlit("8");
        reveal_strlit("9");
    }
    let text = if d == 0 {
        "0"
    } else if d == 1 {
        "1"
    } else if d == 2 {
        "2"
    } else if d == 3 {
        "3"
    } else if d == 4 {
        "4"
    } else if d == 5 {
        "5"
    } else if d == 6 {
        "6"
    } else if d == 7 {
        "7"
    } else if d == 8 {
        "8"
    } else {
        "9"
    };
    assert(text@ =~= seq![digit(d as nat)]);
    text
}

/// Writes a port number in decimal.
pub fn port_text(port: u16) -> (text: String)
    ensures
        text@ == decimal(port as nat),
    decreases port,
{
    if port < 10 {
        digit_text(port).to_owned()
    } else {
        let mut text = port_text(port / 10);
        text.append(digit_text(port % 10));
        assert(text@ =~= decimal(port as nat));
        text
    }
}

/// Where an upstream listens.
#[derive(Debug)]
pub struct Address {
    pub host: String,
    pub port: u16,
}

/// The view of an [`Address`].
pub struct AddressView {
    pub host: Seq<char>,
    pub port: u16,
}

impl View for Address {
    type V = AddressView;

    open spec fn view(&self) -> AddressView {
        AddressView { host: self.host@, port: self.port }
    }
}

impl AddressView {
    /// The address as `host:port`.
    pub open spec fn text(self) -> Seq<char> {
        self.host + seq![':'] + decimal(self.port as nat)
    }
}

impl Address {
    /// The address as `host:port`, the form in which a socket is asked for.
    pub fn text(&self) -> (text: String)
        ensures
            text@ == self@.text(),
    {
        proof {
            reveal_strlit(":");
        }
        let mut text = self.host.clone();
        text.append(":");
        let port = port_text(self.port);
        text.append(port.as_str());
        assert(text@ =~= self@.text());
        text
    }
}

/// The port of an address that names none.
pub const DEFAULT_PORT: u16 = 80;

/// The host and the port that `http::uri::Authority` reads from a text, or
/// `None` where it refuses the text.
pub uninterp spec fn authority_parts(text: Seq<u8>) -> Option<(Seq<char>, Option<u16>)>;

/// Parses a text with `http::uri::Authority::try_from` and takes the result
/// apart with `host` and `port_u16`. The contract names what comes back
/// [`authority_parts`] and claims that the same bytes always give the same
/// parts.
#[verifier::external_body]
fn parse_authority(text: &[u8]) -> (parts: Option<(String, Option<u16>)>)
    ensures
        match parts {
            Some((host, port)) => authority_parts(text@) == Some((host@, port)),
            None => authority_parts(text@) is None,
        },
{
    match hyper::http::uri::Authority::try_from(text) {
        Ok(authority) => Some((authority.host().to_string(), authority.port_u16())),
        Err(_) => None,
    }
}

/// The address that the parts of an authority stand for: the host as it is,
/// and port 80 where the authority names none.
pub open spec fn address_of(parts: Option<(Seq<char>, Option<u16>)>) -> Option<AddressView> {
    match parts {
        Some((host, Some(port))) => Some(AddressView { host, port }),
        Some((host, None)) => Some(AddressView { host, port: DEFAULT_PORT }),
        None => None,
    }
}

/// The helpers of an exchange with an upstream.
#[derive(Debug, Clone, Copy)]
pub struct HyperHelpers;

impl HyperHelpers {
    /// The address for the parts of an authority; port 80 where none is named.
    pub fn address_from_parts(parts: Option<(String, Option<u16>)>) -> (address: Option<Address>)
        ensures
            match address {
                Some(found) => address_of(parts.deep_view()) == Some(found@),
                None => address_of(parts.deep_view()) is None,
            },
    {
        match parts {
            Some((host, port)) => {
                let port = match port {
                    Some(port) => port,
                    None => DEFAULT_PORT,
                };
                Some(Address { host, port })
            },
            None => None,
        }
    }

    /// Reads `host[:port]` as an address; `None` where the text is no
    /// authority.
    pub fn parse_address(text: &[u8]) -> (address: Option<Address>)
        ensures
            match address {
                Some(found) => address_of(authority_parts(text@)) == Some(found@),
                None => address_of(authority_parts(text@)) is None,
            },
    {
        HyperHelpers::address_from_parts(parse_authority(text))
    }
}

} // verus!
