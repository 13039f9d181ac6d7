use vstd::prelude::*;

verus! {

/// The scheme a request is sent over.
#[derive(Clone, Copy, Debug, PartialEq, Eq, Structural)]
pub enum Protocol {
    HTTP,
    HTTPS,
    WS,
    WSS,
}

/// The name of a protocol in capitals.
pub open spec fn protocol_name(protocol: Protocol) -> Seq<char> {
    match protocol {
        Protocol::HTTP => "HTTP"@,
        Protocol::HTTPS => "HTTPS"@,
        Protocol::WS => "WS"@,
        Protocol::WSS => "WSS"@,
    }
}

/// The scheme of a protocol as it stands in a URL.
pub open spec fn protocol_scheme(protocol: Protocol) -> Seq<char> {
    match protocol {
        Protocol::HTTP => "http"@,
        Protocol::HTTPS => "https"@,
        Protocol::WS => "ws"@,
        Protocol::WSS => "wss"@,
    }
}

impl Default for Protocol {
    fn default() -> (r: Self)
        ensures
            r == Protocol::HTTPS,
    {
        Protocol::HTTPS
    }
}

impl Protocol {
    /// True for the two protocols of a one-shot exchange.
    pub open spec fn spec_is_http(self) -> bool {
        self == Protocol::HTTP || self == Protocol::HTTPS
    }

    /// True for the two protocols of a lasting session.
    pub open spec fn spec_is_ws(self) -> bool {
        self == Protocol::WS || self == Protocol::WSS
    }

    #[verifier::when_used_as_spec(spec_is_http)]
    pub fn is_http(self) -> (r: bool)
        ensures
            r == self.spec_is_http(),
    {
        match self {
            Protocol::HTTP => true,
            Protocol::HTTPS => true,
            _ => false,
        }
    }

    #[verifier::when_used_as_spec(spec_is_ws)]
    pub fn is_ws(self) -> (r: bool)
        ensures
            r == self.spec_is_ws(),
    {
        match self {
            Protocol::WS => true,
            Protocol::WSS => true,
            _ => false,
        }
    }

    /// The protocol's name in capitals.
    pub fn to_string(&self) -> (r: String)
        ensures
            r@ == protocol_name(*self),
    {
        match self {
            Protocol::HTTP => "HTTP".to_string(),
            Protocol::HTTPS => "HTTPS".to_string(),
            Protocol::WS => "WS".to_string(),
            Protocol::WSS => "WSS".to_string(),
        }
    }

    /// The protocol's scheme, in small letters.
    pub fn scheme(&self) -> (r: String)
        ensures
            r@ == protocol_scheme(*self),
    {
        match self {
            Protocol::HTTP => "http".to_string(),
            Protocol::HTTPS => "https".to_string(),
            Protocol::WS => "ws".to_string(),
            Protocol::WSS => "wss".to_string(),
        }
    }
}

} // verus!
