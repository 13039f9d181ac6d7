use vstd::prelude::*;

verus! {

/// The method of an HTTP request.
#[derive(Clone, Copy, Debug, PartialEq, Eq, Structural)]
pub enum Method {
    GET,
    POST,
    PUT,
    PATCH,
    DELETE,
}

/// The name of a method in capitals.
pub open spec fn method_name(method: Method) -> Seq<char> {
    match method {
        Method::GET => "GET"@,
        Method::POST => "POST"@,
        Method::PUT => "PUT"@,
        Method::PATCH => "PATCH"@,
        Method::DELETE => "DELETE"@,
    }
}

impl Default for Method {
    fn default() -> (r: Self)
        ensures
            r == Method::GET,
    {
        Method::GET
    }
}

impl Method {
    /// The method's name in capitals.
    pub fn to_string(&self) -> (r: String)
        ensures
            r@ == method_name(*self),
    {
        match self {
            Method::GET => "GET".to_string(),
            Method::POST => "POST".to_string(),
            Method::PUT => "PUT".to_string(),
            Method::PATCH => "PATCH".to_string(),
            Method::DELETE => "DELETE".to_string(),
        }
    }
}

} // verus!
