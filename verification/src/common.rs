use vstd::prelude::*;

verus! {

/// Marker for response shapes that the transport layer can hand back.
pub trait RPayResponse {
}

/// Language selector for mini-program messages.
#[derive(Debug, Clone, Copy)]
pub enum Lang {
    ZhCn,
    EnUs,
    ZhHk,
    ZhTw,
}

impl Default for Lang {
    fn default() -> (r: Self)
        ensures
            r is ZhCn,
    {
        Lang::ZhCn
    }
}

/// OAuth grant type used by the login endpoints.
#[derive(Debug, Clone, Copy)]
pub enum GrantType {
    AuthorizationCode,
}

/// Which login flow a credential belongs to.
#[derive(Debug, Clone, Copy)]
pub enum LoginType {
    Web,
    MiniProgram,
    App,
}

/// The HTTP verb of an outbound request; its text is the first line of the
/// canonical signing string.
#[derive(Debug, Clone, Copy, PartialEq, Eq, Structural)]
pub enum HttpMethod {
    GET,
    POST,
    PUT,
    DELETE,
    PATCH,
}

impl HttpMethod {
    /// The exact text of the verb as it enters the canonical string.
    pub open spec fn spec_str(&self) -> Seq<char> {
        match self {
            HttpMethod::GET => "GET"@,
            HttpMethod::POST => "POST"@,
            HttpMethod::PUT => "PUT"@,
            HttpMethod::DELETE => "DELETE"@,
            HttpMethod::PATCH => "PATCH"@,
        }
    }

    pub fn as_str(&self) -> (r: &'static str)
        ensures
            r@ == self.spec_str(),
    {
        match self {
            HttpMethod::GET => "GET",
            HttpMethod::POST => "POST",
            HttpMethod::PUT => "PUT",
            HttpMethod::DELETE => "DELETE",
            HttpMethod::PATCH => "PATCH",
        }
    }
}

impl Default for HttpMethod {
    fn default() -> (r: Self)
        ensures
            r is GET,
    {
        HttpMethod::GET
    }
}

} // verus!
