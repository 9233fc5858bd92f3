//! HTTP messages as plain values, as the pipeline hands them to the transport.
use vstd::prelude::*;
use vstd::utf8::encode_utf8;

verus! {

/// The HTTP verbs of the API.
#[derive(Clone, Copy, Debug, PartialEq, Eq, Structural)]
pub enum Verb {
    Get,
    Post,
    Patch,
    Put,
    Delete,
}

/// The method name sent on the wire for a verb.
pub open spec fn verb_name(v: Verb) -> Seq<char> {
    match v {
        Verb::Get => "GET"@,
        Verb::Post => "POST"@,
        Verb::Patch => "PATCH"@,
        Verb::Put => "PUT"@,
        Verb::Delete => "DELETE"@,
    }
}

impl Verb {
    /// The method name, as `http::Method` spells it.
    pub fn as_str(&self) -> (r: &'static str)
        ensures
            r@ == verb_name(*self),
    {
        match self {
            Verb::Get => "GET",
            Verb::Post => "POST",
            Verb::Patch => "PATCH",
            Verb::Put => "PUT",
            Verb::Delete => "DELETE",
        }
    }
}

/// A request ready for the transport: method, absolute URI, header fields in
/// order (name and raw value bytes), and body bytes.
#[derive(Debug, Clone)]
pub struct HttpRequest {
    pub method: String,
    pub uri: String,
    pub headers: Vec<(String, Vec<u8>)>,
    pub body: Vec<u8>,
}

/// A response as the transport returned it, with its body fully read.
#[derive(Debug, Clone)]
pub struct HttpResponse {
    pub status: u16,
    pub headers: Vec<(String, Vec<u8>)>,
    pub body: Vec<u8>,
}

/// The name of the header that carries the bearer token.
pub open spec fn authorization_name() -> Seq<char> {
    "authorization"@
}

/// The value of the authorization header for an access token:
/// `Bearer <token>`, UTF-8 encoded.
pub open spec fn bearer_value(access_token: Seq<char>) -> Seq<u8> {
    encode_utf8("Bearer "@ + access_token)
}

/// `req` is an API request for `verb` on `uri`, authorised by `access_token`:
/// its only header is the bearer authorization, and its body is `body`.
pub open spec fn is_authorized_request(
    req: HttpRequest,
    verb: Verb,
    uri: Seq<char>,
    access_token: Seq<char>,
    body: Seq<u8>,
) -> bool {
    &&& req.method@ == verb_name(verb)
    &&& req.uri@ == uri
    &&& req.headers@.len() == 1
    &&& req.headers@[0].0@ == authorization_name()
    &&& req.headers@[0].1@ == bearer_value(access_token)
    &&& req.body@ == body
}

/// Whether a status is a success (2xx).
pub open spec fn is_success(status: u16) -> bool {
    200 <= status && status < 300
}

} // verus!
