//! The classified errors of the request pipeline.
use vstd::prelude::*;

verus! {

/// The error of `url`'s parser, carried in [`DnsError::Url`].
#[verifier::external_type_specification]
#[verifier::external_body]
pub struct ExParseError(url::ParseError);

/// A JSON value of `serde_json`, carried opaquely in [`CloudDnsError`].
#[verifier::external_type_specification]
#[verifier::external_body]
pub struct ExJsonValue(serde_json::Value);

/// An error returned from Cloud DNS's API.
#[non_exhaustive]
#[derive(Debug, Clone)]
pub struct CloudDnsError {
    pub errors: Option<Vec<serde_json::Value>>,
    pub message: String,
}

impl CloudDnsError {
    /// An error payload with a message and an optional list of sub-errors.
    pub fn new(message: String, errors: Option<Vec<serde_json::Value>>) -> (r: CloudDnsError)
        ensures
            r.message == message,
            r.errors == errors,
    {
        CloudDnsError { errors, message }
    }
}

/// Every way a call can fail; exactly one variant describes each failure.
#[derive(Debug)]
pub enum DnsError {
    /// The API answered with a status outside 2xx and a structured error body.
    Dns { status: u16, source: CloudDnsError },
    /// The token provider could not issue a token or could not read the token
    /// response.
    Auth { message: String },
    /// A success body did not decode into the expected type; `path` locates the
    /// mismatch in the document.
    Json { path: String, message: String },
    /// A request body could not be encoded as JSON.
    Encode { message: String },
    /// The route did not resolve against the base URL.
    Url(url::ParseError),
    /// The API answered with a status outside 2xx and a body that is not a
    /// structured error.
    Http { status: u16, body: Vec<u8> },
    /// The multiplexer or the transport behind it failed.
    Service { message: String },
    /// The token exchange was driven out of its protocol.
    Protocol { message: String },
    /// An error from elsewhere.
    Other { message: String },
}

} // verus!
