//! The errors a ResourceSpace call can end in.

use vstd::prelude::*;

use crate::text::{push_str, spec_dec, u64_to_dec};
use crate::wire::Params;

verus! {

/// Why a call failed.
///
/// Failures that come from outside the library (the HTTP transport, the
/// file system, the HTTP client, URL parsing) carry the text of the
/// underlying error.
#[non_exhaustive]
#[derive(Clone, Debug, PartialEq)]
pub enum Error {
    /// The server answered with a status outside 200..=299.
    Http { status: u16, body: String },
    /// The server answered `FAILED: <message>`.
    Api { function: String, message: String },
    /// The login call answered `false`.
    InvalidCredentials,
    /// The server answered `invalid_signature`.
    InvalidSignature,
    /// The server answered `false`; `params` are the parameters that were
    /// sent.
    OperationFailed { function: String, params: Params },
    /// The reply did not have the shape the endpoint documents.
    Deserialize { function: String, message: String },
    /// The request could not be sent or its reply could not be read.
    Transport(String),
    /// A local file could not be read.
    Io(String),
    /// The HTTP client could not be built, or the call was malformed.
    Client(String),
    /// The base URL could not be parsed or extended.
    Url(String),
    /// A request parameter is out of its documented range.
    Validation(String),
}

/// The human-readable description of an error.
pub open spec fn error_message(e: Error) -> Seq<char> {
    match e {
        Error::Http { status, body } => "HTTP error: "@ + spec_dec(status as nat) + ": "@ + body@,
        Error::Api { function, message } => "API error "@ + function@ + ": "@ + message@,
        Error::InvalidCredentials => "ResourceSpace returned false during login: invalid credentials"@,
        Error::InvalidSignature => "ResourceSpace returned: invalid signature"@,
        Error::OperationFailed { function, params } => "ResourceSpace returned false for `"@
            + function@ + "`"@,
        Error::Deserialize { function, message } => "Failed to deserialize response for `"@
            + function@ + "`: "@ + message@,
        Error::Transport(m) => "Transport error: "@ + m@,
        Error::Io(m) => "IO error: "@ + m@,
        Error::Client(m) => "Client error: "@ + m@,
        Error::Url(m) => "URL error: "@ + m@,
        Error::Validation(m) => "Validation error: "@ + m@,
    }
}

impl Error {
    /// The human-readable description of the error.
    pub fn message(&self) -> (r: String)
        ensures
            r@ == error_message(*self),
    {
        let mut out = String::new();
        match self {
            Error::Http { status, body } => {
                push_str(&mut out, "HTTP error: ");
                let s = u64_to_dec(*status as u64);
                push_str(&mut out, s.as_str());
                push_str(&mut out, ": ");
                push_str(&mut out, body.as_str());
            },
            Error::Api { function, message } => {
                push_str(&mut out, "API error ");
                push_str(&mut out, function.as_str());
                push_str(&mut out, ": ");
                push_str(&mut out, message.as_str());
            },
            Error::InvalidCredentials => {
                push_str(&mut out, "ResourceSpace returned false during login: invalid credentials");
            },
            Error::InvalidSignature => {
                push_str(&mut out, "ResourceSpace returned: invalid signature");
            },
            Error::OperationFailed { function, params: _ } => {
                push_str(&mut out, "ResourceSpace returned false for `");
                push_str(&mut out, function.as_str());
                push_str(&mut out, "`");
            },
            Error::Deserialize { function, message } => {
                push_str(&mut out, "Failed to deserialize response for `");
                push_str(&mut out, function.as_str());
                push_str(&mut out, "`: ");
                push_str(&mut out, message.as_str());
            },
            Error::Transport(m) => {
                push_str(&mut out, "Transport error: ");
                push_str(&mut out, m.as_str());
            },
            Error::Io(m) => {
                push_str(&mut out, "IO error: ");
                push_str(&mut out, m.as_str());
            },
            Error::Client(m) => {
                push_str(&mut out, "Client error: ");
                push_str(&mut out, m.as_str());
            },
            Error::Url(m) => {
                push_str(&mut out, "URL error: ");
                push_str(&mut out, m.as_str());
            },
            Error::Validation(m) => {
                push_str(&mut out, "Validation error: ");
                push_str(&mut out, m.as_str());
            },
        }
        out
    }
}

} // verus!
