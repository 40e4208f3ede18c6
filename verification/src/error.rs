//! The error type shared by every client.

use vstd::prelude::*;

verus! {

/// What can go wrong when talking to a remote service.
#[derive(Debug, Clone)]
pub enum ClientError {
    /// The HTTP exchange itself failed.
    Http(String),
    /// A response body was not the JSON that was expected.
    Json(String),
    /// The service answered with an error.
    Api { status: u16, message: String },
    /// The service refused the credentials.
    Auth(String),
    /// Anything else.
    Other(String),
}

} // verus!
