//! Errors reported by the client.

use vstd::prelude::*;

verus! {

/// What went wrong while preparing, sending or checking a request.
#[derive(Debug)]
pub enum NcmError {
    /// Session or configuration problem (HTTP client setup, cookie store, request shape).
    Session(String),
    /// Failure while encoding request parameters.
    Crypto(String),
    /// A reply that is not JSON.
    Json(String),
    /// The API answered with a `code` outside the accepted set; the whole reply is kept.
    Api(serde_json::Value),
}

impl NcmError {
    /// The message of a `Session`, `Crypto` or `Json` error (empty for `Api`).
    pub open spec fn message(self) -> Seq<char> {
        match self {
            NcmError::Session(m) => m@,
            NcmError::Crypto(m) => m@,
            NcmError::Json(m) => m@,
            NcmError::Api(_) => Seq::empty(),
        }
    }
}

} // verus!
