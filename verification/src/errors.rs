//! Errors which may arise from this crate.

use vstd::prelude::*;
use vstd::string::StringExecFns;

verus! {

/// The failure modes of the batching core and its transport.
#[derive(Debug)]
pub enum Error {
    /// A single message's serialized form exceeds the per-message cap.
    MessageTooLarge,
    /// A message could not be serialized to measure its size or to build
    /// the envelope; the payload describes the serializer's complaint.
    DeserializeError(String),
    /// The underlying send failed (a network error or a non-success HTTP
    /// status); the payload describes the transport's complaint.
    NetworkError(String),
}

impl Error {
    /// A short, stable description of the error kind.
    pub fn describe(&self) -> (r: String)
        ensures
            self matches Error::MessageTooLarge ==> r@ == "message too large"@,
            self matches Error::DeserializeError(_) ==> r@ == "Deserialize error"@,
            self matches Error::NetworkError(_) ==> r@ == "Network error"@,
    {
        match self {
            Error::MessageTooLarge => String::from_str("message too large"),
            Error::DeserializeError(_) => String::from_str("Deserialize error"),
            Error::NetworkError(_) => String::from_str("Network error"),
        }
    }
}

} // verus!
