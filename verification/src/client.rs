//! The transport interface consumed by the batching layer.

use vstd::prelude::*;
use crate::errors::Error;
use crate::message::Message;

verus! {

/// A transport that can send a fully formed message to the tracking API.
///
/// An implementor routes each message kind to the correct endpoint path,
/// attaches the write key as the API credential, serializes the message
/// as the request body, and translates a non-success response into
/// [`Error::NetworkError`]. No retry policy is prescribed here; retry and
/// backoff belong to the caller or the implementor.
pub trait Client {
    /// Sends a message under the given write key.
    fn send(&self, write_key: String, msg: Message) -> Result<(), Error>;
}

} // verus!
