//! A low-level client stub: accepts messages and reports success without
//! sending anything.

use vstd::prelude::*;
use crate::errors::Error;
use crate::message::Message;

verus! {

/// A placeholder low-level transport.
pub struct Client {}

impl Client {
    /// A new low-level client.
    pub fn new() -> Client {
        Client {}
    }

    /// Accepts a message for the given write key; this stub always
    /// succeeds and sends nothing.
    #[allow(unused_variables)]
    pub fn send(&self, write_key: &str, msg: Message) -> (r: Result<(), Error>)
        ensures
            r is Ok,
    {
        Ok(())
    }
}

} // verus!
