//! A batch handle bound to a low-level client and a write key.

use vstd::prelude::*;
use crate::errors::Error;
use crate::ll_client::Client;

verus! {

/// A handle for enqueuing into a batch owned by a low-level client.
pub struct Batch<'a> {
    client: &'a Client,
    write_key: String,
}

impl<'a> Batch<'a> {
    /// Binds a batch handle to a client and a write key.
    #[allow(dead_code)]
    pub(crate) fn new(client: &'a Client, write_key: String) -> Batch<'a> {
        Batch { client, write_key }
    }

    /// Enqueues into the batch; this stub always succeeds.
    pub fn enqueue(&self) -> (r: Result<(), Error>)
        ensures
            r is Ok,
    {
        Ok(())
    }

    /// Flushes the batch; this stub always succeeds.
    pub fn flush(&self) -> (r: Result<(), Error>)
        ensures
            r is Ok,
    {
        Ok(())
    }

    /// Closes the batch; this stub always succeeds.
    pub fn close(self) -> (r: Result<(), Error>)
        ensures
            r is Ok,
    {
        Ok(())
    }
}

} // verus!
