//! Couples a batcher to a transport: when a batch fills it is sent
//! automatically, and a final explicit `flush` sends whatever remains.

use vstd::prelude::*;
use crate::batcher::Batcher;
use crate::batcher::MAX_BATCH_SIZE;
use crate::batcher::MAX_MESSAGE_SIZE;
use crate::batcher::lemma_single_message_fits;
use crate::batcher::msg_cost;
use crate::batcher::push_outcome;
use crate::batcher::stamps;
use crate::client::Client;
use crate::errors::Error;
use crate::message::BatchMessage;
use crate::wire::batch_message_bytes;
use crate::wire::batch_message_encodable;

verus! {

/// An owned transport, an owned batcher, and the write key under which
/// batches are sent.
pub struct AutoBatcher<C: Client> {
    client: C,
    batcher: Batcher,
    key: String,
}

impl<C: Client> AutoBatcher<C> {
    /// The messages buffered and not yet sent, in push order.
    pub closed spec fn buffered(&self) -> Seq<BatchMessage> {
        self.batcher.buffered()
    }

    /// The running byte count of the owned batcher.
    pub closed spec fn spec_byte_count(&self) -> int {
        self.batcher.spec_byte_count()
    }

    /// The context set on every batch this batcher sends.
    pub closed spec fn spec_context(&self) -> Option<serde_json::Value> {
        self.batcher.spec_context()
    }

    /// Whether pushed messages lacking a timestamp get the current time.
    pub closed spec fn spec_auto_timestamp(&self) -> bool {
        self.batcher.spec_auto_timestamp()
    }

    /// The write key under which batches are sent.
    pub closed spec fn spec_key(&self) -> Seq<char> {
        self.key@
    }

    /// The owned batcher's invariant.
    pub closed spec fn wf(&self) -> bool {
        self.batcher.wf()
    }

    /// The case split of `push`, over the measured message `m` — the
    /// pushed message after timestamp injection. On success `m` either
    /// joined the current batch, or — when its cost would have
    /// overflowed the batch — the full batch was sent first and `m`
    /// alone starts the new one. An error is either the batcher's own
    /// (an oversized or unencodable message; nothing sent, nothing
    /// changed) or was raised while flushing a full batch, which is then
    /// already drained; the transport's errors are its own affair.
    pub open spec fn push_case(
        self,
        post: Self,
        m: BatchMessage,
        r: Result<(), Error>,
    ) -> bool {
        match r {
            Ok(()) => {
                &&& batch_message_encodable(m)
                &&& batch_message_bytes(m).len() <= MAX_MESSAGE_SIZE as int
                &&& if self.spec_byte_count() + msg_cost(m) <= MAX_BATCH_SIZE as int {
                    post.buffered() == self.buffered().push(m) && post.spec_byte_count()
                        == self.spec_byte_count() + msg_cost(m)
                } else {
                    post.buffered() == seq![m] && post.spec_byte_count() == msg_cost(m)
                }
            },
            Err(e) => {
                ||| {
                    &&& post.buffered() == self.buffered()
                    &&& post.spec_byte_count() == self.spec_byte_count()
                    &&& match e {
                        Error::MessageTooLarge => batch_message_encodable(m)
                            && batch_message_bytes(m).len() > MAX_MESSAGE_SIZE as int,
                        Error::DeserializeError(_) => !batch_message_encodable(m),
                        Error::NetworkError(_) => false,
                    }
                }
                ||| {
                    &&& batch_message_encodable(m)
                    &&& batch_message_bytes(m).len() <= MAX_MESSAGE_SIZE as int
                    &&& self.spec_byte_count() + msg_cost(m) > MAX_BATCH_SIZE as int
                    &&& post.buffered().len() == 0
                    &&& post.spec_byte_count() == 0
                }
            },
        }
    }

    /// Constructs an auto-batcher from a transport, a batcher, and a
    /// write key.
    pub fn new(client: C, batcher: Batcher, key: String) -> (r: Self)
        requires
            batcher.wf(),
        ensures
            r.wf(),
            r.buffered() == batcher.buffered(),
            r.spec_byte_count() == batcher.spec_byte_count(),
            r.spec_context() == batcher.spec_context(),
            r.spec_auto_timestamp() == batcher.spec_auto_timestamp(),
            r.spec_key() == key@,
    {
        AutoBatcher { batcher, client, key }
    }

    /// Sends everything currently in the batcher — full or empty — under
    /// the stored write key, and leaves the batcher empty for the next
    /// cycle. The result is the transport's; a failed send does not put
    /// the drained messages back.
    pub fn flush(&mut self) -> (r: Result<(), Error>)
        requires
            old(self).wf(),
        ensures
            final(self).wf(),
            final(self).buffered() == Seq::<BatchMessage>::empty(),
            final(self).spec_byte_count() == 0,
            final(self).spec_key() == old(self).spec_key(),
            final(self).spec_context() == old(self).spec_context(),
            final(self).spec_auto_timestamp() == old(self).spec_auto_timestamp(),
    {
        let message = self.batcher.take_message();
        let key = self.key.clone();
        self.client.send(key, message)
    }

    /// Pushes a message; when the batch is full, sends it first and
    /// starts a fresh batch holding the message.
    ///
    /// The final `ensures` clause states the full case split over the
    /// stamped message: on success it joined the current batch or alone
    /// starts the next one; an error is the batcher's own with nothing
    /// changed, or the transport's while flushing a full batch, which is
    /// then already drained.
    pub fn push(&mut self, msg: BatchMessage) -> (r: Result<(), Error>)
        requires
            old(self).wf(),
        ensures
            final(self).wf(),
            final(self).spec_key() == old(self).spec_key(),
            final(self).spec_context() == old(self).spec_context(),
            final(self).spec_auto_timestamp() == old(self).spec_auto_timestamp(),
            exists|m: BatchMessage|
                #[trigger] stamps(msg, m, old(self).spec_auto_timestamp()) && old(self).push_case(
                    *final(self),
                    m,
                    r,
                ),
    {
        let ghost auto = old(self).spec_auto_timestamp();
        let pushed = self.batcher.push(msg);
        let ghost m0 = choose|m: BatchMessage|
            stamps(msg, m, auto) && push_outcome(old(self).batcher, self.batcher, m, pushed);
        match pushed {
            Ok(None) => {
                proof {
                    assert(stamps(msg, m0, auto) && old(self).push_case(*self, m0, Ok(())));
                }
                Ok(())
            },
            Ok(Some(returned)) => {
                proof {
                    assert(m0 == returned);
                }
                let flushed = self.flush();
                match flushed {
                    Ok(()) => (),
                    Err(e) => {
                        proof {
                            assert(stamps(msg, m0, auto) && old(self).push_case(
                                *self,
                                m0,
                                Err::<(), Error>(e),
                            ));
                        }
                        return Err(e);
                    },
                }
                proof {
                    lemma_single_message_fits(returned);
                }
                let ghost drained = self.batcher;
                let pushed_again = self.batcher.push(returned);
                proof {
                    let m2 = choose|m: BatchMessage|
                        stamps(returned, m, auto) && push_outcome(
                            drained,
                            self.batcher,
                            m,
                            pushed_again,
                        );
                    lemma_restamp_identity(msg, m0, m2, auto);
                }
                match pushed_again {
                    Ok(None) => {
                        proof {
                            assert(Seq::<BatchMessage>::empty().push(m0) =~= seq![m0]);
                            assert(stamps(msg, m0, auto) && old(self).push_case(
                                *self,
                                m0,
                                Ok(()),
                            ));
                        }
                        Ok(())
                    },
                    Ok(Some(_)) => {
                        // A message within the per-message cap always fits an
                        // empty batch, so the batcher cannot hand it back.
                        proof {
                            assert(false);
                        }
                        Ok(())
                    },
                    Err(e) => {
                        // The returned message was already measured as
                        // encodable and within the cap, so the second push
                        // cannot fail.
                        proof {
                            assert(false);
                        }
                        Err(e)
                    },
                }
            },
            Err(e) => {
                proof {
                    assert(stamps(msg, m0, auto) && old(self).push_case(
                        *self,
                        m0,
                        Err::<(), Error>(e),
                    ));
                }
                Err(e)
            },
        }
    }
}

/// Stamping is idempotent: re-pushing an already-stamped message leaves
/// it unchanged — the first stamping either filled the missing
/// timestamp or the flag was off, so the second finds nothing to fill.
proof fn lemma_restamp_identity(
    orig: BatchMessage,
    first: BatchMessage,
    second: BatchMessage,
    auto_timestamp: bool,
)
    requires
        stamps(orig, first, auto_timestamp),
        stamps(first, second, auto_timestamp),
    ensures
        second == first,
{
    if auto_timestamp && orig.spec_timestamp() is None {
        let t = choose|t: time::OffsetDateTime| first == orig.with_timestamp_opt(Some(t));
        assert(first.spec_timestamp() == Some(t));
    }
}

} // verus!
