//! A batcher accepts messages into an internal buffer and reports when
//! messages must be flushed.
//!
//! The recommended usage pattern: push messages until a push hands the
//! message back (the full-batch signal), then send `into_message()`'s
//! batch, construct a fresh batcher, and push the returned message again.
//! A message whose own encoding exceeds the per-message cap is rejected
//! outright with [`Error::MessageTooLarge`] and never buffered.
//!
//! By default a pushed message that carries no timestamp is stamped with
//! the current time before its size is measured; `without_auto_timestamp`
//! turns that off.

use vstd::prelude::*;
use crate::clock::now_utc;
use crate::errors::Error;
use crate::json::clone_opt_value;
use crate::json::empty_json_map;
use crate::json::map_entries;
use crate::message::Batch;
use crate::message::BatchMessage;
use crate::message::Message;
use crate::wire::batch_message_bytes;
use crate::wire::batch_message_encodable;
use crate::wire::encode_batch_message;

verus! {

/// The maximum serialized size of a single message, in bytes.
pub const MAX_MESSAGE_SIZE: usize = 1024 * 32;

/// The maximum cumulative serialized size of a batch payload, in bytes.
pub const MAX_BATCH_SIZE: usize = 1024 * 512;

/// The cost a message adds to a batch: its serialized size plus one byte
/// of overhead for the separator between array elements.
pub open spec fn msg_cost(m: BatchMessage) -> int {
    batch_message_bytes(m).len() as int + 1
}

/// The cumulative cost of a buffered sequence of messages.
pub open spec fn buffer_cost(s: Seq<BatchMessage>) -> int
    decreases s.len(),
{
    if s.len() == 0 {
        0
    } else {
        msg_cost(s.first()) + buffer_cost(s.drop_first())
    }
}

/// Whether a message of the given serialized size is within the
/// per-message cap. This is the whole of the oversize decision: `push`
/// rejects a message with [`Error::MessageTooLarge`] exactly when its
/// measured size fails this test.
pub fn message_fits(size: usize) -> (b: bool)
    ensures
        b <==> size <= MAX_MESSAGE_SIZE,
{
    size <= MAX_MESSAGE_SIZE
}

/// Whether a batch whose byte count stands at `byte_count` admits one
/// more message of the given serialized size. This is the whole of the
/// full-batch decision: a batch that would land exactly at the cap is
/// still admitted, only exceeding it is refused.
pub fn batch_admits(byte_count: usize, size: usize) -> (b: bool)
    requires
        byte_count <= MAX_BATCH_SIZE,
        size <= MAX_MESSAGE_SIZE,
    ensures
        b <==> byte_count + size + 1 <= MAX_BATCH_SIZE,
{
    byte_count + size + 1 <= MAX_BATCH_SIZE
}

/// How a pushed message relates to the message actually measured and
/// stored: unchanged, except that a missing timestamp is filled in with
/// some time when auto-timestamping is on.
pub open spec fn stamps(orig: BatchMessage, stored: BatchMessage, auto_timestamp: bool) -> bool {
    if auto_timestamp && orig.spec_timestamp() is None {
        exists|t: time::OffsetDateTime| stored == orig.with_timestamp_opt(Some(t))
    } else {
        stored == orig
    }
}

/// The exhaustive case split of `push`, over the measured message `m` —
/// the pushed message after timestamp injection. Which outcome `push`
/// returns is decided entirely by `m`: whether it encodes at all,
/// whether its serialized size is within the per-message cap, and
/// whether its cost still fits the batch.
pub open spec fn push_outcome(
    pre: Batcher,
    post: Batcher,
    m: BatchMessage,
    r: Result<Option<BatchMessage>, Error>,
) -> bool {
    match r {
        Ok(None) => {
            &&& batch_message_encodable(m)
            &&& batch_message_bytes(m).len() <= MAX_MESSAGE_SIZE as int
            &&& pre.spec_byte_count() + msg_cost(m) <= MAX_BATCH_SIZE as int
            &&& post.buffered() == pre.buffered().push(m)
            &&& post.spec_byte_count() == pre.spec_byte_count() + msg_cost(m)
        },
        Ok(Some(returned)) => {
            &&& returned == m
            &&& batch_message_encodable(m)
            &&& batch_message_bytes(m).len() <= MAX_MESSAGE_SIZE as int
            &&& pre.spec_byte_count() + msg_cost(m) > MAX_BATCH_SIZE as int
            &&& post == pre
        },
        Err(e) => {
            &&& post == pre
            &&& match e {
                Error::MessageTooLarge => batch_message_encodable(m) && batch_message_bytes(
                    m,
                ).len() > MAX_MESSAGE_SIZE as int,
                Error::DeserializeError(_) => !batch_message_encodable(m),
                Error::NetworkError(_) => false,
            }
        },
    }
}

/// A batcher: an ordered buffer of messages not yet sent, a running byte
/// count, an optional context for the eventual batch, and the
/// auto-timestamp flag.
#[derive(Clone, Debug)]
pub struct Batcher {
    buf: Vec<BatchMessage>,
    byte_count: usize,
    context: Option<serde_json::Value>,
    auto_timestamp: bool,
}

impl Batcher {
    /// The buffered messages, in insertion order.
    pub closed spec fn buffered(&self) -> Seq<BatchMessage> {
        self.buf@
    }

    /// The running byte count, including the per-message overhead.
    pub closed spec fn spec_byte_count(&self) -> int {
        self.byte_count as int
    }

    /// The context to set on every batch this batcher produces.
    pub closed spec fn spec_context(&self) -> Option<serde_json::Value> {
        self.context
    }

    /// Whether pushed messages lacking a timestamp get the current time.
    pub closed spec fn spec_auto_timestamp(&self) -> bool {
        self.auto_timestamp
    }

    /// The batcher's invariant: the byte count is exactly the cumulative
    /// cost of the buffer, and never exceeds the batch cap.
    pub open spec fn wf(&self) -> bool {
        &&& self.spec_byte_count() == buffer_cost(self.buffered())
        &&& self.spec_byte_count() <= MAX_BATCH_SIZE as int
    }

    /// Constructs a new, empty batcher. Optionally, a `context` may be
    /// given that is set on every batch returned by `into_message`.
    pub fn new(context: Option<serde_json::Value>) -> (r: Self)
        ensures
            r.wf(),
            r.buffered() == Seq::<BatchMessage>::empty(),
            r.spec_byte_count() == 0,
            r.spec_context() == context,
            r.spec_auto_timestamp(),
    {
        Batcher { buf: Vec::new(), byte_count: 0, context, auto_timestamp: true }
    }

    /// Turns off automatic timestamp injection; everything else is kept.
    pub fn without_auto_timestamp(&mut self)
        ensures
            !final(self).spec_auto_timestamp(),
            final(self).buffered() == old(self).buffered(),
            final(self).spec_byte_count() == old(self).spec_byte_count(),
            final(self).spec_context() == old(self).spec_context(),
    {
        self.auto_timestamp = false;
    }

    /// Pushes a message into the batcher.
    ///
    /// Returns `Ok(None)` if the message was accepted and is now owned by
    /// the batcher; the stamped message stands at the end of the buffer
    /// and the byte count grew by its cost.
    ///
    /// Returns `Ok(Some(msg))` if the message was rejected because the
    /// current batch would exceed the batch cap with it: the batcher is
    /// unchanged and the stamped message is handed back so the caller can
    /// flush and push it again. A batch that lands exactly at the cap is
    /// accepted; only exceeding it rejects.
    ///
    /// Returns `Err(Error::MessageTooLarge)`, with the batcher unchanged,
    /// if the message's own encoding exceeds the per-message cap, and
    /// `Err(Error::DeserializeError(_))`, with the batcher unchanged,
    /// exactly when the message cannot be encoded to measure its size —
    /// which happens only for a timestamp the RFC 3339 form cannot
    /// render. The final `ensures` clause states the full case split:
    /// the stamped message decides the outcome.
    #[verifier::rlimit(50)]
    pub fn push(&mut self, msg: BatchMessage) -> (r: Result<Option<BatchMessage>, Error>)
        requires
            old(self).wf(),
        ensures
            final(self).wf(),
            final(self).spec_context() == old(self).spec_context(),
            final(self).spec_auto_timestamp() == old(self).spec_auto_timestamp(),
            r matches Ok(None) ==> {
                &&& final(self).buffered().len() == old(self).buffered().len() + 1
                &&& final(self).buffered() == old(self).buffered().push(
                    final(self).buffered().last(),
                )
                &&& stamps(msg, final(self).buffered().last(), old(self).spec_auto_timestamp())
                &&& batch_message_bytes(final(self).buffered().last()).len()
                    <= MAX_MESSAGE_SIZE as int
                &&& old(self).spec_byte_count() + msg_cost(final(self).buffered().last())
                    <= MAX_BATCH_SIZE as int
                &&& final(self).spec_byte_count() == old(self).spec_byte_count() + msg_cost(
                    final(self).buffered().last(),
                )
            },
            r matches Ok(Some(returned)) ==> {
                &&& stamps(msg, returned, old(self).spec_auto_timestamp())
                &&& batch_message_bytes(returned).len() <= MAX_MESSAGE_SIZE as int
                &&& old(self).spec_byte_count() + msg_cost(returned) > MAX_BATCH_SIZE as int
                &&& *final(self) == *old(self)
            },
            r matches Err(e) ==> {
                &&& *final(self) == *old(self)
                &&& (e matches Error::MessageTooLarge || e matches Error::DeserializeError(_))
            },
            exists|m: BatchMessage|
                #[trigger] stamps(msg, m, old(self).spec_auto_timestamp()) && push_outcome(
                    *old(self),
                    *final(self),
                    m,
                    r,
                ),
    {
        let ghost orig = msg;
        let mut msg = msg;
        let auto = self.auto_timestamp;
        let timestamp = msg.timestamp_mut();
        if auto && timestamp.is_none() {
            *timestamp = Some(now_utc());
        }
        proof {
            if !(auto && orig.spec_timestamp() is None) {
                assert(msg == orig.with_timestamp_opt(orig.spec_timestamp()));
                assert(orig.with_timestamp_opt(orig.spec_timestamp()) == orig) by {
                    lemma_with_timestamp_self(orig);
                }
            }
            assert(stamps(orig, msg, auto));
        }
        let encoded = encode_batch_message(&msg);
        let bytes = match encoded {
            Ok(b) => b,
            Err(e) => {
                proof {
                    assert(stamps(orig, msg, old(self).spec_auto_timestamp()) && push_outcome(
                        *old(self),
                        *self,
                        msg,
                        Err::<Option<BatchMessage>, Error>(e),
                    ));
                }
                return Err(e);
            },
        };
        let size = bytes.len();
        if !message_fits(size) {
            proof {
                assert(stamps(orig, msg, old(self).spec_auto_timestamp()) && push_outcome(
                    *old(self),
                    *self,
                    msg,
                    Err::<Option<BatchMessage>, Error>(Error::MessageTooLarge),
                ));
            }
            return Err(Error::MessageTooLarge);
        }
        if !batch_admits(self.byte_count, size) {
            proof {
                assert(stamps(orig, msg, old(self).spec_auto_timestamp()) && push_outcome(
                    *old(self),
                    *self,
                    msg,
                    Ok::<Option<BatchMessage>, Error>(Some(msg)),
                ));
            }
            return Ok(Some(msg));
        }
        self.byte_count = self.byte_count + size + 1;
        proof {
            lemma_buffer_cost_push(self.buf@, msg);
        }
        self.buf.push(msg);
        proof {
            assert(stamps(orig, msg, old(self).spec_auto_timestamp()) && push_outcome(
                *old(self),
                *self,
                msg,
                Ok::<Option<BatchMessage>, Error>(None),
            ));
        }
        Ok(None)
    }

    /// Consumes the batcher and produces the batch envelope: the buffered
    /// messages in insertion order, the stored context, no integrations,
    /// and an empty extras map.
    pub fn into_message(self) -> (r: Message)
        ensures
            r matches Message::Batch(b) && b.batch@ == self.buffered() && b.context
                == self.spec_context() && b.integrations is None && map_entries(b.extra)
                == Seq::<(String, serde_json::Value)>::empty(),
    {
        Message::Batch(
            Batch {
                batch: self.buf,
                context: self.context,
                integrations: None,
                extra: empty_json_map(),
            },
        )
    }

    /// Drains the batcher in place: produces the same batch envelope as
    /// `into_message` and leaves the batcher empty, keeping its context
    /// and timestamp setting for the next cycle.
    pub(crate) fn take_message(&mut self) -> (r: Message)
        ensures
            final(self).wf(),
            final(self).buffered() == Seq::<BatchMessage>::empty(),
            final(self).spec_byte_count() == 0,
            final(self).spec_context() == old(self).spec_context(),
            final(self).spec_auto_timestamp() == old(self).spec_auto_timestamp(),
            r matches Message::Batch(b) && b.batch@ == old(self).buffered() && b.context
                == old(self).spec_context() && b.integrations is None && map_entries(b.extra)
                == Seq::<(String, serde_json::Value)>::empty(),
    {
        let mut taken: Vec<BatchMessage> = Vec::new();
        core::mem::swap(&mut self.buf, &mut taken);
        self.byte_count = 0;
        let context = clone_opt_value(&self.context);
        Message::Batch(
            Batch { batch: taken, context, integrations: None, extra: empty_json_map() },
        )
    }
}

/// Replacing a message's timestamp with its own timestamp changes
/// nothing.
proof fn lemma_with_timestamp_self(m: BatchMessage)
    ensures
        m.with_timestamp_opt(m.spec_timestamp()) == m,
{
}

/// Appending one message to a buffer adds exactly that message's cost.
pub proof fn lemma_buffer_cost_push(s: Seq<BatchMessage>, m: BatchMessage)
    ensures
        buffer_cost(s.push(m)) == buffer_cost(s) + msg_cost(m),
    decreases s.len(),
{
    if s.len() == 0 {
        assert(s.push(m).first() == m);
        assert(s.push(m).drop_first() =~= Seq::<BatchMessage>::empty());
        assert(buffer_cost(s.push(m)) == msg_cost(m) + buffer_cost(
            Seq::<BatchMessage>::empty(),
        ));
    } else {
        assert(s.push(m).first() == s.first());
        assert(s.push(m).drop_first() =~= s.drop_first().push(m));
        lemma_buffer_cost_push(s.drop_first(), m);
        assert(buffer_cost(s.push(m)) == msg_cost(s.first()) + buffer_cost(
            s.drop_first().push(m),
        ));
        assert(buffer_cost(s) == msg_cost(s.first()) + buffer_cost(s.drop_first()));
    }
}

/// Every message costs at least one byte, so a buffer's cost is at least
/// its length.
pub proof fn lemma_buffer_cost_at_least_len(s: Seq<BatchMessage>)
    ensures
        buffer_cost(s) >= s.len(),
    decreases s.len(),
{
    if s.len() > 0 {
        lemma_buffer_cost_at_least_len(s.drop_first());
    }
}

/// A message within the per-message cap always fits an empty batch: its
/// cost cannot exceed the batch cap. This is what lets a caller flush a
/// full batch and push the returned message again, certain it is
/// accepted.
pub proof fn lemma_single_message_fits(m: BatchMessage)
    requires
        batch_message_bytes(m).len() <= MAX_MESSAGE_SIZE as int,
    ensures
        msg_cost(m) <= MAX_BATCH_SIZE as int,
{
}

/// Whether a run of messages would be accepted, one push after the
/// other, by a batcher whose byte count starts at `count`.
pub open spec fn all_accepted(count: int, msgs: Seq<BatchMessage>) -> bool
    decreases msgs.len(),
{
    msgs.len() == 0 || (count + msg_cost(msgs.first()) <= MAX_BATCH_SIZE as int && all_accepted(
        count + msg_cost(msgs.first()),
        msgs.drop_first(),
    ))
}

/// Boundary exactness: a run of pushes whose cumulative cost lands
/// exactly at the batch cap is accepted in full; only strictly exceeding
/// the cap triggers the full-batch signal.
pub proof fn lemma_boundary_run(count: int, msgs: Seq<BatchMessage>)
    requires
        0 <= count,
        count + buffer_cost(msgs) == MAX_BATCH_SIZE as int,
    ensures
        all_accepted(count, msgs),
    decreases msgs.len(),
{
    if msgs.len() > 0 {
        lemma_buffer_cost_at_least_len(msgs.drop_first());
        lemma_boundary_run(count + msg_cost(msgs.first()), msgs.drop_first());
    }
}

/// When every message in a buffer has the same serialized size, the
/// buffer's cost is exactly `len * (size + 1)`; with `push`'s contract
/// this pins the push on which a run of identical messages first
/// overflows.
pub proof fn lemma_uniform_cost(s: Seq<BatchMessage>, size: int)
    requires
        forall|i: int| 0 <= i < s.len() ==> (#[trigger] batch_message_bytes(s[i])).len() == size,
    ensures
        buffer_cost(s) == s.len() * (size + 1),
    decreases s.len(),
{
    if s.len() == 0 {
    } else {
        assert(forall|i: int|
            0 <= i < s.drop_first().len() ==> (#[trigger] batch_message_bytes(
                s.drop_first()[i],
            )).len() == size) by {
            assert(forall|i: int|
                0 <= i < s.drop_first().len() ==> s.drop_first()[i] == s[i + 1]);
        }
        lemma_uniform_cost(s.drop_first(), size);
        assert(buffer_cost(s) == (size + 1) + (s.len() - 1) * (size + 1));
        assert((size + 1) + (s.len() - 1) * (size + 1) == s.len() * (size + 1)) by (nonlinear_arith);
    }
}

/// The spec-level buffer after a run of accepted pushes.
pub open spec fn run_buffer(buf: Seq<BatchMessage>, msgs: Seq<BatchMessage>) -> Seq<BatchMessage>
    decreases msgs.len(),
{
    if msgs.len() == 0 {
        buf
    } else {
        run_buffer(buf.push(msgs.first()), msgs.drop_first())
    }
}

/// Order preservation: a run of accepted pushes appends the pushed
/// messages to the buffer in exactly the order they were pushed.
pub proof fn lemma_order_preservation(buf: Seq<BatchMessage>, msgs: Seq<BatchMessage>)
    ensures
        run_buffer(buf, msgs) == buf + msgs,
    decreases msgs.len(),
{
    if msgs.len() == 0 {
        assert(buf + msgs =~= buf);
    } else {
        lemma_order_preservation(buf.push(msgs.first()), msgs.drop_first());
        assert(buf.push(msgs.first()) + msgs.drop_first() =~= buf + msgs);
    }
}

} // verus!
