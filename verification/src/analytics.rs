//! A builder for a channel-backed analytics pipeline: collects the write
//! key, the transport, the channel bound and the shared context before
//! the pipeline is assembled.

use vstd::prelude::*;

verus! {

/// The settings of an analytics pipeline.
pub struct AnalyticsBuilder<C> {
    write_key: String,
    client: C,
    channel_capacity: Option<usize>,
    context: Option<serde_json::Value>,
}

impl<C> AnalyticsBuilder<C> {
    /// The write key messages will be sent under.
    pub closed spec fn spec_write_key(&self) -> Seq<char> {
        self.write_key@
    }

    /// The bound on the pipeline's channel, if any.
    pub closed spec fn spec_channel_capacity(&self) -> Option<usize> {
        self.channel_capacity
    }

    /// The context to stamp onto every batch, if any.
    pub closed spec fn spec_context(&self) -> Option<serde_json::Value> {
        self.context
    }

    /// The transport the pipeline will send with.
    pub closed spec fn spec_client(&self) -> C {
        self.client
    }

    /// Starts a builder with a write key and a transport; no channel
    /// bound and no context yet.
    pub fn new_with_client(write_key: String, client: C) -> (r: AnalyticsBuilder<C>)
        ensures
            r.spec_write_key() == write_key@,
            r.spec_channel_capacity() is None,
            r.spec_context() is None,
    {
        AnalyticsBuilder { write_key, client, channel_capacity: None, context: None }
    }

    /// Sets or clears the bound on the pipeline's channel.
    pub fn channel_capacity(&mut self, channel_capacity: Option<usize>) -> (r: &mut
        AnalyticsBuilder<C>)
        ensures
            (*r).spec_channel_capacity() == channel_capacity,
            (*r).spec_write_key() == old(self).spec_write_key(),
            (*r).spec_context() == old(self).spec_context(),
            *final(self) == *final(r),
    {
        self.channel_capacity = channel_capacity;
        self
    }

    /// Sets the context to stamp onto every batch.
    pub fn context(&mut self, context: serde_json::Value) -> (r: &mut AnalyticsBuilder<C>)
        ensures
            (*r).spec_context() == Some(context),
            (*r).spec_write_key() == old(self).spec_write_key(),
            (*r).spec_channel_capacity() == old(self).spec_channel_capacity(),
            *final(self) == *final(r),
    {
        self.context = Some(context);
        self
    }

    /// Takes the builder apart: the write key, the transport, the
    /// channel bound and the context, for whoever assembles the
    /// pipeline around them.
    pub fn into_parts(self) -> (r: (String, C, Option<usize>, Option<serde_json::Value>))
        ensures
            r.0@ == self.spec_write_key(),
            r.1 == self.spec_client(),
            r.2 == self.spec_channel_capacity(),
            r.3 == self.spec_context(),
    {
        (self.write_key, self.client, self.channel_capacity, self.context)
    }
}

} // verus!
