//! A client library for a server-side event-tracking API.
//!
//! Typed analytics events (identify/track/page/screen/group/alias) are
//! accumulated by a [`Batcher`] into size-bounded batches and turned into a
//! single wire-format batch payload; an [`AutoBatcher`] couples a `Batcher`
//! to a [`Client`] transport and flushes full batches automatically.

pub mod analytics;
pub mod auto_batcher;
pub mod batch;
pub mod batcher;
pub mod client;
pub mod clock;
pub mod errors;
pub mod json;
pub mod ll_client;
pub mod message;
pub mod standard_client;
pub mod wire;

pub use auto_batcher::AutoBatcher;
pub use batcher::Batcher;
pub use client::Client;
pub use errors::Error;
pub use message::Message;
