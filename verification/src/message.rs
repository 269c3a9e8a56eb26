//! The closed set of event messages understood by the tracking API.

use vstd::prelude::*;

verus! {

#[verifier::external_type_specification]
#[verifier::external_body]
pub struct ExValue(serde_json::Value);

#[verifier::external_type_specification]
#[verifier::external_body]
#[verifier::reject_recursive_types(K)]
#[verifier::reject_recursive_types(V)]
pub struct ExJsonMap<K, V>(serde_json::Map<K, V>);

#[verifier::external_type_specification]
#[verifier::external_body]
pub struct ExOffsetDateTime(time::OffsetDateTime);

/// Relies on serde_json's derived `Clone` for `Value`: the clone is a
/// duplicate of the original.
pub assume_specification[ <serde_json::Value as Clone>::clone ](
    v: &serde_json::Value,
) -> (r: serde_json::Value)
    ensures
        r == *v,
;

/// Relies on serde_json's `Clone` for `Map`, which copies the underlying
/// ordered map entry by entry.
pub assume_specification[ <serde_json::Map<String, serde_json::Value> as Clone>::clone ](
    m: &serde_json::Map<String, serde_json::Value>,
) -> (r: serde_json::Map<String, serde_json::Value>)
    ensures
        r == *m,
;

/// The user associated with a message: a user ID, an anonymous ID, or both.
/// At least one of the two must be present for a message to be sendable.
#[derive(PartialEq, Eq, Debug, Clone)]
pub enum User {
    /// The user is identified only by a user ID.
    UserId { user_id: String },

    /// The user is identified only by an anonymous ID.
    AnonymousId { anonymous_id: String },

    /// The user is identified by both a user ID and an anonymous ID.
    Both { user_id: String, anonymous_id: String },
}

impl Default for User {
    /// An anonymous user with an empty ID.
    fn default() -> (r: Self)
        ensures
            r matches User::AnonymousId { anonymous_id } && anonymous_id@
                == Seq::<char>::empty(),
    {
        User::AnonymousId { anonymous_id: String::new() }
    }
}

impl User {
    /// The ID to show for this user: the user ID where one is present,
    /// the anonymous ID otherwise.
    pub fn id_string(&self) -> (r: String)
        ensures
            match self {
                User::UserId { user_id } => r@ == user_id@,
                User::AnonymousId { anonymous_id } => r@ == anonymous_id@,
                User::Both { user_id, anonymous_id } => r@ == user_id@,
            },
    {
        match self {
            User::UserId { user_id } => user_id.clone(),
            User::AnonymousId { anonymous_id } => anonymous_id.clone(),
            User::Both { user_id, anonymous_id: _ } => user_id.clone(),
        }
    }
}

/// An identify event: assigns traits to a user.
#[derive(PartialEq, Eq, Debug, Clone, Default)]
pub struct Identify {
    /// The user associated with this message.
    pub user: User,

    /// The traits to assign to the user.
    pub traits: serde_json::Value,

    /// The timestamp associated with this message.
    pub timestamp: Option<time::OffsetDateTime>,

    /// Context associated with this message.
    pub context: Option<serde_json::Value>,

    /// Integrations to route this message to.
    pub integrations: Option<serde_json::Value>,

    /// Extra fields to put at the top level of this message.
    pub extra: serde_json::Map<String, serde_json::Value>,
}

/// A track event: records that a named event happened.
#[derive(PartialEq, Eq, Debug, Clone, Default)]
pub struct Track {
    /// The user associated with this message.
    pub user: User,

    /// The name of the event being tracked.
    pub event: String,

    /// The properties associated with the event.
    pub properties: serde_json::Value,

    /// The timestamp associated with this message.
    pub timestamp: Option<time::OffsetDateTime>,

    /// Context associated with this message.
    pub context: Option<serde_json::Value>,

    /// Integrations to route this message to.
    pub integrations: Option<serde_json::Value>,

    /// Extra fields to put at the top level of this message.
    pub extra: serde_json::Map<String, serde_json::Value>,
}

/// A page event: records a page view.
#[derive(PartialEq, Eq, Debug, Clone, Default)]
pub struct Page {
    /// The user associated with this message.
    pub user: User,

    /// The name of the page being tracked.
    pub name: String,

    /// The properties associated with the event.
    pub properties: serde_json::Value,

    /// The timestamp associated with this message.
    pub timestamp: Option<time::OffsetDateTime>,

    /// Context associated with this message.
    pub context: Option<serde_json::Value>,

    /// Integrations to route this message to.
    pub integrations: Option<serde_json::Value>,

    /// Extra fields to put at the top level of this message.
    pub extra: serde_json::Map<String, serde_json::Value>,
}

/// A screen event: records a screen view.
#[derive(PartialEq, Eq, Debug, Clone, Default)]
pub struct Screen {
    /// The user associated with this message.
    pub user: User,

    /// The name of the screen being tracked.
    pub name: String,

    /// The properties associated with the event.
    pub properties: serde_json::Value,

    /// The timestamp associated with this message.
    pub timestamp: Option<time::OffsetDateTime>,

    /// Context associated with this message.
    pub context: Option<serde_json::Value>,

    /// Integrations to route this message to.
    pub integrations: Option<serde_json::Value>,

    /// Extra fields to put at the top level of this message.
    pub extra: serde_json::Map<String, serde_json::Value>,
}

/// A group event: associates a user with a group.
#[derive(PartialEq, Eq, Debug, Clone, Default)]
pub struct Group {
    /// The user associated with this message.
    pub user: User,

    /// The group the user is being associated with.
    pub group_id: String,

    /// The traits to assign to the group.
    pub traits: serde_json::Value,

    /// The timestamp associated with this message.
    pub timestamp: Option<time::OffsetDateTime>,

    /// Context associated with this message.
    pub context: Option<serde_json::Value>,

    /// Integrations to route this message to.
    pub integrations: Option<serde_json::Value>,

    /// Extra fields to put at the top level of this message.
    pub extra: serde_json::Map<String, serde_json::Value>,
}

/// An alias event: links a user's previous ID to a new one.
#[derive(PartialEq, Eq, Debug, Clone, Default)]
pub struct Alias {
    /// The user associated with this message.
    pub user: User,

    /// The user's previous ID.
    pub previous_id: String,

    /// The timestamp associated with this message.
    pub timestamp: Option<time::OffsetDateTime>,

    /// Context associated with this message.
    pub context: Option<serde_json::Value>,

    /// Integrations to route this message to.
    pub integrations: Option<serde_json::Value>,

    /// Extra fields to put at the top level of this message.
    pub extra: serde_json::Map<String, serde_json::Value>,
}

/// A batch envelope: an ordered list of events sent in one request.
#[derive(PartialEq, Eq, Debug, Clone, Default)]
pub struct Batch {
    /// The batch of messages to send, in insertion order.
    pub batch: Vec<BatchMessage>,

    /// Context associated with this message.
    pub context: Option<serde_json::Value>,

    /// Integrations to route this message to.
    pub integrations: Option<serde_json::Value>,

    /// Extra fields to put at the top level of this message.
    pub extra: serde_json::Map<String, serde_json::Value>,
}

/// An enumeration of all the message kinds the API accepts.
#[derive(PartialEq, Eq, Debug, Clone)]
pub enum Message {
    Identify(Identify),
    Track(Track),
    Page(Page),
    Screen(Screen),
    Group(Group),
    Alias(Alias),
    Batch(Batch),
}

/// The subset of message kinds that may be nested inside a batch envelope;
/// excludes `Batch` itself, so batches never nest.
#[derive(PartialEq, Eq, Debug, Clone)]
pub enum BatchMessage {
    Identify(Identify),
    Track(Track),
    Page(Page),
    Screen(Screen),
    Group(Group),
    Alias(Alias),
}

impl BatchMessage {
    /// The timestamp field of the underlying event.
    pub open spec fn spec_timestamp(self) -> Option<time::OffsetDateTime> {
        match self {
            BatchMessage::Identify(m) => m.timestamp,
            BatchMessage::Track(m) => m.timestamp,
            BatchMessage::Page(m) => m.timestamp,
            BatchMessage::Screen(m) => m.timestamp,
            BatchMessage::Group(m) => m.timestamp,
            BatchMessage::Alias(m) => m.timestamp,
        }
    }

    /// The same message with its timestamp field replaced by `ts`.
    pub open spec fn with_timestamp_opt(
        self,
        ts: Option<time::OffsetDateTime>,
    ) -> BatchMessage {
        match self {
            BatchMessage::Identify(m) => BatchMessage::Identify(
                Identify { timestamp: ts, ..m },
            ),
            BatchMessage::Track(m) => BatchMessage::Track(Track { timestamp: ts, ..m }),
            BatchMessage::Page(m) => BatchMessage::Page(Page { timestamp: ts, ..m }),
            BatchMessage::Screen(m) => BatchMessage::Screen(Screen { timestamp: ts, ..m }),
            BatchMessage::Group(m) => BatchMessage::Group(Group { timestamp: ts, ..m }),
            BatchMessage::Alias(m) => BatchMessage::Alias(Alias { timestamp: ts, ..m }),
        }
    }

    /// A mutable borrow of the event's timestamp field.
    pub(crate) fn timestamp_mut(&mut self) -> (r: &mut Option<time::OffsetDateTime>)
        ensures
            *r == old(self).spec_timestamp(),
            *final(self) == old(self).with_timestamp_opt(*final(r)),
    {
        match self {
            BatchMessage::Identify(m) => &mut m.timestamp,
            BatchMessage::Track(m) => &mut m.timestamp,
            BatchMessage::Page(m) => &mut m.timestamp,
            BatchMessage::Screen(m) => &mut m.timestamp,
            BatchMessage::Group(m) => &mut m.timestamp,
            BatchMessage::Alias(m) => &mut m.timestamp,
        }
    }
}

impl From<Identify> for Message {
    fn from(message: Identify) -> Self {
        Message::Identify(message)
    }
}

impl vstd::std_specs::convert::FromSpecImpl<Identify> for Message {
    open spec fn obeys_from_spec() -> bool {
        true
    }

    open spec fn from_spec(message: Identify) -> Self {
        Message::Identify(message)
    }
}

impl From<Track> for Message {
    fn from(message: Track) -> Self {
        Message::Track(message)
    }
}

impl vstd::std_specs::convert::FromSpecImpl<Track> for Message {
    open spec fn obeys_from_spec() -> bool {
        true
    }

    open spec fn from_spec(message: Track) -> Self {
        Message::Track(message)
    }
}

impl From<Page> for Message {
    fn from(message: Page) -> Self {
        Message::Page(message)
    }
}

impl vstd::std_specs::convert::FromSpecImpl<Page> for Message {
    open spec fn obeys_from_spec() -> bool {
        true
    }

    open spec fn from_spec(message: Page) -> Self {
        Message::Page(message)
    }
}

impl From<Screen> for Message {
    fn from(message: Screen) -> Self {
        Message::Screen(message)
    }
}

impl vstd::std_specs::convert::FromSpecImpl<Screen> for Message {
    open spec fn obeys_from_spec() -> bool {
        true
    }

    open spec fn from_spec(message: Screen) -> Self {
        Message::Screen(message)
    }
}

impl From<Group> for Message {
    fn from(message: Group) -> Self {
        Message::Group(message)
    }
}

impl vstd::std_specs::convert::FromSpecImpl<Group> for Message {
    open spec fn obeys_from_spec() -> bool {
        true
    }

    open spec fn from_spec(message: Group) -> Self {
        Message::Group(message)
    }
}

impl From<Alias> for Message {
    fn from(message: Alias) -> Self {
        Message::Alias(message)
    }
}

impl vstd::std_specs::convert::FromSpecImpl<Alias> for Message {
    open spec fn obeys_from_spec() -> bool {
        true
    }

    open spec fn from_spec(message: Alias) -> Self {
        Message::Alias(message)
    }
}

impl From<Batch> for Message {
    fn from(message: Batch) -> Self {
        Message::Batch(message)
    }
}

impl vstd::std_specs::convert::FromSpecImpl<Batch> for Message {
    open spec fn obeys_from_spec() -> bool {
        true
    }

    open spec fn from_spec(message: Batch) -> Self {
        Message::Batch(message)
    }
}

impl From<Identify> for BatchMessage {
    fn from(message: Identify) -> Self {
        BatchMessage::Identify(message)
    }
}

impl vstd::std_specs::convert::FromSpecImpl<Identify> for BatchMessage {
    open spec fn obeys_from_spec() -> bool {
        true
    }

    open spec fn from_spec(message: Identify) -> Self {
        BatchMessage::Identify(message)
    }
}

impl From<Track> for BatchMessage {
    fn from(message: Track) -> Self {
        BatchMessage::Track(message)
    }
}

impl vstd::std_specs::convert::FromSpecImpl<Track> for BatchMessage {
    open spec fn obeys_from_spec() -> bool {
        true
    }

    open spec fn from_spec(message: Track) -> Self {
        BatchMessage::Track(message)
    }
}

impl From<Page> for BatchMessage {
    fn from(message: Page) -> Self {
        BatchMessage::Page(message)
    }
}

impl vstd::std_specs::convert::FromSpecImpl<Page> for BatchMessage {
    open spec fn obeys_from_spec() -> bool {
        true
    }

    open spec fn from_spec(message: Page) -> Self {
        BatchMessage::Page(message)
    }
}

impl From<Screen> for BatchMessage {
    fn from(message: Screen) -> Self {
        BatchMessage::Screen(message)
    }
}

impl vstd::std_specs::convert::FromSpecImpl<Screen> for BatchMessage {
    open spec fn obeys_from_spec() -> bool {
        true
    }

    open spec fn from_spec(message: Screen) -> Self {
        BatchMessage::Screen(message)
    }
}

impl From<Group> for BatchMessage {
    fn from(message: Group) -> Self {
        BatchMessage::Group(message)
    }
}

impl vstd::std_specs::convert::FromSpecImpl<Group> for BatchMessage {
    open spec fn obeys_from_spec() -> bool {
        true
    }

    open spec fn from_spec(message: Group) -> Self {
        BatchMessage::Group(message)
    }
}

impl From<Alias> for BatchMessage {
    fn from(message: Alias) -> Self {
        BatchMessage::Alias(message)
    }
}

impl vstd::std_specs::convert::FromSpecImpl<Alias> for BatchMessage {
    open spec fn obeys_from_spec() -> bool {
        true
    }

    open spec fn from_spec(message: Alias) -> Self {
        BatchMessage::Alias(message)
    }
}

} // verus!
