//! The wire format of messages.
//!
//! Every message is one JSON object. An event carries its user's identity
//! fields flattened at the top level, then its typed fields, then the
//! optional timestamp, context and integrations fields, then any extra
//! fields. Inside a batch array each element additionally carries a
//! leading `"type"` discriminator; a batch envelope holds the array under
//! `"batch"`. The encodings of the opaque leaves (JSON strings, JSON
//! values, RFC 3339 timestamps) are serde_json's and time's own, reached
//! through the trusted items in `json` and `clock`.

use vstd::prelude::*;
use vstd::string::StrSliceExecFns;
use vstd::string::StringSliceAdditionalSpecFns;
use crate::clock::format_rfc3339;
use crate::clock::rfc3339_chars;
use crate::clock::rfc3339_formattable;
use crate::errors::Error;
use crate::json::encode_json_str;
use crate::json::encode_json_value;
use crate::json::json_string_bytes;
use crate::json::json_value_bytes;
use crate::json::map_entries;
use crate::json::map_entry_list;
use crate::message::Alias;
use crate::message::Batch;
use crate::message::BatchMessage;
use crate::message::Group;
use crate::message::Identify;
use crate::message::Message;
use crate::message::Page;
use crate::message::Screen;
use crate::message::Track;
use crate::message::User;

verus! {

/// The UTF-8 bytes of a literal piece of the wire format.
pub open spec fn lit(s: &str) -> Seq<u8> {
    s.spec_bytes()
}

/// The identity fields of a user, flattened into the enclosing object.
pub open spec fn user_bytes(u: User) -> Seq<u8> {
    match u {
        User::UserId { user_id } => lit("\"userId\":") + json_string_bytes(user_id@),
        User::AnonymousId { anonymous_id } => lit("\"anonymousId\":") + json_string_bytes(
            anonymous_id@,
        ),
        User::Both { user_id, anonymous_id } => lit("\"userId\":") + json_string_bytes(user_id@)
            + lit(",\"anonymousId\":") + json_string_bytes(anonymous_id@),
    }
}

/// An optional timestamp field, rendered in RFC 3339 form.
pub open spec fn timestamp_bytes(t: Option<time::OffsetDateTime>) -> Seq<u8> {
    match t {
        None => Seq::empty(),
        Some(ts) => lit(",\"timestamp\":") + json_string_bytes(rfc3339_chars(ts)),
    }
}

/// An optional value field introduced by the given literal prefix.
pub open spec fn opt_value_bytes(prefix: &str, v: Option<serde_json::Value>) -> Seq<u8> {
    match v {
        None => Seq::empty(),
        Some(val) => lit(prefix) + json_value_bytes(val),
    }
}

/// Extra fields flattened at the top level, one `,"key":value` each, in
/// the order the map yields them.
pub open spec fn entries_bytes(es: Seq<(String, serde_json::Value)>) -> Seq<u8>
    decreases es.len(),
{
    if es.len() == 0 {
        Seq::empty()
    } else {
        lit(",") + json_string_bytes(es.first().0@) + lit(":") + json_value_bytes(es.first().1)
            + entries_bytes(es.drop_first())
    }
}

/// The shared trailing fields of every event.
pub open spec fn tail_bytes(
    timestamp: Option<time::OffsetDateTime>,
    context: Option<serde_json::Value>,
    integrations: Option<serde_json::Value>,
    extra: serde_json::Map<String, serde_json::Value>,
) -> Seq<u8> {
    timestamp_bytes(timestamp) + opt_value_bytes(",\"context\":", context) + opt_value_bytes(
        ",\"integrations\":",
        integrations,
    ) + entries_bytes(map_entries(extra))
}

/// The fields of an identify event, without the enclosing braces.
pub open spec fn identify_fields(m: Identify) -> Seq<u8> {
    user_bytes(m.user) + lit(",\"traits\":") + json_value_bytes(m.traits) + tail_bytes(
        m.timestamp,
        m.context,
        m.integrations,
        m.extra,
    )
}

/// The fields of a track event, without the enclosing braces.
pub open spec fn track_fields(m: Track) -> Seq<u8> {
    user_bytes(m.user) + lit(",\"event\":") + json_string_bytes(m.event@) + lit(",\"properties\":")
        + json_value_bytes(m.properties) + tail_bytes(
        m.timestamp,
        m.context,
        m.integrations,
        m.extra,
    )
}

/// The fields of a page event, without the enclosing braces.
pub open spec fn page_fields(m: Page) -> Seq<u8> {
    user_bytes(m.user) + lit(",\"name\":") + json_string_bytes(m.name@) + lit(",\"properties\":")
        + json_value_bytes(m.properties) + tail_bytes(
        m.timestamp,
        m.context,
        m.integrations,
        m.extra,
    )
}

/// The fields of a screen event, without the enclosing braces.
pub open spec fn screen_fields(m: Screen) -> Seq<u8> {
    user_bytes(m.user) + lit(",\"name\":") + json_string_bytes(m.name@) + lit(",\"properties\":")
        + json_value_bytes(m.properties) + tail_bytes(
        m.timestamp,
        m.context,
        m.integrations,
        m.extra,
    )
}

/// The fields of a group event, without the enclosing braces.
pub open spec fn group_fields(m: Group) -> Seq<u8> {
    user_bytes(m.user) + lit(",\"groupId\":") + json_string_bytes(m.group_id@) + lit(",\"traits\":")
        + json_value_bytes(m.traits) + tail_bytes(m.timestamp, m.context, m.integrations, m.extra)
}

/// The fields of an alias event, without the enclosing braces.
pub open spec fn alias_fields(m: Alias) -> Seq<u8> {
    user_bytes(m.user) + lit(",\"previousId\":") + json_string_bytes(m.previous_id@) + tail_bytes(
        m.timestamp,
        m.context,
        m.integrations,
        m.extra,
    )
}

/// A batch message as it sits in a batch array: tagged with its kind.
pub open spec fn batch_message_bytes(m: BatchMessage) -> Seq<u8> {
    match m {
        BatchMessage::Identify(i) => lit("{\"type\":\"identify\",") + identify_fields(i) + lit("}"),
        BatchMessage::Track(t) => lit("{\"type\":\"track\",") + track_fields(t) + lit("}"),
        BatchMessage::Page(p) => lit("{\"type\":\"page\",") + page_fields(p) + lit("}"),
        BatchMessage::Screen(s) => lit("{\"type\":\"screen\",") + screen_fields(s) + lit("}"),
        BatchMessage::Group(g) => lit("{\"type\":\"group\",") + group_fields(g) + lit("}"),
        BatchMessage::Alias(a) => lit("{\"type\":\"alias\",") + alias_fields(a) + lit("}"),
    }
}

/// The elements of a batch array after the first, each preceded by a
/// comma.
pub open spec fn batch_rest_bytes(s: Seq<BatchMessage>) -> Seq<u8>
    decreases s.len(),
{
    if s.len() == 0 {
        Seq::empty()
    } else {
        lit(",") + batch_message_bytes(s.first()) + batch_rest_bytes(s.drop_first())
    }
}

/// The elements of a batch array, separated by commas.
pub open spec fn batch_list_bytes(s: Seq<BatchMessage>) -> Seq<u8> {
    if s.len() == 0 {
        Seq::empty()
    } else {
        batch_message_bytes(s.first()) + batch_rest_bytes(s.drop_first())
    }
}

/// The fields of a batch envelope, without the enclosing braces.
pub open spec fn batch_fields(b: Batch) -> Seq<u8> {
    lit("\"batch\":[") + batch_list_bytes(b.batch@) + lit("]") + opt_value_bytes(
        ",\"context\":",
        b.context,
    ) + opt_value_bytes(",\"integrations\":", b.integrations) + entries_bytes(map_entries(b.extra))
}

/// Whether an optional timestamp can be rendered: encoding fails on
/// nothing else, so these predicates say exactly when each encoder
/// succeeds.
pub open spec fn timestamp_encodable(t: Option<time::OffsetDateTime>) -> bool {
    match t {
        None => true,
        Some(ts) => rfc3339_formattable(ts),
    }
}

/// Whether a batch message encodes: true unless its timestamp cannot be
/// rendered.
pub open spec fn batch_message_encodable(m: BatchMessage) -> bool {
    timestamp_encodable(m.spec_timestamp())
}

/// Whether a batch envelope encodes: every element must.
pub open spec fn batch_encodable(b: Batch) -> bool {
    forall|i: int|
        0 <= i < b.batch@.len() ==> batch_message_encodable(#[trigger] b.batch@[i])
}

/// Whether a top-level message encodes.
pub open spec fn message_encodable(m: Message) -> bool {
    match m {
        Message::Identify(x) => timestamp_encodable(x.timestamp),
        Message::Track(x) => timestamp_encodable(x.timestamp),
        Message::Page(x) => timestamp_encodable(x.timestamp),
        Message::Screen(x) => timestamp_encodable(x.timestamp),
        Message::Group(x) => timestamp_encodable(x.timestamp),
        Message::Alias(x) => timestamp_encodable(x.timestamp),
        Message::Batch(b) => batch_encodable(b),
    }
}

/// A top-level message: one JSON object, with no discriminator.
pub open spec fn message_bytes(m: Message) -> Seq<u8> {
    match m {
        Message::Identify(i) => lit("{") + identify_fields(i) + lit("}"),
        Message::Track(t) => lit("{") + track_fields(t) + lit("}"),
        Message::Page(p) => lit("{") + page_fields(p) + lit("}"),
        Message::Screen(s) => lit("{") + screen_fields(s) + lit("}"),
        Message::Group(g) => lit("{") + group_fields(g) + lit("}"),
        Message::Alias(a) => lit("{") + alias_fields(a) + lit("}"),
        Message::Batch(b) => lit("{") + batch_fields(b) + lit("}"),
    }
}

/// Appends a literal piece of the wire format.
fn put_lit(out: &mut Vec<u8>, s: &str)
    ensures
        final(out)@ == old(out)@ + lit(s),
{
    let mut bytes = s.as_bytes_vec();
    out.append(&mut bytes);
}

/// Appends the JSON encoding of a string; never fails.
fn put_json_str(out: &mut Vec<u8>, s: &str) -> (r: Result<(), Error>)
    ensures
        r is Ok,
        final(out)@ == old(out)@ + json_string_bytes(s@),
{
    match encode_json_str(s) {
        Ok(mut bytes) => {
            out.append(&mut bytes);
            Ok(())
        },
        Err(e) => Err(e),
    }
}

/// Appends the JSON encoding of a value; never fails.
fn put_value(out: &mut Vec<u8>, v: &serde_json::Value) -> (r: Result<(), Error>)
    ensures
        r is Ok,
        final(out)@ == old(out)@ + json_value_bytes(*v),
{
    match encode_json_value(v) {
        Ok(mut bytes) => {
            out.append(&mut bytes);
            Ok(())
        },
        Err(e) => Err(e),
    }
}

/// Appends the identity fields of a user; never fails.
fn put_user(out: &mut Vec<u8>, u: &User) -> (r: Result<(), Error>)
    ensures
        r is Ok,
        final(out)@ == old(out)@ + user_bytes(*u),
{
    match u {
        User::UserId { user_id } => {
            put_lit(out, "\"userId\":");
            put_json_str(out, user_id.as_str())
        },
        User::AnonymousId { anonymous_id } => {
            put_lit(out, "\"anonymousId\":");
            put_json_str(out, anonymous_id.as_str())
        },
        User::Both { user_id, anonymous_id } => {
            put_lit(out, "\"userId\":");
            put_json_str(out, user_id.as_str())?;
            put_lit(out, ",\"anonymousId\":");
            put_json_str(out, anonymous_id.as_str())
        },
    }
}

/// Appends the optional timestamp field; fails exactly when the
/// timestamp cannot be rendered.
fn put_timestamp(out: &mut Vec<u8>, t: &Option<time::OffsetDateTime>) -> (r: Result<(), Error>)
    ensures
        r is Ok <==> timestamp_encodable(*t),
        r is Ok ==> final(out)@ == old(out)@ + timestamp_bytes(*t),
        r matches Err(e) ==> e matches Error::DeserializeError(_),
{
    match t {
        None => Ok(()),
        Some(ts) => {
            match format_rfc3339(ts) {
                Some(rendered) => {
                    put_lit(out, ",\"timestamp\":");
                    put_json_str(out, rendered.as_str())
                },
                None => Err(
                    Error::DeserializeError(String::from_str("timestamp out of range")),
                ),
            }
        },
    }
}

/// Appends an optional value field introduced by the given prefix;
/// never fails.
fn put_opt_value(out: &mut Vec<u8>, prefix: &str, v: &Option<serde_json::Value>) -> (r: Result<
    (),
    Error,
>)
    ensures
        r is Ok,
        final(out)@ == old(out)@ + opt_value_bytes(prefix, *v),
{
    match v {
        None => Ok(()),
        Some(val) => {
            put_lit(out, prefix);
            put_value(out, val)
        },
    }
}

/// Appends the extra fields, one `,"key":value` each; never fails.
fn put_entries(out: &mut Vec<u8>, entries: &Vec<(String, serde_json::Value)>) -> (r: Result<
    (),
    Error,
>)
    ensures
        r is Ok,
        final(out)@ == old(out)@ + entries_bytes(entries@),
{
    let n = entries.len();
    proof {
        assert(entries@.skip(0) =~= entries@);
    }
    for i in 0..n
        invariant
            n == entries@.len(),
            out@ + entries_bytes(entries@.skip(i as int)) == old(out)@ + entries_bytes(entries@),
    {
        put_lit(out, ",");
        let entry = &entries[i];
        let res = put_json_str(out, entry.0.as_str());
        match res {
            Ok(()) => (),
            Err(e) => {
                return Err(e);
            },
        }
        put_lit(out, ":");
        let res = put_value(out, &entry.1);
        match res {
            Ok(()) => (),
            Err(e) => {
                return Err(e);
            },
        }
        proof {
            assert(entries@.skip(i as int).drop_first() =~= entries@.skip(i + 1));
        }
    }
    proof {
        assert(entries@.skip(n as int) =~= Seq::<(String, serde_json::Value)>::empty());
    }
    Ok(())
}

/// Appends the shared trailing fields of every event; fails exactly
/// when the timestamp cannot be rendered.
fn put_tail(
    out: &mut Vec<u8>,
    timestamp: &Option<time::OffsetDateTime>,
    context: &Option<serde_json::Value>,
    integrations: &Option<serde_json::Value>,
    extra: &serde_json::Map<String, serde_json::Value>,
) -> (r: Result<(), Error>)
    ensures
        r is Ok <==> timestamp_encodable(*timestamp),
        r is Ok ==> final(out)@ == old(out)@ + tail_bytes(*timestamp, *context, *integrations, *extra),
        r matches Err(e) ==> e matches Error::DeserializeError(_),
{
    put_timestamp(out, timestamp)?;
    put_opt_value(out, ",\"context\":", context)?;
    put_opt_value(out, ",\"integrations\":", integrations)?;
    let entries = map_entry_list(extra);
    put_entries(out, &entries)
}

/// Appends the fields of an identify event.
fn put_identify_fields(out: &mut Vec<u8>, m: &Identify) -> (r: Result<(), Error>)
    ensures
        r is Ok <==> timestamp_encodable(m.timestamp),
        r is Ok ==> final(out)@ == old(out)@ + identify_fields(*m),
        r matches Err(e) ==> e matches Error::DeserializeError(_),
{
    put_user(out, &m.user)?;
    put_lit(out, ",\"traits\":");
    put_value(out, &m.traits)?;
    put_tail(out, &m.timestamp, &m.context, &m.integrations, &m.extra)
}

/// Appends the fields of a track event.
fn put_track_fields(out: &mut Vec<u8>, m: &Track) -> (r: Result<(), Error>)
    ensures
        r is Ok <==> timestamp_encodable(m.timestamp),
        r is Ok ==> final(out)@ == old(out)@ + track_fields(*m),
        r matches Err(e) ==> e matches Error::DeserializeError(_),
{
    put_user(out, &m.user)?;
    put_lit(out, ",\"event\":");
    put_json_str(out, m.event.as_str())?;
    put_lit(out, ",\"properties\":");
    put_value(out, &m.properties)?;
    put_tail(out, &m.timestamp, &m.context, &m.integrations, &m.extra)
}

/// Appends the fields of a page event.
fn put_page_fields(out: &mut Vec<u8>, m: &Page) -> (r: Result<(), Error>)
    ensures
        r is Ok <==> timestamp_encodable(m.timestamp),
        r is Ok ==> final(out)@ == old(out)@ + page_fields(*m),
        r matches Err(e) ==> e matches Error::DeserializeError(_),
{
    put_user(out, &m.user)?;
    put_lit(out, ",\"name\":");
    put_json_str(out, m.name.as_str())?;
    put_lit(out, ",\"properties\":");
    put_value(out, &m.properties)?;
    put_tail(out, &m.timestamp, &m.context, &m.integrations, &m.extra)
}

/// Appends the fields of a screen event.
fn put_screen_fields(out: &mut Vec<u8>, m: &Screen) -> (r: Result<(), Error>)
    ensures
        r is Ok <==> timestamp_encodable(m.timestamp),
        r is Ok ==> final(out)@ == old(out)@ + screen_fields(*m),
        r matches Err(e) ==> e matches Error::DeserializeError(_),
{
    put_user(out, &m.user)?;
    put_lit(out, ",\"name\":");
    put_json_str(out, m.name.as_str())?;
    put_lit(out, ",\"properties\":");
    put_value(out, &m.properties)?;
    put_tail(out, &m.timestamp, &m.context, &m.integrations, &m.extra)
}

/// Appends the fields of a group event.
fn put_group_fields(out: &mut Vec<u8>, m: &Group) -> (r: Result<(), Error>)
    ensures
        r is Ok <==> timestamp_encodable(m.timestamp),
        r is Ok ==> final(out)@ == old(out)@ + group_fields(*m),
        r matches Err(e) ==> e matches Error::DeserializeError(_),
{
    put_user(out, &m.user)?;
    put_lit(out, ",\"groupId\":");
    put_json_str(out, m.group_id.as_str())?;
    put_lit(out, ",\"traits\":");
    put_value(out, &m.traits)?;
    put_tail(out, &m.timestamp, &m.context, &m.integrations, &m.extra)
}

/// Appends the fields of an alias event.
fn put_alias_fields(out: &mut Vec<u8>, m: &Alias) -> (r: Result<(), Error>)
    ensures
        r is Ok <==> timestamp_encodable(m.timestamp),
        r is Ok ==> final(out)@ == old(out)@ + alias_fields(*m),
        r matches Err(e) ==> e matches Error::DeserializeError(_),
{
    put_user(out, &m.user)?;
    put_lit(out, ",\"previousId\":");
    put_json_str(out, m.previous_id.as_str())?;
    put_tail(out, &m.timestamp, &m.context, &m.integrations, &m.extra)
}

/// Encodes one batch-array element, tagged with its kind; succeeds
/// exactly when the message's timestamp (if any) can be rendered.
pub fn encode_batch_message(m: &BatchMessage) -> (r: Result<Vec<u8>, Error>)
    ensures
        r is Ok <==> batch_message_encodable(*m),
        r matches Ok(b) ==> b@ == batch_message_bytes(*m),
        r matches Err(e) ==> e matches Error::DeserializeError(_),
{
    let mut out: Vec<u8> = Vec::new();
    match m {
        BatchMessage::Identify(inner) => {
            put_lit(&mut out, "{\"type\":\"identify\",");
            put_identify_fields(&mut out, inner)?;
        },
        BatchMessage::Track(inner) => {
            put_lit(&mut out, "{\"type\":\"track\",");
            put_track_fields(&mut out, inner)?;
        },
        BatchMessage::Page(inner) => {
            put_lit(&mut out, "{\"type\":\"page\",");
            put_page_fields(&mut out, inner)?;
        },
        BatchMessage::Screen(inner) => {
            put_lit(&mut out, "{\"type\":\"screen\",");
            put_screen_fields(&mut out, inner)?;
        },
        BatchMessage::Group(inner) => {
            put_lit(&mut out, "{\"type\":\"group\",");
            put_group_fields(&mut out, inner)?;
        },
        BatchMessage::Alias(inner) => {
            put_lit(&mut out, "{\"type\":\"alias\",");
            put_alias_fields(&mut out, inner)?;
        },
    }
    put_lit(&mut out, "}");
    Ok(out)
}

/// Appends the fields of a batch envelope; fails exactly when some
/// element's timestamp cannot be rendered.
#[verifier::rlimit(50)]
fn put_batch_fields(out: &mut Vec<u8>, b: &Batch) -> (r: Result<(), Error>)
    ensures
        r is Ok <==> batch_encodable(*b),
        r is Ok ==> final(out)@ == old(out)@ + batch_fields(*b),
        r matches Err(e) ==> e matches Error::DeserializeError(_),
{
    put_lit(out, "\"batch\":[");
    let n = b.batch.len();
    if n > 0 {
        let piece = encode_batch_message(&b.batch[0]);
        match piece {
            Ok(mut bytes) => {
                out.append(&mut bytes);
            },
            Err(e) => {
                proof {
                    assert(!batch_encodable(*b)) by {
                        assert(!batch_message_encodable(b.batch@[0]));
                    }
                }
                return Err(e);
            },
        }
        proof {
            assert(b.batch@.drop_first() =~= b.batch@.skip(1));
        }
        for i in 1..n
            invariant
                n == b.batch@.len(),
                out@ + batch_rest_bytes(b.batch@.skip(i as int)) == old(out)@ + lit("\"batch\":[")
                    + batch_list_bytes(b.batch@),
                forall|j: int|
                    0 <= j < i ==> batch_message_encodable(#[trigger] b.batch@[j]),
        {
            put_lit(out, ",");
            let piece = encode_batch_message(&b.batch[i]);
            match piece {
                Ok(mut bytes) => {
                    out.append(&mut bytes);
                },
                Err(e) => {
                    proof {
                        assert(!batch_encodable(*b)) by {
                            assert(!batch_message_encodable(b.batch@[i as int]));
                        }
                    }
                    return Err(e);
                },
            }
            proof {
                assert(b.batch@.skip(i as int).drop_first() =~= b.batch@.skip(i + 1));
            }
        }
        proof {
            assert(b.batch@.skip(n as int) =~= Seq::<BatchMessage>::empty());
        }
    }
    put_lit(out, "]");
    put_opt_value(out, ",\"context\":", &b.context)?;
    put_opt_value(out, ",\"integrations\":", &b.integrations)?;
    let entries = map_entry_list(&b.extra);
    put_entries(out, &entries)
}

/// Encodes a top-level message into its wire-format JSON bytes;
/// succeeds exactly when every timestamp the message carries can be
/// rendered.
pub fn encode_message(m: &Message) -> (r: Result<Vec<u8>, Error>)
    ensures
        r is Ok <==> message_encodable(*m),
        r matches Ok(b) ==> b@ == message_bytes(*m),
        r matches Err(e) ==> e matches Error::DeserializeError(_),
{
    let mut out: Vec<u8> = Vec::new();
    put_lit(&mut out, "{");
    match m {
        Message::Identify(inner) => {
            put_identify_fields(&mut out, inner)?;
        },
        Message::Track(inner) => {
            put_track_fields(&mut out, inner)?;
        },
        Message::Page(inner) => {
            put_page_fields(&mut out, inner)?;
        },
        Message::Screen(inner) => {
            put_screen_fields(&mut out, inner)?;
        },
        Message::Group(inner) => {
            put_group_fields(&mut out, inner)?;
        },
        Message::Alias(inner) => {
            put_alias_fields(&mut out, inner)?;
        },
        Message::Batch(inner) => {
            put_batch_fields(&mut out, inner)?;
        },
    }
    put_lit(&mut out, "}");
    Ok(out)
}

} // verus!
