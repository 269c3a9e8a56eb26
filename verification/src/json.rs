//! Trusted access to serde_json: opaque JSON values, their encodings, and
//! the entries of JSON object maps.

use vstd::prelude::*;
use crate::errors::Error;

verus! {

/// The JSON encoding of a string: quoted, with serde_json's escaping.
pub uninterp spec fn json_string_bytes(s: Seq<char>) -> Seq<u8>;

/// The JSON encoding of an opaque JSON value.
pub uninterp spec fn json_value_bytes(v: serde_json::Value) -> Seq<u8>;

/// The entries a JSON object map holds, as plain pairs, in the map's
/// iteration order (serde_json's default map is ordered by key).
pub uninterp spec fn map_entries(m: serde_json::Map<String, serde_json::Value>) -> Seq<
    (String, serde_json::Value),
>;

/// Relies on serde_json::to_vec for `&str`: the encoding depends on the
/// characters alone, and it cannot fail — string escaping only writes
/// into a `Vec`, whose writer never errors.
#[verifier::external_body]
pub(crate) fn encode_json_str(s: &str) -> (r: Result<Vec<u8>, Error>)
    ensures
        r is Ok,
        r matches Ok(b) ==> b@ == json_string_bytes(s@),
{
    serde_json::to_vec(s).map_err(|e| Error::DeserializeError(e.to_string()))
}

/// Relies on serde_json::to_vec for `Value`: the encoding depends on the
/// value alone (the default map type keeps its keys ordered), and it
/// cannot fail — every key of a `Value` object is a string and the `Vec`
/// writer never errors.
#[verifier::external_body]
pub(crate) fn encode_json_value(v: &serde_json::Value) -> (r: Result<Vec<u8>, Error>)
    ensures
        r is Ok,
        r matches Ok(b) ==> b@ == json_value_bytes(*v),
{
    serde_json::to_vec(v).map_err(|e| Error::DeserializeError(e.to_string()))
}

/// Relies on serde_json::Map::iter, which yields the entries in ascending
/// key order; each entry is cloned into a plain pair.
#[verifier::external_body]
pub(crate) fn map_entry_list(m: &serde_json::Map<String, serde_json::Value>) -> (r: Vec<
    (String, serde_json::Value),
>)
    ensures
        r@ == map_entries(*m),
{
    m.iter().map(|(k, v)| (k.clone(), v.clone())).collect()
}

/// Relies on serde_json::Map::new: a freshly made map holds no entries.
#[verifier::external_body]
pub(crate) fn empty_json_map() -> (r: serde_json::Map<String, serde_json::Value>)
    ensures
        map_entries(r) == Seq::<(String, serde_json::Value)>::empty(),
{
    serde_json::Map::new()
}

/// A clone of an optional JSON value.
pub(crate) fn clone_opt_value(v: &Option<serde_json::Value>) -> (r: Option<serde_json::Value>)
    ensures
        r == *v,
{
    match v {
        Some(x) => Some(x.clone()),
        None => None,
    }
}

} // verus!
