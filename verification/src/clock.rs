//! Trusted access to the time crate: the current time and RFC 3339
//! rendering of timestamps.

use vstd::prelude::*;

verus! {

/// The RFC 3339 rendering of a timestamp: a function of the timestamp
/// alone.
pub uninterp spec fn rfc3339_chars(t: time::OffsetDateTime) -> Seq<char>;

/// Whether the RFC 3339 format can render the timestamp: a function of
/// the timestamp alone. time's formatter refuses exactly the timestamps
/// whose year lies outside 0..=9999 or whose UTC offset has an hour
/// beyond ±23 or a seconds component.
pub uninterp spec fn rfc3339_formattable(t: time::OffsetDateTime) -> bool;

/// Relies on time::OffsetDateTime::now_utc: the current time, of which
/// nothing is promised. (On a system clock set outside the range the
/// crate can represent, the call itself aborts; no value is returned.)
#[verifier::external_body]
pub(crate) fn now_utc() -> time::OffsetDateTime {
    time::OffsetDateTime::now_utc()
}

/// Relies on time::OffsetDateTime::format with the well-known RFC 3339
/// format: the rendering depends on the timestamp alone, it is refused
/// exactly for the timestamps the format cannot render, and the
/// in-memory writer it fills cannot fail.
#[verifier::external_body]
pub(crate) fn format_rfc3339(t: &time::OffsetDateTime) -> (r: Option<String>)
    ensures
        r is Some <==> rfc3339_formattable(*t),
        r matches Some(s) ==> s@ == rfc3339_chars(*t),
{
    (*t).format(&time::format_description::well_known::Rfc3339).ok()
}

} // verus!
