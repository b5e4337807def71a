use vstd::prelude::*;

verus! {

/// An instant in UTC: whole seconds since the Unix epoch and the
/// nanoseconds past that second.
#[derive(Clone, Copy, PartialEq, Eq, Structural, Debug)]
pub struct Timestamp {
    pub secs: i64,
    pub nanos: u32,
}

/// The JSON text that `serde_json` gives a `chrono::DateTime<Utc>` built
/// from `secs` and `nanos` (RFC 3339, `Z` offset), or `None` where chrono
/// has no such instant.
pub uninterp spec fn rfc3339_text(secs: i64, nanos: u32) -> Option<Seq<char>>;

/// Calls `chrono::Utc::now`. Nothing is claimed of the instant returned.
#[verifier::external_body]
pub(crate) fn utc_now() -> (r: Timestamp) {
    let now = chrono::Utc::now();
    Timestamp { secs: now.timestamp(), nanos: now.timestamp_subsec_nanos() }
}

/// Calls `chrono::DateTime::<Utc>::from_timestamp` and serialises the
/// instant with `serde_json::to_value`, keeping the string it yields. The
/// contract ties the result to [`rfc3339_text`] of the same two numbers.
#[verifier::external_body]
pub(crate) fn timestamp_text(t: Timestamp) -> (r: Option<String>)
    ensures
        match r {
            Some(s) => rfc3339_text(t.secs, t.nanos) == Some(s@),
            None => rfc3339_text(t.secs, t.nanos) is None,
        },
{
    match chrono::DateTime::<chrono::Utc>::from_timestamp(t.secs, t.nanos) {
        Some(instant) => match serde_json::to_value(instant) {
            Ok(serde_json::Value::String(s)) => Some(s),
            _ => None,
        },
        None => None,
    }
}

} // verus!
