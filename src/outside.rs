//! The calls into chrono and serde_json that the library relies on, each
//! with the contract that it is trusted to meet.
use vstd::prelude::*;
use crate::time::Instant;
use chrono::{DateTime, FixedOffset, SecondsFormat, Utc};

verus! {

/// The moment that chrono reads from an RFC 3339 timestamp text, as seconds
/// and nanoseconds since the Unix epoch in UTC; `None` where chrono refuses
/// the text.
pub uninterp spec fn instant_of_text(s: Seq<char>) -> Option<Instant>;

/// The RFC 3339 text that chrono writes for a moment given as seconds and
/// nanoseconds since the Unix epoch (`Z` for UTC, as many fraction digits as
/// needed); `None` where chrono cannot represent the moment.
pub uninterp spec fn rfc3339_of(secs: i64, nanos: u32) -> Option<Seq<char>>;

/// The text of the JSON string that serde_json finds in the document `text`
/// at the JSON Pointer `pointer` (RFC 6901, such as `/results/sunrise`);
/// `None` where `text` is not one JSON document, nothing stands at
/// `pointer`, or what stands there is no string.
pub uninterp spec fn json_text_at(text: Seq<char>, pointer: Seq<char>) -> Option<Seq<char>>;

/// Relies on serde_json::from_str into a `serde_json::Value`, then on
/// `Value::pointer` and `Value::as_str` to pick the string at `pointer`.
#[verifier::external_body]
pub(crate) fn json_text(text: &str, pointer: &str) -> (r: Option<String>)
    ensures
        r matches Some(s) ==> json_text_at(text@, pointer@) == Some(s@),
        r is None ==> json_text_at(text@, pointer@) is None,
{
    let doc = serde_json::from_str::<serde_json::Value>(text).ok()?;
    doc.pointer(pointer).and_then(|v| v.as_str()).map(|t| t.to_string())
}

/// The JSON string literal, quotes and escapes included, that serde_json
/// writes for the text `s`; `None` where serde_json reports a failure.
pub uninterp spec fn json_string_of(s: Seq<char>) -> Option<Seq<char>>;

/// Relies on serde_json::to_string on a `str`: the text as a JSON string.
#[verifier::external_body]
pub(crate) fn json_string(s: &str) -> (r: Option<String>)
    ensures
        r matches Some(t) ==> json_string_of(s@) == Some(t@),
        r is None ==> json_string_of(s@) is None,
{
    serde_json::to_string(s).ok()
}

/// Relies on chrono's `FromStr` for `DateTime<FixedOffset>` (what serde uses
/// to read a `DateTime<Utc>`), then on `timestamp` and
/// `timestamp_subsec_nanos` to express the moment in UTC.
#[verifier::external_body]
pub(crate) fn parse_instant(s: &str) -> (r: Option<Instant>)
    ensures
        r == instant_of_text(s@),
{
    s.parse::<DateTime<FixedOffset>>().ok().map(
        |d| Instant { secs: d.timestamp(), nanos: d.timestamp_subsec_nanos() },
    )
}

/// Relies on chrono's `DateTime::from_timestamp` (which refuses moments out
/// of its range) and `to_rfc3339_opts(SecondsFormat::AutoSi, true)`, the
/// text that serde writes for a `DateTime<Utc>`.
#[verifier::external_body]
pub(crate) fn format_instant(t: Instant) -> (r: Option<String>)
    ensures
        r matches Some(s) ==> rfc3339_of(t.secs, t.nanos) == Some(s@),
        r is None ==> rfc3339_of(t.secs, t.nanos) is None,
{
    DateTime::from_timestamp(t.secs, t.nanos).map(|d| d.to_rfc3339_opts(SecondsFormat::AutoSi, true))
}

/// Relies on chrono's `Utc::now`: the current moment of the system clock.
/// Nothing is known of which moment that is.
#[verifier::external_body]
pub(crate) fn current_instant() -> (r: Instant) {
    let d = Utc::now();
    Instant { secs: d.timestamp(), nanos: d.timestamp_subsec_nanos() }
}

} // verus!
