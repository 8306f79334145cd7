//! Instants as nanoseconds since the Unix epoch, their RFC 3339 text, and the
//! whole seconds left until an instant.

use vstd::prelude::*;

verus! {

/// The RFC 3339 text that chrono writes for the UTC instant `ns`
/// nanoseconds after the Unix epoch.
pub uninterp spec fn rfc3339_of_nanos(ns: i64) -> Seq<char>;

/// The instant, in nanoseconds since the Unix epoch, that chrono reads from
/// RFC 3339 text, or `None` where the text does not parse or the instant does
/// not fit in an `i64` of nanoseconds.
pub uninterp spec fn nanos_of_rfc3339(text: Seq<char>) -> Option<i64>;

/// Calls `chrono::DateTime::<Utc>::from_timestamp_nanos` and then
/// `DateTime::to_rfc3339` on the instant it gives. The text is named
/// `rfc3339_of_nanos(ns)`; what it looks like is left unsaid. Reading it back
/// gives the same instant: every `i64` of nanoseconds lies in the years
/// 1677 to 2262, which chrono writes with four year digits, all nonzero
/// subsecond digits and the offset `+00:00`, and `parse_from_rfc3339` reads
/// such text (with up to nine subsecond digits) as that instant.
#[verifier::external_body]
pub(crate) fn format_rfc3339(ns: i64) -> (r: String)
    ensures
        r@ == rfc3339_of_nanos(ns),
        nanos_of_rfc3339(r@) == Some(ns),
{
    chrono::DateTime::from_timestamp_nanos(ns).to_rfc3339()
}

/// Calls `chrono::DateTime::parse_from_rfc3339` and
/// `DateTime::timestamp_nanos_opt` on what it parsed. The contract only names
/// the result: it is `nanos_of_rfc3339(text@)`; which texts parse is left
/// unsaid.
#[verifier::external_body]
pub(crate) fn parse_rfc3339(text: &str) -> (r: Option<i64>)
    ensures
        r == nanos_of_rfc3339(text@),
{
    chrono::DateTime::parse_from_rfc3339(text).ok().and_then(|d| d.timestamp_nanos_opt())
}

/// Whole seconds in a span of `ms` milliseconds, truncated toward zero.
pub open spec fn whole_secs(ms: int) -> int {
    if ms >= 0 {
        ms / 1000
    } else {
        -((-ms) / 1000)
    }
}

/// Whole seconds in a span of `ns` nanoseconds, truncated toward zero.
pub open spec fn whole_secs_of_nanos(ns: int) -> int {
    if ns >= 0 {
        ns / 1_000_000_000
    } else {
        -((-ns) / 1_000_000_000)
    }
}

/// A span of whole milliseconds holds as many whole seconds counted in
/// nanoseconds as in milliseconds.
pub proof fn lemma_whole_secs_of_millis(ms: int)
    ensures
        whole_secs_of_nanos(ms * 1_000_000) == whole_secs(ms),
{
    if ms >= 0 {
        assert((ms * 1_000_000) / 1_000_000_000 == ms / 1000) by (nonlinear_arith)
            requires ms >= 0;
    } else {
        assert(((-ms) * 1_000_000) / 1_000_000_000 == (-ms) / 1000) by (nonlinear_arith)
            requires ms < 0;
        assert(-(ms * 1_000_000) == (-ms) * 1_000_000);
    }
}

/// Seconds left until the instant written as `end_time`: 0 when the text does
/// not parse.
pub open spec fn remaining_secs(end_time: Seq<char>, now_ns: i64) -> int {
    match nanos_of_rfc3339(end_time) {
        Some(end_ns) => whole_secs_of_nanos(end_ns - now_ns),
        None => 0,
    }
}

/// Whole seconds from `now_ns` until `end_ns`, negative once it has passed.
pub fn remaining_secs_until(end_ns: i64, now_ns: i64) -> (r: i64)
    ensures
        r == whole_secs_of_nanos(end_ns - now_ns),
{
    let d: i128 = end_ns as i128 - now_ns as i128;
    if d >= 0 {
        (d / 1_000_000_000) as i64
    } else {
        let q: i128 = (0i128 - d) / 1_000_000_000;
        (0i128 - q) as i64
    }
}

/// Seconds left in a session that ends at `end_time` (RFC 3339), seen at `now_ns`.
pub fn calculate_remaining_secs(end_time: &str, now_ns: i64) -> (r: i64)
    ensures
        r == remaining_secs(end_time@, now_ns),
{
    match parse_rfc3339(end_time) {
        Some(end_ns) => remaining_secs_until(end_ns, now_ns),
        None => 0,
    }
}

} // verus!
