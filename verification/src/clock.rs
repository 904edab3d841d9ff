//! Wall-clock readings, and timestamp text through chrono.

use vstd::prelude::*;

verus! {

/// The RFC 3339 text that chrono renders for the UTC instant `nanos`
/// nanoseconds after the Unix epoch. The text depends on the instant
/// alone (the offset is always UTC), so it carries a name rather than a
/// page of calendar arithmetic.
pub uninterp spec fn rfc3339_of(nanos: i64) -> Seq<char>;

/// Relies on std's `SystemTime::now`: the current wall clock as
/// nanoseconds since the Unix epoch, or `None` when the clock reads
/// before the epoch or past what an `i64` holds. Nothing can be
/// promised of a clock reading.
#[verifier::external_body]
pub(crate) fn now_nanos_opt() -> (r: Option<i64>) {
    match std::time::SystemTime::now().duration_since(std::time::UNIX_EPOCH) {
        Ok(since_epoch) => i64::try_from(since_epoch.as_nanos()).ok(),
        Err(_) => None,
    }
}

/// The current wall-clock time in nanoseconds since the Unix epoch, or
/// zero when the clock reading is before the epoch or does not fit.
pub fn now_nanos() -> i64 {
    match now_nanos_opt() {
        Some(n) => n,
        None => 0,
    }
}

/// Relies on chrono's `DateTime::from_timestamp_nanos` (total on all of
/// `i64`) and `DateTime::<Utc>::to_rfc3339`: renders the instant as RFC
/// 3339 text.
#[verifier::external_body]
pub(crate) fn format_rfc3339(nanos: i64) -> (r: String)
    ensures
        r@ == rfc3339_of(nanos),
{
    chrono::DateTime::<chrono::Utc>::from_timestamp_nanos(nanos).to_rfc3339()
}

} // verus!
