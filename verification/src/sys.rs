//! The library's only contact with the clock and with identifier generation.
//!
//! Everything here is nondeterministic or depends on the host, so the
//! wrappers promise little; callers state what holds of every outcome.

use vstd::prelude::*;

verus! {

/// The largest timestamp the library works with: the last second of the
/// year 9999, so rendered dates always have four-digit years.
pub const MAX_TIMESTAMP: i64 = 253402300799;

/// The rendering of a timestamp as `YYYY-MM-DD HH:MM:SS` (UTC). Calendar
/// arithmetic is left to the date-time library; the result depends on the
/// timestamp alone.
pub uninterp spec fn timestamp_display_of(ts: int) -> Seq<char>;

/// Relies on `uuid::Uuid::new_v4`: a freshly generated random identifier.
/// Nothing is promised of the result. The call can abort only when the
/// operating system's random source fails — an environmental failure, not
/// one any input can reach.
#[verifier::external_body]
pub fn fresh_id() -> u128 {
    uuid::Uuid::new_v4().as_u128()
}

/// Relies on `chrono::Utc::now` for the current Unix timestamp in seconds.
/// Nothing is promised of the result. The call aborts on a host clock set
/// before the Unix epoch — environmental, not reachable from any input.
#[verifier::external_body]
fn now_seconds() -> i64 {
    chrono::Utc::now().timestamp()
}

/// Relies on `chrono::DateTime::from_timestamp` and `format`: renders a
/// timestamp as `YYYY-MM-DD HH:MM:SS` in UTC. Within the accepted range
/// `from_timestamp` is documented to succeed, and the rendering is a
/// function of the timestamp alone.
#[verifier::external_body]
pub fn format_timestamp(ts: i64) -> (r: String)
    requires
        0 <= ts <= MAX_TIMESTAMP,
    ensures
        r@ == timestamp_display_of(ts as int),
{
    match chrono::DateTime::from_timestamp(ts, 0) {
        Some(d) => d.format("%Y-%m-%d %H:%M:%S").to_string(),
        None => String::new(),
    }
}

/// A value of unspecified origin standing in for entropy; nothing is
/// promised of it.
pub fn random() -> u64 {
    #[verifier::truncate]
    let r = fresh_id() as u64;
    r
}

/// The current time clamped into the range the library's timestamps use.
pub fn current_timestamp() -> (ts: i64)
    ensures
        0 <= ts <= MAX_TIMESTAMP,
{
    let t = now_seconds();
    if t < 0 {
        0
    } else if t > MAX_TIMESTAMP {
        MAX_TIMESTAMP
    } else {
        t
    }
}

} // verus!
