//! The expiry date attached to share-link creation requests.
//!
//! A share link expires thirty days after the moment of the request. The
//! caller reads the clock and hands the current Unix time in; the calendar
//! rendering itself is done by the date library.

use vstd::prelude::*;

verus! {

/// The UTC calendar date of the moment `secs` seconds after the Unix
/// epoch, rendered as "YYYY-MM-DD". Named here; computed by chrono.
pub uninterp spec fn iso_date_of(secs: int) -> Seq<char>;

/// Thirty days, in seconds.
pub const THIRTY_DAYS_SECONDS: u64 = 2592000;

/// The last second of year 9999: timestamps up to this bound are safely
/// inside the date library's range.
pub const MAX_DATE_SECONDS: u64 = 253402300799;

/// Relies on chrono's `DateTime::from_timestamp` and `format("%Y-%m-%d")`:
/// the UTC calendar date of a Unix timestamp, a function of the timestamp
/// alone. `from_timestamp` returns `Some` for any timestamp up to year
/// 9999, so the fallback arm is never reached under this `requires`.
#[verifier::external_body]
fn format_unix_date(secs: u64) -> (r: String)
    requires
        secs <= MAX_DATE_SECONDS,
    ensures
        r@ == iso_date_of(secs as int),
{
    match chrono::DateTime::<chrono::Utc>::from_timestamp(secs as i64, 0) {
        Some(date_time) => date_time.format("%Y-%m-%d").to_string(),
        None => String::new(),
    }
}

/// The expiry date for a share link requested now: the calendar date
/// thirty days after `now_secs`, as "YYYY-MM-DD".
pub fn expiry_date(now_secs: u64) -> (r: String)
    requires
        now_secs + THIRTY_DAYS_SECONDS <= MAX_DATE_SECONDS,
    ensures
        r@ == iso_date_of(now_secs + THIRTY_DAYS_SECONDS),
{
    format_unix_date(now_secs + THIRTY_DAYS_SECONDS)
}

} // verus!
