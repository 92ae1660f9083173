//! Showing a commit time as a local date and time.
use crate::listing::CommitInfo;
use vstd::prelude::*;

verus! {

/// The text shown for a commit time that the date library cannot represent.
pub open spec fn invalid_date() -> Seq<char> {
    "Invalid date"@
}

/// Relies on chrono's `DateTime::from_timestamp(secs, 0)`, which is `None`
/// only for times outside chrono's range of dates (about 262,000 years
/// either side of year 0, so never within 100,000,000,000 seconds of 1970),
/// and on `with_timezone(&Local)` and `format("%Y-%m-%d %H:%M:%S")` to show
/// it. The text depends on the machine's time zone, so nothing is said of it.
/// (chrono panics here only when the system's time-zone data cannot be used.)
#[verifier::external_body]
fn local_time_text(secs: i64) -> (r: Option<String>)
    ensures
        -100_000_000_000 <= secs <= 100_000_000_000 ==> r is Some,
{
    match chrono::DateTime::from_timestamp(secs, 0) {
        Some(t) => Some(t.with_timezone(&chrono::Local).format("%Y-%m-%d %H:%M:%S").to_string()),
        None => None,
    }
}

/// The text shown for a commit time, given what the date library made of
/// it: its local date and time, or "Invalid date" when it had none.
pub fn date_text(shown: Option<String>) -> (r: String)
    ensures
        r@ == match shown {
            Some(t) => t@,
            None => invalid_date(),
        },
{
    match shown {
        Some(t) => t,
        None => String::from_str("Invalid date"),
    }
}

/// The commit's time as a local date and time: `None` when the log gave no
/// readable time, else the date library's local date and time, or "Invalid
/// date" when it cannot represent the time (which it always can within
/// 100,000,000,000 seconds of 1970).
pub fn commit_date(c: &CommitInfo) -> (r: Option<String>)
    ensures
        r is None <==> c.seconds is None,
{
    match c.seconds {
        None => None,
        Some(s) => Some(date_text(local_time_text(s))),
    }
}

} // verus!
