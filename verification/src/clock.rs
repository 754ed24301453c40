//! Wall-clock access for the trading-window check.
//!
//! The clock is an outside dependency: nothing can be promised about the
//! moment it reports beyond the range of an hour number, so the trusted item
//! below states nothing more, and every decision about a point in time is
//! made by verified functions that take the weekday and hour as plain
//! arguments.

use vstd::prelude::*;

verus! {

/// Day of the week.
#[derive(Debug, PartialEq, Eq, Structural, Clone, Copy)]
pub enum Weekday {
    Mon,
    Tue,
    Wed,
    Thu,
    Fri,
    Sat,
    Sun,
}

/// Relies on chrono's `From<SystemTime>` conversion for the current
/// wall-clock instant (unlike `Utc::now`, it handles a pre-epoch clock
/// without panicking), on `chrono::Datelike::weekday` for its day of the week
/// (the conversion tells the calendar crate's weekday variants apart, one arm
/// each), and on `chrono::Timelike::hour`, which returns the hour number from
/// 0 to 23.
#[verifier::external_body]
pub(crate) fn now_weekday_hour() -> (r: (Weekday, u32))
    ensures
        r.1 < 24,
{
    let now: chrono::DateTime<chrono::Utc> = chrono::DateTime::from(std::time::SystemTime::now());
    let weekday = match chrono::Datelike::weekday(&now) {
        chrono::Weekday::Mon => Weekday::Mon,
        chrono::Weekday::Tue => Weekday::Tue,
        chrono::Weekday::Wed => Weekday::Wed,
        chrono::Weekday::Thu => Weekday::Thu,
        chrono::Weekday::Fri => Weekday::Fri,
        chrono::Weekday::Sat => Weekday::Sat,
        chrono::Weekday::Sun => Weekday::Sun,
    };
    (weekday, chrono::Timelike::hour(&now))
}

} // verus!
