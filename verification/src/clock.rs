//! Today's date: the system clock gives the seconds since 1970 and the
//! `chrono` crate turns them into a calendar date.

use vstd::prelude::*;

verus! {

/// A calendar date.
#[derive(Clone, Copy, Debug, PartialEq, Eq)]
pub struct Today {
    pub year: i64,
    pub month: i64,
    pub day: i64,
}

impl Today {
    /// A month from 1 to 12 and a day from 1 to 31.
    pub open spec fn in_calendar(self) -> bool {
        1 <= self.month <= 12 && 1 <= self.day <= 31
    }
}

/// The calendar date, in UTC, of the moment that many seconds after the
/// start of 1970; `None` for a moment that the calendar of `chrono` does not
/// reach.
pub uninterp spec fn calendar_date(seconds: i64) -> Option<Today>;

/// `SystemTime::now` and `duration_since(UNIX_EPOCH)` of the standard
/// library: the whole seconds since the start of 1970, `None` where the
/// clock stands before it. The number differs from call to call.
#[verifier::external_body]
fn seconds_since_epoch() -> (r: Option<u64>) {
    std::time::SystemTime::now().duration_since(std::time::UNIX_EPOCH).ok().map(|d| d.as_secs())
}

/// `DateTime::from_timestamp` of `chrono`, then `date_naive` and the `year`,
/// `month` and `day` of `Datelike`. The date depends on the seconds alone;
/// chrono documents the ranges of month and day.
#[verifier::external_body]
fn date_of_timestamp(seconds: i64) -> (r: Option<Today>)
    ensures
        r == calendar_date(seconds),
        r matches Some(date) ==> date.in_calendar(),
{
    chrono::DateTime::from_timestamp(seconds, 0).map(|moment| moment.date_naive()).map(
        |date| Today {
            year: i64::from(chrono::Datelike::year(&date)),
            month: i64::from(chrono::Datelike::month(&date)),
            day: i64::from(chrono::Datelike::day(&date)),
        },
    )
}

/// The calendar date, in UTC, of the moment `seconds` after the start of
/// 1970.
pub fn date_at(seconds: i64) -> (r: Option<Today>)
    ensures
        r == calendar_date(seconds),
        r matches Some(date) ==> date.in_calendar(),
{
    date_of_timestamp(seconds)
}

/// Today's date by the system clock, in UTC; `None` where the clock gives
/// no moment that has a date.
pub fn today() -> (r: Option<Today>)
    ensures
        r matches Some(date) ==> date.in_calendar(),
{
    match seconds_since_epoch() {
        Some(seconds) => {
            if seconds <= 0x7fff_ffff_ffff_ffff {
                date_at(seconds as i64)
            } else {
                None
            }
        },
        None => None,
    }
}

} // verus!
