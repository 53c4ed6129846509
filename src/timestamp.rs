use vstd::prelude::*;
use crate::text::{four_digits, two_digits};

verus! {

/// A calendar date and time of day, to the second, with no time zone.
#[derive(Clone, Copy, Debug, PartialEq, Eq, Structural)]
pub struct Timestamp {
    pub year: i32,
    pub month: u32,
    pub day: u32,
    pub hour: u32,
    pub minute: u32,
    pub second: u32,
}

pub open spec fn is_leap_year(y: int) -> bool {
    (y % 4 == 0 && y % 100 != 0) || y % 400 == 0
}

pub open spec fn days_in_month(y: int, m: int) -> int {
    if m == 2 {
        if is_leap_year(y) { 29 } else { 28 }
    } else if m == 4 || m == 6 || m == 9 || m == 11 {
        30
    } else {
        31
    }
}

impl Timestamp {
    /// An existing date of the years 0 to 9999 and a time of day without a
    /// leap second.
    pub open spec fn is_valid(self) -> bool {
        &&& 0 <= self.year <= 9999
        &&& 1 <= self.month <= 12
        &&& 1 <= self.day <= days_in_month(self.year as int, self.month as int)
        &&& self.hour < 24
        &&& self.minute < 60
        &&& self.second < 60
    }
}

/// `YYYY-MM-DD HH:MM:SS`, every field zero-padded.
pub open spec fn timestamp_text(t: Timestamp) -> Seq<char> {
    four_digits(t.year as nat) + "-"@ + two_digits(t.month as nat) + "-"@ + two_digits(
        t.day as nat,
    ) + " "@ + two_digits(t.hour as nat) + ":"@ + two_digits(t.minute as nat) + ":"@
        + two_digits(t.second as nat)
}

/// Relies on chrono's `NaiveDate::from_ymd_opt`, `NaiveDate::and_hms_opt` and
/// `NaiveDateTime::format`: the two constructors accept every valid timestamp,
/// and `%Y-%m-%d %H:%M:%S` writes a year of 0 to 9999 as four digits and the
/// other fields as two, all zero-padded.
#[verifier::external_body]
pub(crate) fn render_timestamp(t: &Timestamp) -> (r: String)
    ensures
        t.is_valid() ==> r@ == timestamp_text(*t),
{
    let date = chrono::NaiveDate::from_ymd_opt(t.year, t.month, t.day).unwrap_or_default();
    let moment = date.and_hms_opt(t.hour, t.minute, t.second).unwrap_or_default();
    moment.format("%Y-%m-%d %H:%M:%S").to_string()
}

} // verus!
