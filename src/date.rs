use vstd::prelude::*;
use vstd::string::*;

use crate::text::{padded_text, u64_padded_text};

verus! {

/// A UTC instant split into calendar fields, as the clock reports it.
#[derive(Clone, Copy, Debug, PartialEq, Eq, Structural)]
pub struct DateTimeParts {
    pub year: u16,
    pub month: u8,
    pub day: u8,
    pub hour: u8,
    pub minute: u8,
    pub second: u8,
    pub millisecond: u16,
}

/// Whether `year` is a leap year of the Gregorian calendar.
pub open spec fn is_leap_year(year: int) -> bool {
    (year % 4 == 0 && year % 100 != 0) || year % 400 == 0
}

/// Number of days of `month` (1 to 12) in `year`.
pub open spec fn days_in_month(year: int, month: int) -> int {
    if month == 2 {
        if is_leap_year(year) {
            29
        } else {
            28
        }
    } else if month == 4 || month == 6 || month == 9 || month == 11 {
        30
    } else {
        31
    }
}

impl DateTimeParts {
    /// A real calendar instant whose year has four digits.
    pub open spec fn is_valid(self) -> bool {
        &&& self.year <= 9999
        &&& 1 <= self.month <= 12
        &&& 1 <= self.day <= days_in_month(self.year as int, self.month as int)
        &&& self.hour < 24
        &&& self.minute < 60
        &&& self.second < 60
        &&& self.millisecond < 1000
    }
}

/// The fixed-width text `YYYYMMDDTHHMMSS.mmmZ` of an instant.
pub open spec fn timestamp_text(t: DateTimeParts) -> Seq<char> {
    padded_text(t.year as nat, 4) + padded_text(t.month as nat, 2) + padded_text(t.day as nat, 2)
        + seq!['T'] + padded_text(t.hour as nat, 2) + padded_text(t.minute as nat, 2)
        + padded_text(t.second as nat, 2) + seq!['.'] + padded_text(t.millisecond as nat, 3)
        + seq!['Z']
}

fn days_in_month_exec(year: u16, month: u8) -> (r: u8)
    requires
        1 <= month <= 12,
    ensures
        r as int == days_in_month(year as int, month as int),
{
    if month == 2 {
        if (year % 4 == 0 && year % 100 != 0) || year % 400 == 0 {
            29
        } else {
            28
        }
    } else if month == 4 || month == 6 || month == 9 || month == 11 {
        30
    } else {
        31
    }
}

/// Formats an instant as `YYYYMMDDTHHMMSS.mmmZ`; `None` when the fields do
/// not name a valid instant with a four-digit year.
pub fn date_as_yyyymmddthhmmssmmmz(t: &DateTimeParts) -> (r: Option<String>)
    ensures
        r is Some <==> t.is_valid(),
        r matches Some(s) ==> s@ == timestamp_text(*t),
{
    if t.year > 9999 || t.month < 1 || t.month > 12 || t.day < 1 || t.day > days_in_month_exec(
        t.year,
        t.month,
    ) || t.hour >= 24 || t.minute >= 60 || t.second >= 60 || t.millisecond >= 1000 {
        return None;
    }
    let t_sep = "T";
    let dot = ".";
    let zulu = "Z";
    proof {
        reveal_strlit("T");
        reveal_strlit(".");
        reveal_strlit("Z");
    }
    let mut s = u64_padded_text(t.year as u64, 4);
    s.append(u64_padded_text(t.month as u64, 2).as_str());
    s.append(u64_padded_text(t.day as u64, 2).as_str());
    s.append(t_sep);
    s.append(u64_padded_text(t.hour as u64, 2).as_str());
    s.append(u64_padded_text(t.minute as u64, 2).as_str());
    s.append(u64_padded_text(t.second as u64, 2).as_str());
    s.append(dot);
    s.append(u64_padded_text(t.millisecond as u64, 3).as_str());
    s.append(zulu);
    Some(s)
}

} // verus!
