//! Calendar dates and their query encoding.
//!
//! A date is held as plain year, month and day values under a calendar
//! validity invariant, and encodes as `dd-mm-yyyy` with two-digit
//! zero-padded day and month and a four-digit year.

use crate::digits::{dec_digit, digit_str};
use vstd::prelude::*;
use vstd::string::*;

verus! {

/// Whether `y` is a leap year in the proleptic Gregorian calendar.
pub open spec fn is_leap_year(y: int) -> bool {
    (y % 4 == 0 && y % 100 != 0) || y % 400 == 0
}

/// The number of days in month `m` of year `y`.
pub open spec fn days_in_month(y: int, m: int) -> int {
    if m == 2 {
        if is_leap_year(y) {
            29
        } else {
            28
        }
    } else if m == 4 || m == 6 || m == 9 || m == 11 {
        30
    } else {
        31
    }
}

/// Whether year, month and day name a calendar date that the encoding
/// supports (the year must fit in four digits).
pub open spec fn date_valid(y: int, m: int, d: int) -> bool {
    &&& 1 <= y <= 9999
    &&& 1 <= m <= 12
    &&& 1 <= d <= days_in_month(y, m)
}

/// The two-digit zero-padded numeral of `n` modulo 100.
pub open spec fn two_digit_chars(n: nat) -> Seq<char> {
    seq![dec_digit(n / 10 % 10), dec_digit(n % 10)]
}

/// The four-digit zero-padded numeral of `n` modulo 10000.
pub open spec fn four_digit_chars(n: nat) -> Seq<char> {
    seq![
        dec_digit(n / 1000 % 10),
        dec_digit(n / 100 % 10),
        dec_digit(n / 10 % 10),
        dec_digit(n % 10),
    ]
}

/// A calendar date, kept valid by construction.
pub struct Date {
    /// Four-digit year.
    pub year: u16,
    /// Month of the year, starting at one.
    pub month: u8,
    /// Day of the month, starting at one.
    pub day: u8,
}

impl Date {
    /// The calendar validity invariant.
    pub open spec fn wf(&self) -> bool {
        date_valid(self.year as int, self.month as int, self.day as int)
    }

    /// The date's query encoding: zero-padded day, month and year,
    /// separated by hyphens.
    pub open spec fn token(&self) -> Seq<char> {
        two_digit_chars(self.day as nat) + seq!['-'] + two_digit_chars(self.month as nat) + seq![
            '-',
        ] + four_digit_chars(self.year as nat)
    }

    /// Builds a date, exactly when the parts name a valid calendar day.
    pub fn new(year: u16, month: u8, day: u8) -> (r: Option<Date>)
        ensures
            r matches Some(d) ==> d.wf() && d.year == year && d.month == month && d.day == day,
            (r is Some) == date_valid(year as int, month as int, day as int),
    {
        if year < 1 || year > 9999 || month < 1 || month > 12 || day < 1 {
            return None;
        }
        let leap = (year % 4 == 0 && year % 100 != 0) || year % 400 == 0;
        let limit: u8 = if month == 2 {
            if leap {
                29
            } else {
                28
            }
        } else if month == 4 || month == 6 || month == 9 || month == 11 {
            30
        } else {
            31
        };
        if day > limit {
            None
        } else {
            Some(Date { year, month, day })
        }
    }

    /// Renders the date as `dd-mm-yyyy`.
    pub fn get_string(&self) -> (r: String)
        requires
            self.wf(),
        ensures
            r@ == self.token(),
    {
        let mut s = String::new();
        s.append(digit_str(((self.day / 10) % 10) as u64));
        s.append(digit_str((self.day % 10) as u64));
        proof {
            reveal_strlit("-");
        }
        s.append("-");
        s.append(digit_str(((self.month / 10) % 10) as u64));
        s.append(digit_str((self.month % 10) as u64));
        s.append("-");
        s.append(digit_str(((self.year / 1000) % 10) as u64));
        s.append(digit_str(((self.year / 100) % 10) as u64));
        s.append(digit_str(((self.year / 10) % 10) as u64));
        s.append(digit_str((self.year % 10) as u64));
        proof {
            assert(s@ =~= self.token());
        }
        s
    }
}

} // verus!
