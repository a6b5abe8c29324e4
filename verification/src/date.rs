//! Calendar dates, validated at construction and rendered as `YYYY-MM-DD`.

use vstd::prelude::*;
use crate::error::{Field, ValidationError};
use crate::num::{pad2_rep, pad4_rep, push_pad2, push_pad4};

verus! {

/// Whether `y` is a leap year in the proleptic Gregorian calendar.
pub open spec fn leap_year(y: nat) -> bool {
    (y % 4 == 0 && y % 100 != 0) || y % 400 == 0
}

/// The number of days in month `m` of year `y` (for `1 <= m <= 12`).
pub open spec fn days_in_month(y: nat, m: nat) -> nat {
    if m == 2 {
        if leap_year(y) {
            29
        } else {
            28
        }
    } else if m == 4 || m == 6 || m == 9 || m == 11 {
        30
    } else {
        31
    }
}

/// A valid calendar date with a four-digit year.
pub open spec fn valid_date(y: nat, m: nat, d: nat) -> bool {
    1 <= y <= 9999 && 1 <= m <= 12 && 1 <= d <= days_in_month(y, m)
}

/// A calendar date.  Values are valid by construction: `Date::from_ymd` is
/// the only way to obtain one, so every `Date` in existence satisfies
/// `valid_date`.
#[derive(Clone, Copy, Debug, PartialEq, Eq, Structural)]
pub struct Date {
    year: u32,
    month: u32,
    day: u32,
}

impl Date {
    /// The date's validity; maintained as a type invariant.
    #[verifier::type_invariant]
    pub closed spec fn wf(self) -> bool {
        valid_date(self.year as nat, self.month as nat, self.day as nat)
    }

    pub closed spec fn year_spec(self) -> u32 {
        self.year
    }

    pub closed spec fn month_spec(self) -> u32 {
        self.month
    }

    pub closed spec fn day_spec(self) -> u32 {
        self.day
    }

    /// Builds a date, rejecting anything outside the calendar: the year must
    /// have at most four digits, month and day must exist in that year.
    pub fn from_ymd(year: u32, month: u32, day: u32) -> (r: Option<Date>)
        ensures
            r is Some <==> valid_date(year as nat, month as nat, day as nat),
            r matches Some(d) ==> d.year_spec() == year && d.month_spec() == month
                && d.day_spec() == day,
    {
        if year < 1 || year > 9999 || month < 1 || month > 12 {
            return None;
        }
        let leap: bool = (year % 4 == 0 && year % 100 != 0) || year % 400 == 0;
        let max_day: u32 = if month == 2 {
            if leap {
                29
            } else {
                28
            }
        } else if month == 4 || month == 6 || month == 9 || month == 11 {
            30
        } else {
            31
        };
        if day < 1 || day > max_day {
            return None;
        }
        Some(Date { year, month, day })
    }

    /// `from_ymd` under a schema role: the same validation, but a failure
    /// reports the given field, so a caller can tell a bad issue date from
    /// a bad period bound even though the format is identical.
    pub fn validated(year: u32, month: u32, day: u32, field: Field) -> (r: Result<
        Date,
        ValidationError,
    >)
        ensures
            r is Ok <==> valid_date(year as nat, month as nat, day as nat),
            r matches Ok(d) ==> d.year_spec() == year && d.month_spec() == month
                && d.day_spec() == day,
            r matches Err(e) ==> e == ValidationError::Scalar(field),
    {
        match Date::from_ymd(year, month, day) {
            Option::Some(d) => Ok(d),
            Option::None => Err(ValidationError::Scalar(field)),
        }
    }

    pub fn year(&self) -> (y: u32)
        ensures
            y == self.year_spec(),
    {
        self.year
    }

    pub fn month(&self) -> (m: u32)
        ensures
            m == self.month_spec(),
    {
        self.month
    }

    pub fn day(&self) -> (d: u32)
        ensures
            d == self.day_spec(),
    {
        self.day
    }

}

/// Calendar order on dates: year, then month, then day.
pub open spec fn date_le(a: Date, b: Date) -> bool {
    if a.year_spec() != b.year_spec() {
        a.year_spec() < b.year_spec()
    } else if a.month_spec() != b.month_spec() {
        a.month_spec() < b.month_spec()
    } else {
        a.day_spec() <= b.day_spec()
    }
}

/// Decides `date_le`.
pub fn check_date_le(a: &Date, b: &Date) -> (r: bool)
    ensures
        r == date_le(*a, *b),
{
    if a.year != b.year {
        a.year < b.year
    } else if a.month != b.month {
        a.month < b.month
    } else {
        a.day <= b.day
    }
}

/// The `YYYY-MM-DD` rendering of a date.
pub open spec fn date_rep(d: Date) -> Seq<char> {
    pad4_rep(d.year_spec() as nat) + seq!['-'] + pad2_rep(d.month_spec() as nat) + seq!['-']
        + pad2_rep(d.day_spec() as nat)
}

/// Appends the `YYYY-MM-DD` rendering of `d` to `out`.
pub fn push_date(out: &mut String, d: &Date)
    ensures
        final(out)@ == old(out)@ + date_rep(*d),
{
    proof {
        use_type_invariant(*d);
    }
    let y64: u64 = d.year as u64;
    let m64: u64 = d.month as u64;
    let d64: u64 = d.day as u64;
    push_pad4(out, y64);
    out.append("-");
    push_pad2(out, m64);
    out.append("-");
    push_pad2(out, d64);
    proof {
        reveal_strlit("-");
        assert(old(out)@ + pad4_rep(d.year_spec() as nat) + "-"@ + pad2_rep(d.month_spec() as nat)
            + "-"@ + pad2_rep(d.day_spec() as nat) =~= old(out)@ + date_rep(*d));
    }
}

} // verus!
