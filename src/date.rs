//! Calendar dates of posts, and their ISO text.
use vstd::prelude::*;

verus! {

/// The earliest year that a date of the calendar library can hold.
pub const MIN_YEAR: i32 = -262143;

/// The latest year that a date of the calendar library can hold.
pub const MAX_YEAR: i32 = 262142;

/// Proleptic Gregorian leap years.
pub open spec fn is_leap_year(year: int) -> bool {
    (year % 4 == 0 && year % 100 != 0) || year % 400 == 0
}

pub open spec fn days_in_month(year: int, month: int) -> int {
    if month == 2 {
        if is_leap_year(year) { 29 } else { 28 }
    } else if month == 4 || month == 6 || month == 9 || month == 11 {
        30
    } else {
        31
    }
}

/// A year, month and day that name a day of the calendar, within the years
/// that the calendar library can hold.
pub open spec fn valid_ymd(year: int, month: int, day: int) -> bool {
    MIN_YEAR <= year <= MAX_YEAR && 1 <= month <= 12 && 1 <= day <= days_in_month(year, month)
}

pub open spec fn digit_char(n: int) -> char {
    seq!['0', '1', '2', '3', '4', '5', '6', '7', '8', '9'][n]
}

/// `n` written with exactly `width` decimal digits (the lowest ones).
pub open spec fn padded_digits(n: nat, width: nat) -> Seq<char>
    decreases width,
{
    if width == 0 {
        seq![]
    } else {
        padded_digits(n / 10, (width - 1) as nat).push(digit_char(n as int % 10))
    }
}

/// `YYYY-MM-DD`, the text of a date whose year has four digits.
pub open spec fn iso_date(year: int, month: int, day: int) -> Seq<char> {
    padded_digits(year as nat, 4) + seq!['-'] + padded_digits(month as nat, 2) + seq!['-']
        + padded_digits(day as nat, 2)
}

/// What the calendar library prints for a date.
pub uninterp spec fn date_text_of(year: int, month: int, day: int) -> Seq<char>;

/// Relies on chrono's `NaiveDate::from_ymd_opt`, which gives a date exactly for
/// the valid days of its year range, and on `NaiveDate`'s `Display`, which is
/// `%Y-%m-%d`: four digits of year for the years 0 to 9999.
#[verifier::external_body]
fn chrono_date_text(year: i32, month: u32, day: u32) -> (r: Option<String>)
    ensures
        r is Some <==> valid_ymd(year as int, month as int, day as int),
        r matches Some(t) ==> t@ == date_text_of(year as int, month as int, day as int),
        r matches Some(t) ==> (0 <= year <= 9999 ==> t@ == iso_date(
            year as int,
            month as int,
            day as int,
        )),
{
    chrono::NaiveDate::from_ymd_opt(year, month, day).map(|d| d.to_string())
}

/// A day of the proleptic Gregorian calendar.
#[derive(Clone, Copy, Debug, PartialEq, Eq)]
pub struct Date {
    year: i32,
    month: u32,
    day: u32,
}

impl View for Date {
    type V = (int, int, int);

    closed spec fn view(&self) -> (int, int, int) {
        (self.year as int, self.month as int, self.day as int)
    }
}

impl Date {
    #[verifier::type_invariant]
    spec fn inv(&self) -> bool {
        valid_ymd(self.year as int, self.month as int, self.day as int)
    }

    /// The date's text as the calendar library prints it.
    pub open spec fn spec_text(&self) -> Seq<char> {
        date_text_of(self@.0, self@.1, self@.2)
    }

    /// The date of the given year, month and day, if that day exists.
    pub fn new(year: i32, month: u32, day: u32) -> (r: Option<Date>)
        ensures
            r is Some <==> valid_ymd(year as int, month as int, day as int),
            r matches Some(d) ==> d@ == (year as int, month as int, day as int),
    {
        if year < MIN_YEAR || year > MAX_YEAR || month < 1 || month > 12 || day < 1 {
            return None;
        }
        let y: i64 = year as i64 + 400000;
        assert(y % 4 == (year as int) % 4 && y % 100 == (year as int) % 100 && y % 400 == (year as int) % 400) by (nonlinear_arith)
            requires y == year as int + 400000;
        let leap = (y % 4 == 0 && y % 100 != 0) || y % 400 == 0;
        let last: u32 = if month == 2 {
            if leap { 29 } else { 28 }
        } else if month == 4 || month == 6 || month == 9 || month == 11 {
            30
        } else {
            31
        };
        if day > last {
            None
        } else {
            Some(Date { year, month, day })
        }
    }

    pub fn year(&self) -> (r: i32)
        ensures
            r as int == self@.0,
    {
        self.year
    }

    pub fn month(&self) -> (r: u32)
        ensures
            r as int == self@.1,
    {
        self.month
    }

    pub fn day(&self) -> (r: u32)
        ensures
            r as int == self@.2,
    {
        self.day
    }

    /// The date as text: `YYYY-MM-DD` for the years 0 to 9999.
    pub fn text(&self) -> (r: String)
        ensures
            r@ == self.spec_text(),
            0 <= self@.0 <= 9999 ==> r@ == iso_date(self@.0, self@.1, self@.2),
    {
        proof {
            use_type_invariant(self);
        }
        match chrono_date_text(self.year, self.month, self.day) {
            Some(t) => t,
            None => String::new(),
        }
    }
}

} // verus!
