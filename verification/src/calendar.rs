//! Calendar time: seconds since the Unix epoch as a date and a time of day
//! in UTC, in the proleptic Gregorian calendar, for the years 0 to 9999.

use crate::decimal::{digit_char, push_nat};
use vstd::prelude::*;
use vstd::string::*;

verus! {

/// Seconds in a day.
pub const DAY_SECONDS: i64 = 86_400;

/// The first second of the year 0, in seconds since the Unix epoch.
pub const FIRST_SECOND: i64 = -62_167_219_200;

/// The last second of the year 9999, in seconds since the Unix epoch.
pub const LAST_SECOND: i64 = 253_402_300_799;

/// The days from the first day of the year 0 to the first day of 1970.
pub const UNIX_DAY: i64 = 719_528;

/// The last year that a timestamp can name.
pub const LAST_YEAR: u64 = 9_999;

/// Whether `year` has a 29th of February.
pub open spec fn is_leap(year: int) -> bool {
    year % 4 == 0 && (year % 100 != 0 || year % 400 == 0)
}

/// The number of days in `year`.
pub open spec fn days_in_year(year: int) -> int {
    if is_leap(year) {
        366
    } else {
        365
    }
}

/// The number of days in the month `month` of `year`, January being 1.
pub open spec fn days_in_month(year: int, month: int) -> int {
    if month == 2 {
        if is_leap(year) {
            29
        } else {
            28
        }
    } else if month == 4 || month == 6 || month == 9 || month == 11 {
        30
    } else {
        31
    }
}

/// The number of days from the first day of the year 0 to the first day of
/// `year`.
pub open spec fn days_before_year(year: int) -> int
    decreases year,
{
    if year <= 0 {
        0
    } else {
        days_before_year(year - 1) + days_in_year(year - 1)
    }
}

/// The number of days of `year` that lie before its month `month`.
pub open spec fn days_before_month(year: int, month: int) -> int
    decreases month,
{
    if month <= 1 {
        0
    } else {
        days_before_month(year, month - 1) + days_in_month(year, month - 1)
    }
}

/// A date and a time of day.
#[derive(Clone, Copy, Debug, PartialEq, Eq, Structural)]
pub struct Civil {
    pub year: u16,
    pub month: u8,
    pub day: u8,
    pub hour: u8,
    pub minute: u8,
    pub second: u8,
}

/// The two decimal digits of a number below 100.
pub open spec fn two_digits(n: int) -> Seq<char> {
    seq![digit_char(n / 10), digit_char(n % 10)]
}

impl Civil {
    /// Whether this is a day of the calendar and a second of that day.
    pub open spec fn valid(self) -> bool {
        &&& self.year <= LAST_YEAR
        &&& 1 <= self.month <= 12
        &&& 1 <= self.day <= days_in_month(self.year as int, self.month as int)
        &&& self.hour < 24
        &&& self.minute < 60
        &&& self.second < 60
    }

    /// The days from the first day of the year 0 to this day.
    pub open spec fn day_number(self) -> int {
        days_before_year(self.year as int) + days_before_month(self.year as int, self.month as int)
            + self.day - 1
    }

    /// The seconds from the start of the day to this second.
    pub open spec fn second_of_day(self) -> int {
        self.hour * 3600 + self.minute * 60 + self.second
    }

    /// The seconds from the Unix epoch to this second.
    pub open spec fn epoch(self) -> int {
        (self.day_number() - UNIX_DAY) * DAY_SECONDS + self.second_of_day()
    }

    /// The fixed form `YYYY-MM-DD HH:MM:SS`.
    pub open spec fn text(self) -> Seq<char> {
        two_digits(self.year as int / 100) + two_digits(self.year as int % 100) + seq!['-'] + two_digits(
            self.month as int,
        ) + seq!['-'] + two_digits(self.day as int) + seq![' '] + two_digits(self.hour as int)
            + seq![':'] + two_digits(self.minute as int) + seq![':'] + two_digits(
            self.second as int,
        )
    }
}

/// The day and second that lie `epoch` seconds from the Unix epoch.
pub open spec fn civil_of(epoch: int) -> Civil {
    choose|c: Civil| c.valid() && c.epoch() == epoch
}

/// The text of a timestamp: the fixed form of its day and second where the
/// year lies between 0 and 9999, and none outside.
pub open spec fn timestamp_text(epoch: int) -> Option<Seq<char>> {
    if FIRST_SECOND <= epoch <= LAST_SECOND {
        Some(civil_of(epoch).text())
    } else {
        None
    }
}

/// The days before a year, counted without going through the years.
pub open spec fn leap_count(year: int) -> int {
    (year + 3) / 4 - (year + 99) / 100 + (year + 399) / 400
}

/// The days before a year are 365 for each year and one more for each leap
/// year among them.
pub proof fn lemma_days_before_year(year: int)
    requires
        0 <= year,
    ensures
        days_before_year(year) == 365 * year + leap_count(year),
    decreases year,
{
    if year > 0 {
        lemma_days_before_year(year - 1);
    }
}

/// Later years start on later days.
pub proof fn lemma_years_ascend(earlier: int, later: int)
    requires
        0 <= earlier <= later,
    ensures
        days_before_year(earlier) <= days_before_year(later),
        earlier < later ==> days_before_year(earlier + 1) <= days_before_year(later),
    decreases later - earlier,
{
    if earlier < later {
        lemma_years_ascend(earlier, later - 1);
    }
}

/// The days before each month of a year, and the length of the year.
pub proof fn lemma_days_before_month(year: int)
    ensures
        days_before_month(year, 1) == 0,
        days_before_month(year, 2) == 31,
        days_before_month(year, 3) == days_in_year(year) - 306,
        days_before_month(year, 4) == days_in_year(year) - 275,
        days_before_month(year, 5) == days_in_year(year) - 245,
        days_before_month(year, 6) == days_in_year(year) - 214,
        days_before_month(year, 7) == days_in_year(year) - 184,
        days_before_month(year, 8) == days_in_year(year) - 153,
        days_before_month(year, 9) == days_in_year(year) - 122,
        days_before_month(year, 10) == days_in_year(year) - 92,
        days_before_month(year, 11) == days_in_year(year) - 61,
        days_before_month(year, 12) == days_in_year(year) - 31,
{
    reveal_with_fuel(days_before_month, 13);
}

/// No two days of the calendar, and no two seconds of one day, lie equally
/// far from the Unix epoch.
pub proof fn lemma_civil_unique(a: Civil, b: Civil)
    requires
        a.valid(),
        b.valid(),
        a.epoch() == b.epoch(),
    ensures
        a == b,
{
    assert(0 <= a.second_of_day() < DAY_SECONDS);
    assert(0 <= b.second_of_day() < DAY_SECONDS);
    assert(a.day_number() == b.day_number());
    assert(a.second_of_day() == b.second_of_day());
    lemma_days_before_month(a.year as int);
    lemma_days_before_month(b.year as int);
    if a.year < b.year {
        lemma_years_ascend(a.year as int, b.year as int);
        assert(false);
    }
    if b.year < a.year {
        lemma_years_ascend(b.year as int, a.year as int);
        assert(false);
    }
    assert(a.month == b.month);
    assert(a.day == b.day);
    assert(a.hour == b.hour);
    assert(a.minute == b.minute);
}

/// The number of days in a year.
fn year_length(year: u64) -> (days: u64)
    requires
        year <= LAST_YEAR,
    ensures
        days == days_in_year(year as int),
{
    if year % 4 == 0 && (year % 100 != 0 || year % 400 == 0) {
        366
    } else {
        365
    }
}

/// The number of days in a month.
fn month_length(year: u64, month: u64) -> (days: u64)
    requires
        year <= LAST_YEAR,
        1 <= month <= 12,
    ensures
        days == days_in_month(year as int, month as int),
{
    if month == 2 {
        if year_length(year) == 366 {
            29
        } else {
            28
        }
    } else if month == 4 || month == 6 || month == 9 || month == 11 {
        30
    } else {
        31
    }
}

/// The number of days before a year.
fn year_start(year: u64) -> (days: u64)
    requires
        year <= LAST_YEAR + 1,
    ensures
        days == days_before_year(year as int),
{
    proof {
        lemma_days_before_year(year as int);
    }
    365 * year + (year + 3) / 4 - (year + 99) / 100 + (year + 399) / 400
}

impl Civil {
    /// The day and second that lie `epoch` seconds from the Unix epoch, if
    /// the year lies between 0 and 9999.
    pub fn from_epoch(epoch: i64) -> (civil: Option<Civil>)
        ensures
            civil.is_some() <==> FIRST_SECOND <= epoch <= LAST_SECOND,
            civil.is_some() ==> civil.unwrap() == civil_of(epoch as int),
            civil.is_some() ==> civil.unwrap().valid() && civil.unwrap().epoch() == epoch,
    {
        if epoch < FIRST_SECOND || epoch > LAST_SECOND {
            return None;
        }
        let shifted: u64 = (epoch - FIRST_SECOND) as u64;
        let days: u64 = shifted / 86_400;
        let seconds: u64 = shifted % 86_400;
        let mut year: u64 = days / 366;
        proof {
            lemma_days_before_year(year as int);
            lemma_days_before_year(LAST_YEAR + 1);
        }
        while year < LAST_YEAR && year_start(year + 1) <= days
            invariant
                year <= LAST_YEAR,
                days_before_year(year as int) <= days,
                days < days_before_year(LAST_YEAR + 1),
            decreases LAST_YEAR - year,
        {
            year = year + 1;
        }
        let mut rest: u64 = days - year_start(year);
        let mut month: u64 = 1;
        proof {
            lemma_days_before_month(year as int);
            assert(days_before_year(year + 1) == days_before_year(year as int) + days_in_year(
                year as int,
            ));
        }
        while month < 12 && rest >= month_length(year, month)
            invariant
                year <= LAST_YEAR,
                1 <= month <= 12,
                days_before_month(year as int, month as int) + rest == days - days_before_year(
                    year as int,
                ),
                days - days_before_year(year as int) < days_in_year(year as int),
            decreases 12 - month,
        {
            rest = rest - month_length(year, month);
            month = month + 1;
        }
        let civil = Civil {
            year: year as u16,
            month: month as u8,
            day: (rest + 1) as u8,
            hour: (seconds / 3600) as u8,
            minute: (seconds % 3600 / 60) as u8,
            second: (seconds % 60) as u8,
        };
        proof {
            assert(civil.valid());
            assert(civil.day_number() == days);
            assert(civil.second_of_day() == seconds);
            assert(civil.epoch() == epoch);
            lemma_civil_unique(civil, civil_of(epoch as int));
        }
        Some(civil)
    }

    /// Appends the two digits of a number below 100 to `out`.
    fn push_two(out: &mut String, n: u64)
        requires
            n < 100,
        ensures
            final(out)@ == old(out)@ + two_digits(n as int),
    {
        push_nat(out, n / 10);
        push_nat(out, n % 10);
        assert(out@ =~= old(out)@ + two_digits(n as int));
    }

    /// Writes the date and time in the fixed form `YYYY-MM-DD HH:MM:SS`.
    pub fn to_text(&self) -> (text: String)
        requires
            self.valid(),
        ensures
            text@ == self.text(),
    {
        proof {
            reveal_strlit("-");
            reveal_strlit(" ");
            reveal_strlit(":");
        }
        let mut out = String::new();
        let year = self.year as u64;
        Civil::push_two(&mut out, year / 100);
        Civil::push_two(&mut out, year % 100);
        out.append("-");
        Civil::push_two(&mut out, self.month as u64);
        out.append("-");
        Civil::push_two(&mut out, self.day as u64);
        out.append(" ");
        Civil::push_two(&mut out, self.hour as u64);
        out.append(":");
        Civil::push_two(&mut out, self.minute as u64);
        out.append(":");
        Civil::push_two(&mut out, self.second as u64);
        assert(out@ =~= self.text());
        out
    }
}

/// Writes a timestamp as text, if its year lies between 0 and 9999.
pub fn format_timestamp(epoch: i64) -> (text: Option<String>)
    ensures
        crate::file::text_view(text) == timestamp_text(epoch as int),
{
    match Civil::from_epoch(epoch) {
        Some(civil) => Some(civil.to_text()),
        None => None,
    }
}

} // verus!
