//! A calendar date: a year index, a month and a day of the month, convertible
//! to and from the linear timestamp by the calendar's fixed intra-year
//! structure of twelve thirty-day months and a short terminal period.

use vstd::prelude::*;
use vstd::arithmetic::div_mod::lemma_fundamental_div_mod;
use crate::DAYS_PER_DECADE;
use crate::SECONDS_PER_DAY;
use crate::SECONDS_PER_MONTH;
use crate::day::Day;
use crate::day::RegularDay;
use crate::day::SansculottideDay;
use crate::div_euclid_i64;
use crate::months::Month;
use crate::numerals::decimal_string;
use crate::numerals::roman_string;
use crate::numerals::spec_decimal;
use crate::numerals::spec_roman;
use crate::rem_euclid_i64;
use crate::timestamp::Timestamp;
use crate::years::MAX_EXTRAPOLATED_YEAR0;
use crate::years::MAX_SEARCHABLE_TIMESTAMP;
use crate::years::get_year_start0;
use crate::years::lemma_trunc_div_window;
use crate::years::lemma_year_start_near_linear;
use crate::years::lemma_year_step;
use crate::years::spec_displayed_year;
use crate::years::spec_estimate;
use crate::years::spec_republican_year0;
use crate::years::spec_ts_to_year0;
use crate::years::spec_year_start0;
use crate::years::ts_to_year0;

verus! {

/// Seconds from the start of the year containing the instant `ts` to `ts`
/// itself; negative or beyond a year's length only when the year search
/// fell back to its raw estimate.
pub open spec fn spec_seconds_in_year(ts: int) -> int {
    ts - spec_year_start0(spec_ts_to_year0(ts))
}

/// Zero-based month the instant `ts` decomposes to.
pub open spec fn spec_month0_of(ts: int) -> int {
    spec_seconds_in_year(ts) / 3000000
}

/// Seconds from the start of that month to the instant itself.
pub open spec fn spec_seconds_in_month(ts: int) -> int {
    spec_seconds_in_year(ts) % 3000000
}

/// Zero-based day of the month the instant `ts` decomposes to.
pub open spec fn spec_day0_of(ts: int) -> int {
    spec_seconds_in_month(ts) / 100000
}

/// The instant composed from a year index, month and day of month: the
/// year's start plus whole months and whole days.
pub open spec fn spec_date_timestamp(year0: int, month0: int, day0: int) -> int {
    spec_year_start0(year0) + month0 * 3000000 + day0 * 100000
}

/// The year search found the year truly containing `ts` (its raw estimate
/// was within the defensive cutoff).
pub open spec fn in_search_range(ts: int) -> bool {
    -100000 <= spec_estimate(ts) <= 100000
}

/// Zero-based index of the franciade holding a year: a fixed grouping of
/// four consecutive year indices, with indices 0 through 3 in franciade 0.
/// The grouping is positional and ignores which years are sextile.
pub open spec fn spec_franciade0(year0: int) -> int {
    year0 / 4
}

/// The named day of a date with the given month and day of month: a
/// complementary day in the terminal period, a decade day otherwise.
pub open spec fn spec_decade_day(month0: int, day0: int) -> Day {
    if month0 == 12 {
        Day::Sansculottide(SansculottideDay::spec_from_num0(day0 % 10))
    } else {
        Day::Regular(RegularDay::spec_from_num0(day0 % 10))
    }
}

/// The plain rendering of a date: named day, day number, month name and
/// displayed year number, separated by single spaces.
pub open spec fn spec_date_string(year0: int, month0: int, day0: int) -> Seq<char> {
    spec_decade_day(month0, day0).spec_name() + " "@ + spec_decimal(day0 + 1) + " "@
        + Month::spec_from_num0(month0).spec_name() + " "@ + spec_decimal(
        spec_displayed_year(year0),
    )
}

/// The traditional rendering of a date: as the plain rendering, but the
/// displayed year follows the word for "year" as a Roman numeral.
pub open spec fn spec_date_string_traditional(year0: int, month0: int, day0: int) -> Seq<char> {
    spec_decade_day(month0, day0).spec_name() + " "@ + spec_decimal(day0 + 1) + " "@
        + Month::spec_from_num0(month0).spec_name() + " an "@ + spec_roman(
        spec_displayed_year(year0),
    )
}

/// A calendar date: a zero-based year index, a zero-based month (0 through
/// 12, where 12 is the terminal period) and a zero-based day of the month.
#[derive(Debug, Clone, PartialEq, Eq, PartialOrd, Ord, Hash)]
pub struct Date {
    /// Zero-based year index.
    pub year0: i64,
    /// Zero-based month, 0 through 12.
    pub month0: i64,
    /// Zero-based day of the month, 0 through 29.
    pub day0: i64,
}

impl Date {
    /// The date containing the given instant: the year found by the year
    /// search, then whole months and whole days of the remainder.
    pub fn from_timestamp(timestamp: Timestamp) -> (r: Self)
        requires
            -MAX_SEARCHABLE_TIMESTAMP <= timestamp.seconds <= MAX_SEARCHABLE_TIMESTAMP,
        ensures
            r.year0 == spec_ts_to_year0(timestamp.seconds as int),
            r.month0 == spec_month0_of(timestamp.seconds as int),
            r.day0 == spec_day0_of(timestamp.seconds as int),
            0 <= r.day0 <= 29,
            in_search_range(timestamp.seconds as int) ==> 0 <= r.month0 <= 12,
            in_search_range(timestamp.seconds as int) ==> (r.month0 == 12 ==> r.day0 <= 5),
    {
        let year0: i64 = ts_to_year0(timestamp.seconds);
        let year_start: i64 = get_year_start0(year0);
        proof {
            let ts = timestamp.seconds as int;
            if in_search_range(ts) {
                lemma_year_step(year0 as int);
            } else {
                lemma_trunc_div_window(ts, 36525000);
                lemma_year_start_near_linear(year0 as int);
            }
        }
        let seconds_in_year: i64 = timestamp.seconds - year_start;
        let month0: i64 = div_euclid_i64(seconds_in_year, SECONDS_PER_MONTH);
        let seconds_in_month: i64 = rem_euclid_i64(seconds_in_year, SECONDS_PER_MONTH);
        let day0: i64 = div_euclid_i64(seconds_in_month, SECONDS_PER_DAY);
        proof {
            lemma_fundamental_div_mod(seconds_in_year as int, 3000000);
        }
        Date { year0, month0, day0 }
    }

    /// The date with the given displayed year, one-based month and one-based
    /// day of month.  Displayed years skip zero.
    pub fn from_ymd(year: i64, month: i64, day: i64) -> (r: Self)
        requires
            year != 0,
            1 <= month <= 13,
            1 <= day <= 30,
        ensures
            r.year0 == spec_republican_year0(year as int),
            r.month0 == month - 1,
            r.day0 == day - 1,
    {
        let year0: i64 = if year > 0 {
            year - 1
        } else {
            year
        };
        Date { year0, month0: month - 1, day0: day - 1 }
    }

    /// The date with the given zero-based year index, month and day of
    /// month.
    pub fn from_ymd0(year0: i64, month0: i64, day0: i64) -> (r: Self)
        requires
            0 <= month0 <= 12,
            0 <= day0 <= 29,
        ensures
            r.year0 == year0,
            r.month0 == month0,
            r.day0 == day0,
    {
        Date { year0, month0, day0 }
    }

    /// Returns the franciade number starting from 0: years 0 through 3 form
    /// franciade 0, and each following group of four year indices the next.
    /// The grouping is positional; it is not aligned to the sextile years,
    /// so not every franciade is `4 * 365 + 1` days long.
    pub fn franciade0(&self) -> (r: i64)
        ensures
            r == spec_franciade0(self.year0 as int),
    {
        div_euclid_i64(self.year0, 4)
    }

    /// Returns the franciade number starting from 1, with the same skip of
    /// zero as displayed years.
    pub fn franciade(&self) -> (r: i64)
        ensures
            r == spec_displayed_year(spec_franciade0(self.year0 as int)),
    {
        let franciade0: i64 = self.franciade0();
        if franciade0 >= 0 {
            franciade0 + 1
        } else {
            franciade0
        }
    }

    /// Returns the year but starting from 0.
    pub fn year0(&self) -> (r: i64)
        ensures
            r == self.year0,
    {
        self.year0
    }

    /// Returns the year but starting from 1: displayed years skip zero.
    pub fn year(&self) -> (r: i64)
        requires
            self.year0 < i64::MAX,
        ensures
            r == spec_displayed_year(self.year0 as int),
    {
        if self.year0 >= 0 {
            self.year0 + 1
        } else {
            self.year0
        }
    }

    /// Returns the month's number starting from 0.  The terminal period of
    /// complementary days is month 12.
    pub fn num_month0(&self) -> (r: i64)
        ensures
            r == self.month0,
    {
        self.month0
    }

    /// Returns the month's number starting from 1.
    pub fn num_month(&self) -> (r: i64)
        requires
            self.month0 < i64::MAX,
        ensures
            r == self.month0 + 1,
    {
        self.num_month0() + 1
    }

    /// Returns the month.
    pub fn month(&self) -> (r: Month)
        requires
            0 <= self.month0 <= 12,
        ensures
            r == Month::spec_from_num0(self.month0 as int),
    {
        Month::from_num0(self.month0)
    }

    /// Returns the day of the month but starting from 0.
    pub fn day0(&self) -> (r: i64)
        ensures
            r == self.day0,
    {
        self.day0
    }

    /// Returns the day of the month, starting from 1.
    pub fn day(&self) -> (r: i64)
        requires
            self.day0 < i64::MAX,
        ensures
            r == self.day0 + 1,
    {
        self.day0() + 1
    }

    /// Returns the decade within the month, starting from 0.
    pub fn decade0(&self) -> (r: i64)
        ensures
            r == self.day0 as int / 10,
    {
        div_euclid_i64(self.day0, DAYS_PER_DECADE)
    }

    /// Returns the decade within the month, starting from 1.
    pub fn decade(&self) -> (r: i64)
        ensures
            r == self.day0 as int / 10 + 1,
    {
        self.decade0() + 1
    }

    /// Returns the day's position in its decade, starting from 0.
    pub fn num_decade_day0(&self) -> (r: i64)
        ensures
            r == self.day0 as int % 10,
    {
        rem_euclid_i64(self.day0, DAYS_PER_DECADE)
    }

    /// Returns the day's position in its decade, starting from 1.
    pub fn num_decade_day(&self) -> (r: i64)
        ensures
            r == self.day0 as int % 10 + 1,
    {
        self.num_decade_day0() + 1
    }

    /// Returns the named day: a complementary day in the terminal period, a
    /// decade day otherwise.  In the terminal period only positions 0
    /// through 5 name a day.
    pub fn decade_day(&self) -> (r: Day)
        requires
            self.month0 == 12 ==> self.day0 as int % 10 <= 5,
        ensures
            r == spec_decade_day(self.month0 as int, self.day0 as int),
    {
        if self.month0 == 12 {
            Day::Sansculottide(SansculottideDay::from_num0(self.num_decade_day0()))
        } else {
            Day::Regular(RegularDay::from_num0(self.num_decade_day0()))
        }
    }

    /// Returns the instant this date starts at: its year's start plus its
    /// whole months and whole days.
    pub fn timestamp(&self) -> (r: Timestamp)
        requires
            -MAX_EXTRAPOLATED_YEAR0 <= self.year0 <= MAX_EXTRAPOLATED_YEAR0,
            0 <= self.month0 <= 12,
            0 <= self.day0 <= 29,
        ensures
            r.seconds == spec_date_timestamp(
                self.year0 as int,
                self.month0 as int,
                self.day0 as int,
            ),
    {
        proof {
            lemma_year_start_near_linear(self.year0 as int);
        }
        let year_start: i64 = get_year_start0(self.year0);
        Timestamp {
            seconds: year_start + self.month0 * SECONDS_PER_MONTH + self.day0 * SECONDS_PER_DAY,
        }
    }

    /// Returns the date as "named-day day month year".
    pub fn to_string_default(&self) -> (r: String)
        requires
            0 <= self.month0 <= 12,
            0 <= self.day0 <= 29,
            self.month0 == 12 ==> self.day0 as int % 10 <= 5,
            i64::MIN < self.year0 < i64::MAX,
        ensures
            r@ == spec_date_string(self.year0 as int, self.month0 as int, self.day0 as int),
    {
        let mut s: String = self.decade_day().name().to_owned();
        s.append(" ");
        s.append(decimal_string(self.day()).as_str());
        s.append(" ");
        s.append(self.month().name());
        s.append(" ");
        s.append(decimal_string(self.year()).as_str());
        s
    }

    /// Returns the date as "named-day day month an ROMAN-YEAR", the
    /// traditional form; it exists only for positive displayed years.
    pub fn to_string_traditional(&self) -> (r: String)
        requires
            0 <= self.month0 <= 12,
            0 <= self.day0 <= 29,
            self.month0 == 12 ==> self.day0 as int % 10 <= 5,
            0 <= self.year0 < i64::MAX,
        ensures
            r@ == spec_date_string_traditional(
                self.year0 as int,
                self.month0 as int,
                self.day0 as int,
            ),
    {
        let mut s: String = self.decade_day().name().to_owned();
        s.append(" ");
        s.append(decimal_string(self.day()).as_str());
        s.append(" ");
        s.append(self.month().name());
        s.append(" an ");
        s.append(roman_string(self.year()).as_str());
        s
    }
}

} // verus!
