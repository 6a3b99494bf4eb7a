//! A calendar date and time of day: the date fields plus the decimal clock
//! of 10 hours of 100 minutes of 100 seconds, convertible to and from the
//! linear timestamp, with the round trip proven exact.

use vstd::prelude::*;
use vstd::arithmetic::div_mod::lemma_fundamental_div_mod;
use vstd::arithmetic::div_mod::lemma_fundamental_div_mod_converse;
use crate::DAYS_PER_DECADE;
use crate::SECONDS_PER_DAY;
use crate::SECONDS_PER_MONTH;
use crate::date::in_search_range;
use crate::date::spec_date_string;
use crate::date::spec_date_string_traditional;
use crate::date::spec_day0_of;
use crate::date::spec_decade_day;
use crate::date::spec_franciade0;
use crate::date::spec_month0_of;
use crate::date::spec_seconds_in_month;
use crate::date::spec_seconds_in_year;
use crate::day::Day;
use crate::day::RegularDay;
use crate::day::SansculottideDay;
use crate::div_euclid_i64;
use crate::months::Month;
use crate::numerals::decimal_string;
use crate::numerals::roman_string;
use crate::rem_euclid_i64;
use crate::timestamp::Timestamp;
use crate::years::MAX_EXTRAPOLATED_YEAR0;
use crate::years::MAX_SEARCHABLE_TIMESTAMP;
use crate::years::get_year_start0;
use crate::years::lemma_containing_unique;
use crate::years::lemma_trunc_div_window;
use crate::years::lemma_year_start_near_linear;
use crate::years::lemma_year_step;
use crate::years::spec_day_count0;
use crate::years::spec_estimate;
use crate::years::year_contains;
use crate::years::spec_displayed_year;
use crate::years::spec_republican_year0;
use crate::years::spec_ts_to_year0;
use crate::years::spec_year_start0;
use crate::years::ts_to_year0;

verus! {

/// Seconds from the start of the day containing the instant `ts` to `ts`
/// itself, always in `[0, 100000)`.
pub open spec fn spec_seconds_in_day(ts: int) -> int {
    spec_seconds_in_month(ts) % 100000
}

/// Hour of the decimal clock the instant `ts` decomposes to.
pub open spec fn spec_hour_of(ts: int) -> int {
    spec_seconds_in_day(ts) / 10000
}

/// Seconds from the start of that hour to the instant itself.
pub open spec fn spec_seconds_in_hour(ts: int) -> int {
    spec_seconds_in_day(ts) % 10000
}

/// Minute of the decimal clock the instant `ts` decomposes to.
pub open spec fn spec_minute_of(ts: int) -> int {
    spec_seconds_in_hour(ts) / 100
}

/// Second of the decimal clock the instant `ts` decomposes to.
pub open spec fn spec_second_of(ts: int) -> int {
    spec_seconds_in_hour(ts) % 100
}

/// The instant composed from full calendar fields: the year's start plus
/// whole months, days, hours, minutes and seconds.
pub open spec fn spec_datetime_timestamp(
    year0: int,
    month0: int,
    day0: int,
    hour: int,
    minute: int,
    second: int,
) -> int {
    spec_year_start0(year0) + month0 * 3000000 + day0 * 100000 + hour * 10000 + minute * 100
        + second
}

/// Round trip: composing the fields any instant decomposes to yields that
/// same instant, for every timestamp, including those beyond the year
/// search's defensive cutoff.
pub proof fn lemma_round_trip(ts: int)
    ensures
        spec_datetime_timestamp(
            spec_ts_to_year0(ts),
            spec_month0_of(ts),
            spec_day0_of(ts),
            spec_hour_of(ts),
            spec_minute_of(ts),
            spec_second_of(ts),
        ) == ts,
{
    lemma_fundamental_div_mod(spec_seconds_in_year(ts), 3000000);
    lemma_fundamental_div_mod(spec_seconds_in_month(ts), 100000);
    lemma_fundamental_div_mod(spec_seconds_in_day(ts), 10000);
    lemma_fundamental_div_mod(spec_seconds_in_hour(ts), 100);
}

/// Field-set round trip: decomposing the instant composed from any valid
/// field set yields that same field set, for every year in a broad range
/// around the tabulated span.  In the terminal period (month 12) only the
/// days the year really has, five or six by its length, are valid.
pub proof fn lemma_field_round_trip(
    year0: int,
    month0: int,
    day0: int,
    hour: int,
    minute: int,
    second: int,
)
    requires
        -99000 <= year0 <= 99000,
        0 <= month0 <= 12,
        0 <= day0 <= 29,
        month0 == 12 ==> day0 < spec_day_count0(year0) - 360,
        0 <= hour <= 9,
        0 <= minute <= 99,
        0 <= second <= 99,
    ensures
        ({
            let ts = spec_datetime_timestamp(year0, month0, day0, hour, minute, second);
            &&& spec_ts_to_year0(ts) == year0
            &&& spec_month0_of(ts) == month0
            &&& spec_day0_of(ts) == day0
            &&& spec_hour_of(ts) == hour
            &&& spec_minute_of(ts) == minute
            &&& spec_second_of(ts) == second
        }),
{
    let ts = spec_datetime_timestamp(year0, month0, day0, hour, minute, second);
    let in_hour = minute * 100 + second;
    let in_day = hour * 10000 + in_hour;
    let in_month = day0 * 100000 + in_day;
    let in_year = month0 * 3000000 + in_month;
    lemma_year_step(year0);
    assert(year_contains(year0, ts));
    lemma_year_start_near_linear(year0);
    lemma_trunc_div_window(ts, 36525000);
    assert(-100000 <= spec_estimate(ts) <= 100000);
    lemma_containing_unique(ts, year0, choose|y: int| year_contains(y, ts));
    assert(spec_seconds_in_year(ts) == in_year);
    lemma_fundamental_div_mod_converse(in_year, 3000000, month0, in_month);
    lemma_fundamental_div_mod_converse(in_month, 100000, day0, in_day);
    lemma_fundamental_div_mod_converse(in_day, 10000, hour, in_hour);
    lemma_fundamental_div_mod_converse(in_hour, 100, minute, second);
}

/// A calendar date and time of day.
#[derive(Debug, Clone, PartialEq, Eq, PartialOrd, Ord, Hash)]
pub struct DateTime {
    /// Zero-based year index.
    pub year0: i64,
    /// Zero-based month, 0 through 12.
    pub month0: i64,
    /// Zero-based day of the month, 0 through 29.
    pub day0: i64,
    /// Hour of the decimal clock, 0 through 9.
    pub hour: i64,
    /// Minute of the decimal clock, 0 through 99.
    pub minute: i64,
    /// Second of the decimal clock, 0 through 99.
    pub second: i64,
}

impl DateTime {
    /// The date and time containing the given instant: the year found by
    /// the year search, then whole months, days, hours, minutes and
    /// seconds of the remainder.
    pub fn from_timestamp(timestamp: Timestamp) -> (r: Self)
        requires
            -MAX_SEARCHABLE_TIMESTAMP <= timestamp.seconds <= MAX_SEARCHABLE_TIMESTAMP,
        ensures
            r.year0 == spec_ts_to_year0(timestamp.seconds as int),
            r.month0 == spec_month0_of(timestamp.seconds as int),
            r.day0 == spec_day0_of(timestamp.seconds as int),
            r.hour == spec_hour_of(timestamp.seconds as int),
            r.minute == spec_minute_of(timestamp.seconds as int),
            r.second == spec_second_of(timestamp.seconds as int),
            0 <= r.day0 <= 29,
            0 <= r.hour <= 9,
            0 <= r.minute <= 99,
            0 <= r.second <= 99,
            in_search_range(timestamp.seconds as int) ==> 0 <= r.month0 <= 12,
            in_search_range(timestamp.seconds as int) ==> (r.month0 == 12 ==> r.day0 <= 5),
    {
        let year0: i64 = ts_to_year0(timestamp.seconds);
        let year_start: i64 = get_year_start0(year0);
        proof {
            let ts = timestamp.seconds as int;
            if in_search_range(ts) {
                lemma_year_step(year0 as int);
            } else {
                lemma_trunc_div_window(ts, 36525000);
                lemma_year_start_near_linear(year0 as int);
            }
        }
        let seconds_in_year: i64 = timestamp.seconds - year_start;
        let month0: i64 = div_euclid_i64(seconds_in_year, SECONDS_PER_MONTH);
        let seconds_in_month: i64 = rem_euclid_i64(seconds_in_year, SECONDS_PER_MONTH);
        let day0: i64 = div_euclid_i64(seconds_in_month, SECONDS_PER_DAY);
        let seconds_in_day: i64 = rem_euclid_i64(seconds_in_month, SECONDS_PER_DAY);
        let hour: i64 = div_euclid_i64(seconds_in_day, 10000);
        let seconds_in_hour: i64 = rem_euclid_i64(seconds_in_day, 10000);
        let minute: i64 = div_euclid_i64(seconds_in_hour, 100);
        let second: i64 = rem_euclid_i64(seconds_in_hour, 100);
        proof {
            lemma_fundamental_div_mod(seconds_in_year as int, 3000000);
        }
        DateTime { year0, month0, day0, hour, minute, second }
    }

    /// The date and time with the given displayed year, one-based month and
    /// day of month, and decimal-clock time of day.
    pub fn from_ymd_hms(year: i64, month: i64, day: i64, hour: i64, minute: i64, second: i64) -> (r:
        Self)
        requires
            year != 0,
            1 <= month <= 13,
            1 <= day <= 30,
            0 <= hour <= 9,
            0 <= minute <= 99,
            0 <= second <= 99,
        ensures
            r.year0 == spec_republican_year0(year as int),
            r.month0 == month - 1,
            r.day0 == day - 1,
            r.hour == hour,
            r.minute == minute,
            r.second == second,
    {
        let year0: i64 = if year > 0 {
            year - 1
        } else {
            year
        };
        DateTime { year0, month0: month - 1, day0: day - 1, hour, minute, second }
    }

    /// The date and time with the given zero-based year index, month and
    /// day of month, and decimal-clock time of day.
    pub fn from_ymd_hms0(
        year0: i64,
        month0: i64,
        day0: i64,
        hour: i64,
        minute: i64,
        second: i64,
    ) -> (r: Self)
        requires
            0 <= month0 <= 12,
            0 <= day0 <= 29,
            0 <= hour <= 9,
            0 <= minute <= 99,
            0 <= second <= 99,
        ensures
            r.year0 == year0,
            r.month0 == month0,
            r.day0 == day0,
            r.hour == hour,
            r.minute == minute,
            r.second == second,
    {
        DateTime { year0, month0, day0, hour, minute, second }
    }

    /// The start of the given day: displayed year, one-based month and day
    /// of month, at the first instant of the day.
    pub fn from_ymd(year: i64, month: i64, day: i64) -> (r: Self)
        requires
            year != 0,
            1 <= month <= 13,
            1 <= day <= 30,
        ensures
            r.year0 == spec_republican_year0(year as int),
            r.month0 == month - 1,
            r.day0 == day - 1,
            r.hour == 0,
            r.minute == 0,
            r.second == 0,
    {
        DateTime::from_ymd_hms(year, month, day, 0, 0, 0)
    }

    /// The start of the given day: zero-based year index, month and day of
    /// month, at the first instant of the day.
    pub fn from_ymd0(year0: i64, month0: i64, day0: i64) -> (r: Self)
        requires
            0 <= month0 <= 12,
            0 <= day0 <= 29,
        ensures
            r.year0 == year0,
            r.month0 == month0,
            r.day0 == day0,
            r.hour == 0,
            r.minute == 0,
            r.second == 0,
    {
        DateTime::from_ymd_hms0(year0, month0, day0, 0, 0, 0)
    }

    /// Returns the franciade number starting from 0: years 0 through 3 form
    /// franciade 0, and each following group of four year indices the next.
    /// The grouping is positional; it is not aligned to the sextile years,
    /// so not every franciade is `4 * 365 + 1` days long.
    pub fn franciade0(&self) -> (r: i64)
        ensures
            r == spec_franciade0(self.year0 as int),
    {
        div_euclid_i64(self.year0, 4)
    }

    /// Returns the franciade number starting from 1, with the same skip of
    /// zero as displayed years.
    pub fn franciade(&self) -> (r: i64)
        ensures
            r == spec_displayed_year(spec_franciade0(self.year0 as int)),
    {
        let franciade0: i64 = self.franciade0();
        if franciade0 >= 0 {
            franciade0 + 1
        } else {
            franciade0
        }
    }

    /// Returns the year but starting from 0.
    pub fn year0(&self) -> (r: i64)
        ensures
            r == self.year0,
    {
        self.year0
    }

    /// Returns the year but starting from 1: displayed years skip zero.
    pub fn year(&self) -> (r: i64)
        requires
            self.year0 < i64::MAX,
        ensures
            r == spec_displayed_year(self.year0 as int),
    {
        if self.year0 >= 0 {
            self.year0 + 1
        } else {
            self.year0
        }
    }

    /// Returns the month's number starting from 0.  The terminal period of
    /// complementary days is month 12.
    pub fn num_month0(&self) -> (r: i64)
        ensures
            r == self.month0,
    {
        self.month0
    }

    /// Returns the month's number starting from 1.
    pub fn num_month(&self) -> (r: i64)
        requires
            self.month0 < i64::MAX,
        ensures
            r == self.month0 + 1,
    {
        self.num_month0() + 1
    }

    /// Returns the month.
    pub fn month(&self) -> (r: Month)
        requires
            0 <= self.month0 <= 12,
        ensures
            r == Month::spec_from_num0(self.month0 as int),
    {
        Month::from_num0(self.month0)
    }

    /// Returns the day of the month but starting from 0.
    pub fn day0(&self) -> (r: i64)
        ensures
            r == self.day0,
    {
        self.day0
    }

    /// Returns the day of the month, starting from 1.
    pub fn day(&self) -> (r: i64)
        requires
            self.day0 < i64::MAX,
        ensures
            r == self.day0 + 1,
    {
        self.day0() + 1
    }

    /// Returns the decade within the month, starting from 0.
    pub fn decade0(&self) -> (r: i64)
        ensures
            r == self.day0 as int / 10,
    {
        div_euclid_i64(self.day0, DAYS_PER_DECADE)
    }

    /// Returns the decade within the month, starting from 1.
    pub fn decade(&self) -> (r: i64)
        ensures
            r == self.day0 as int / 10 + 1,
    {
        self.decade0() + 1
    }

    /// Returns the day's position in its decade, starting from 0.
    pub fn num_decade_day0(&self) -> (r: i64)
        ensures
            r == self.day0 as int % 10,
    {
        rem_euclid_i64(self.day0, DAYS_PER_DECADE)
    }

    /// Returns the day's position in its decade, starting from 1.
    pub fn num_decade_day(&self) -> (r: i64)
        ensures
            r == self.day0 as int % 10 + 1,
    {
        self.num_decade_day0() + 1
    }

    /// Returns the named day: a complementary day in the terminal period, a
    /// decade day otherwise.  In the terminal period only positions 0
    /// through 5 name a day.
    pub fn decade_day(&self) -> (r: Day)
        requires
            self.month0 == 12 ==> self.day0 as int % 10 <= 5,
        ensures
            r == spec_decade_day(self.month0 as int, self.day0 as int),
    {
        if self.month0 == 12 {
            Day::Sansculottide(SansculottideDay::from_num0(self.num_decade_day0()))
        } else {
            Day::Regular(RegularDay::from_num0(self.num_decade_day0()))
        }
    }

    /// Returns the hour of the decimal clock.
    pub fn hour(&self) -> (r: i64)
        ensures
            r == self.hour,
    {
        self.hour
    }

    /// Returns the minute of the decimal clock.
    pub fn minute(&self) -> (r: i64)
        ensures
            r == self.minute,
    {
        self.minute
    }

    /// Returns the second of the decimal clock.
    pub fn second(&self) -> (r: i64)
        ensures
            r == self.second,
    {
        self.second
    }

    /// Returns the hour, minute and second of the decimal clock.
    pub fn hms(&self) -> (r: (i64, i64, i64))
        ensures
            r == (self.hour, self.minute, self.second),
    {
        (self.hour, self.minute, self.second)
    }

    /// Returns the instant these fields compose to: the year's start plus
    /// the whole months, days, hours, minutes and seconds.
    pub fn timestamp(&self) -> (r: Timestamp)
        requires
            -MAX_EXTRAPOLATED_YEAR0 <= self.year0 <= MAX_EXTRAPOLATED_YEAR0,
            0 <= self.month0 <= 12,
            0 <= self.day0 <= 29,
            0 <= self.hour <= 9,
            0 <= self.minute <= 99,
            0 <= self.second <= 99,
        ensures
            r.seconds == spec_datetime_timestamp(
                self.year0 as int,
                self.month0 as int,
                self.day0 as int,
                self.hour as int,
                self.minute as int,
                self.second as int,
            ),
    {
        proof {
            lemma_year_start_near_linear(self.year0 as int);
        }
        let year_start: i64 = get_year_start0(self.year0);
        Timestamp {
            seconds: year_start + self.month0 * SECONDS_PER_MONTH + self.day0 * SECONDS_PER_DAY
                + self.hour * 10000 + self.minute * 100 + self.second,
        }
    }

    /// Returns the date as "named-day day month year"; the time of day does
    /// not appear.
    pub fn to_string_default(&self) -> (r: String)
        requires
            0 <= self.month0 <= 12,
            0 <= self.day0 <= 29,
            self.month0 == 12 ==> self.day0 as int % 10 <= 5,
            i64::MIN < self.year0 < i64::MAX,
        ensures
            r@ == spec_date_string(self.year0 as int, self.month0 as int, self.day0 as int),
    {
        let mut s: String = self.decade_day().name().to_owned();
        s.append(" ");
        s.append(decimal_string(self.day()).as_str());
        s.append(" ");
        s.append(self.month().name());
        s.append(" ");
        s.append(decimal_string(self.year()).as_str());
        s
    }

    /// Returns the date as "named-day day month an ROMAN-YEAR", the
    /// traditional form; it exists only for positive displayed years.
    pub fn to_string_traditional(&self) -> (r: String)
        requires
            0 <= self.month0 <= 12,
            0 <= self.day0 <= 29,
            self.month0 == 12 ==> self.day0 as int % 10 <= 5,
            0 <= self.year0 < i64::MAX,
        ensures
            r@ == spec_date_string_traditional(
                self.year0 as int,
                self.month0 as int,
                self.day0 as int,
            ),
    {
        let mut s: String = self.decade_day().name().to_owned();
        s.append(" ");
        s.append(decimal_string(self.day()).as_str());
        s.append(" ");
        s.append(self.month().name());
        s.append(" an ");
        s.append(roman_string(self.year()).as_str());
        s
    }
}

} // verus!
