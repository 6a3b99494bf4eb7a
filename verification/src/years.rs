//! Year boundaries: the start instant and the day count of every calendar
//! year, from a tabulated span of years and a deterministic extrapolation
//! beyond it, and the search from a timestamp back to the year holding it.

use vstd::prelude::*;
use vstd::arithmetic::div_mod::lemma_fundamental_div_mod;
use vstd::arithmetic::div_mod::lemma_div_multiples_vanish;
use vstd::arithmetic::mul::lemma_mul_is_commutative;
use vstd::arithmetic::mul::lemma_mul_unary_negation;
use crate::SECONDS_PER_DAY;
use crate::trunc_div;

verus! {

/// Zero-based index of the earliest year whose start the table covers.
pub const FIRST_TABULATED_YEAR0: i64 = -209;

/// Zero-based index of the latest year whose start the table covers.
pub const LAST_TABULATED_YEAR0: i64 = 1207;

/// Start instant of the earliest tabulated year (index -209), in calendar
/// seconds: the tabulated equinox instant of that year truncated down to the
/// start of its calendar day.
pub const FIRST_TABULATED_START: i64 = -7633600000;

/// The exact average year length of the four-year cycle, in calendar
/// seconds: a quarter of three 365-day years and one 366-day year.
pub const AVERAGE_SECONDS_PER_YEAR: i64 = 36525000;

/// Beyond this estimate magnitude, the year search returns its raw estimate
/// instead of walking to the exact year: a defensive cutoff far outside the
/// span for which the table is meaningful.
pub const MAX_SEARCH_YEAR0: i64 = 100_000;

/// Largest year index magnitude the extrapolation accepts: within this
/// bound the start of every year fits an `i64` second count with room to
/// spare, whatever the tabulated year lengths.
pub const MAX_EXTRAPOLATED_YEAR0: i64 = 252_000_000_000;

/// Largest timestamp magnitude for which the raw year estimate is certain
/// to stay within `MAX_EXTRAPOLATED_YEAR0`: the product of that bound and
/// the average year length.
pub const MAX_SEARCHABLE_TIMESTAMP: i64 = 9_204_300_000_000_000_000;

/// For each tabulated year (position `i` holds year index `-209 + i`),
/// whether that year is sextile, that is 366 days long; a `false` entry is a
/// 365-day year.  Derived, together with `FIRST_TABULATED_START`, from the
/// tabulated equinox instants of consecutive years, each truncated down to
/// the start of its calendar day.
#[verifier::opaque]
pub const SEXTILE: [bool; 1417] = [
    true, false, false, false, true, false, false, false, false, true, false, false, false, true, false, false,
    false, true, false, false, false, true, false, false, false, true, false, false, false, true, false, false,
    false, true, false, false, false, false, true, false, false, false, true, false, false, false, true, false,
    false, false, true, false, false, false, true, false, false, false, true, false, false, false, true, false,
    false, false, true, false, false, false, false, true, false, false, false, true, false, false, false, true,
    false, false, false, true, false, false, false, true, false, false, false, true, false, false, false, true,
    false, false, false, false, true, false, false, false, true, false, false, false, true, false, false, false,
    true, false, false, false, true, false, false, false, true, false, false, false, true, false, false, false,
    true, false, false, false, false, true, false, false, false, true, false, false, false, true, false, false,
    false, true, false, false, false, true, false, false, false, true, false, false, false, true, false, false,
    false, true, false, false, false, false, true, false, false, false, true, false, false, false, true, false,
    false, false, true, false, false, false, true, false, false, false, true, false, false, false, true, false,
    false, false, true, false, false, false, false, true, false, false, false, true, false, false, false, true,
    false, false, false, true, false, false, false, true, false, false, false, true, false, false, false, true,
    false, false, false, false, true, false, false, false, true, false, false, false, true, false, false, false,
    true, false, false, false, true, false, false, false, true, false, false, false, true, false, false, false,
    true, false, false, false, false, true, false, false, false, true, false, false, false, true, false, false,
    false, true, false, false, false, true, false, false, false, true, false, false, false, true, false, false,
    false, false, true, false, false, false, true, false, false, false, true, false, false, false, true, false,
    false, false, true, false, false, false, true, false, false, false, true, false, false, false, true, false,
    false, false, false, true, false, false, false, true, false, false, false, true, false, false, false, true,
    false, false, false, true, false, false, false, true, false, false, false, true, false, false, false, false,
    true, false, false, false, true, false, false, false, true, false, false, false, true, false, false, false,
    true, false, false, false, true, false, false, false, true, false, false, false, true, false, false, false,
    false, true, false, false, false, true, false, false, false, true, false, false, false, true, false, false,
    false, true, false, false, false, true, false, false, false, true, false, false, false, true, false, false,
    false, false, true, false, false, false, true, false, false, false, true, false, false, false, true, false,
    false, false, true, false, false, false, true, false, false, false, true, false, false, false, false, true,
    false, false, false, true, false, false, false, true, false, false, false, true, false, false, false, true,
    false, false, false, true, false, false, false, true, false, false, false, true, false, false, false, false,
    true, false, false, false, true, false, false, false, true, false, false, false, true, false, false, false,
    true, false, false, false, true, false, false, false, true, false, false, false, false, true, false, false,
    false, true, false, false, false, true, false, false, false, true, false, false, false, true, false, false,
    false, true, false, false, false, true, false, false, false, true, false, false, false, false, true, false,
    false, false, true, false, false, false, true, false, false, false, true, false, false, false, true, false,
    false, false, true, false, false, false, true, false, false, false, false, true, false, false, false, true,
    false, false, false, true, false, false, false, true, false, false, false, true, false, false, false, true,
    false, false, false, true, false, false, false, true, false, false, false, false, true, false, false, false,
    true, false, false, false, true, false, false, false, true, false, false, false, true, false, false, false,
    true, false, false, false, true, false, false, false, false, true, false, false, false, true, false, false,
    false, true, false, false, false, true, false, false, false, true, false, false, false, true, false, false,
    false, true, false, false, false, true, false, false, false, false, true, false, false, false, true, false,
    false, false, true, false, false, false, true, false, false, false, true, false, false, false, true, false,
    false, false, true, false, false, false, true, false, false, false, false, true, false, false, false, true,
    false, false, false, true, false, false, false, true, false, false, false, true, false, false, false, true,
    false, false, false, true, false, false, false, false, true, false, false, false, true, false, false, false,
    true, false, false, false, true, false, false, false, true, false, false, false, true, false, false, false,
    true, false, false, false, false, true, false, false, false, true, false, false, false, true, false, false,
    false, true, false, false, false, true, false, false, false, true, false, false, false, true, false, false,
    false, true, false, false, false, false, true, false, false, false, true, false, false, false, true, false,
    false, false, true, false, false, false, true, false, false, false, true, false, false, false, true, false,
    false, false, false, true, false, false, false, true, false, false, false, true, false, false, false, true,
    false, false, false, true, false, false, false, true, false, false, false, true, false, false, false, true,
    false, false, false, false, true, false, false, false, true, false, false, false, true, false, false, false,
    true, false, false, false, true, false, false, false, true, false, false, false, true, false, false, false,
    false, true, false, false, false, true, false, false, false, true, false, false, false, true, false, false,
    false, true, false, false, false, true, false, false, false, true, false, false, false, false, true, false,
    false, false, true, false, false, false, true, false, false, false, true, false, false, false, true, false,
    false, false, true, false, false, false, true, false, false, false, true, false, false, false, false, true,
    false, false, false, true, false, false, false, true, false, false, false, true, false, false, false, true,
    false, false, false, true, false, false, false, true, false, false, false, false, true, false, false, false,
    true, false, false, false, true, false, false, false, true, false, false, false, true, false, false, false,
    true, false, false, false, true, false, false, false, true, false, false, false, false, true, false, false,
    false, true, false, false, false, true, false, false, false, true, false, false, false, true, false, false,
    false, true, false, false, false, true, false, false, false, false, true, false, false, false, true, false,
    false, false, true, false, false, false, true, false, false, false, true, false, false, false, true, false,
    false, false, true, false, false, false, true, false, false, false, false, true, false, false, false, true,
    false, false, false, true, false, false, false, true, false, false, false, true, false, false, false, true,
    false, false, false, true, false, false, false, false, true, false, false, false, true, false, false, false,
    true, false, false, false, true, false, false, false, true, false, false, false, true, false, false, false,
    true, false, false, false, false, true, false, false, false, true, false, false, false, true, false, false,
    false, true, false, false, false, true, false, false, false, true, false, false, false, true, false, false,
    false, false, true, false, false, false, true, false, false, false, true, false, false, false, true, false,
    false, false, true, false, false, false, true, false, false, false, true, false, false, false, true, false,
    false, false, false, true, false, false, false, true, false, false, false, true, false, false, false, true,
    false, false, false, true, false, false, false, true, false, false, false, true, false, false, false, false,
    true, false, false, false, true, false, false, false, true, false, false, false, true, false, false, false,
    true, false, false, false, true, false, false, false, true, false, false, false, true, false, false, false,
    false, true, false, false, false, true, false, false, false, true, false, false, false, true, false, false,
    false, true, false, false, false, true, false, false, false, true, false, false, false, false, true, false,
    false, false, true, false, false, false, true, false, false, false, true, false, false, false, true, false,
    false, false, true, false, false, false, true, false, false, false, false, true, false, false, false, true,
    false, false, false, true, false, false, false, true, false, false, false, true, false, false, false, true,
    false, false, false, true, false, false, false, false, true, false, false, false, true, false, false, false,
    true, false, false, false, true, false, false, false, true, false, false, false, true, false, false, false,
    true, false, false, false, true, false, false, false, false, true, false, false, false, true, false, false,
    false, true, false, false, false, true, false, false, false, true, false, false, false, true, false, false,
    false, true, false, false, false, false, true, false, false, false, true, false, false, false, true, false,
    false, false, true, false, false, false, true, false, false,
];

/// Zero-based year index of a displayed year number: displayed years skip
/// zero, so positive displayed years shift down by one.
pub open spec fn spec_republican_year0(year: int) -> int {
    if year > 0 {
        year - 1
    } else {
        year
    }
}

/// Displayed year number of a zero-based year index.
pub open spec fn spec_displayed_year(year0: int) -> int {
    if year0 >= 0 {
        year0 + 1
    } else {
        year0
    }
}

/// Day count of the tabulated year at position `i`.
pub open spec fn tabulated_day_count(i: int) -> int {
    if SEXTILE[i] {
        366
    } else {
        365
    }
}

/// Start instant of the tabulated year at position `i`: the table's first
/// start plus the lengths of the tabulated years before position `i`.
pub open spec fn tabulated_start(i: int) -> int
    decreases i,
{
    if i <= 0 {
        FIRST_TABULATED_START as int
    } else {
        tabulated_start(i - 1) + tabulated_day_count(i - 1) * 100000
    }
}

/// Start instant of the year with zero-based index `year0`.  A tabulated
/// year reads the table; a year beyond either edge follows the fixed
/// four-year pattern (one 366-day year in four) anchored at that edge.
/// Below the lower edge, one extra year is counted because the table's first
/// row is the start of its own year, not the end of the year before it.
pub open spec fn spec_year_start0(year0: int) -> int {
    if year0 < -209 {
        let years_below = 0 - (year0 + 210);
        let sextile = years_below / 4;
        let standard = years_below - sextile;
        (FIRST_TABULATED_START as int) - (sextile * 366 + standard * 365 + 366) * 100000
    } else if year0 <= 1207 {
        tabulated_start(year0 + 209)
    } else {
        let years_above = year0 + 1 - 1208;
        let sextile = years_above / 4;
        let standard = years_above - sextile;
        tabulated_start(1416) + (sextile * 366 + standard * 365) * 100000
    }
}

/// Day count of the year with zero-based index `year0`: the distance to the
/// next year's start, in days.
pub open spec fn spec_day_count0(year0: int) -> int {
    (spec_year_start0(year0 + 1) - spec_year_start0(year0)) / 100000
}

/// The year with zero-based index `year0` contains the instant `ts`.
pub open spec fn year_contains(year0: int, ts: int) -> bool {
    spec_year_start0(year0) <= ts < spec_year_start0(year0 + 1)
}

/// The raw year estimate for an instant: division by the average year
/// length, truncated towards zero.
pub open spec fn spec_estimate(ts: int) -> int {
    trunc_div(ts, 36525000)
}

/// The year index the search returns for an instant: the year containing it,
/// or the raw estimate when that estimate lies beyond the defensive cutoff.
pub open spec fn spec_ts_to_year0(ts: int) -> int {
    if spec_estimate(ts) > 100000 || spec_estimate(ts) < -100000 {
        spec_estimate(ts)
    } else {
        choose|year0: int| year_contains(year0, ts)
    }
}

pub proof fn lemma_tabulated_start_bounds(i: int)
    requires
        0 <= i <= 1417,
    ensures
        (FIRST_TABULATED_START as int) + 36500000 * i <= tabulated_start(i),
        tabulated_start(i) <= (FIRST_TABULATED_START as int) + 36600000 * i,
    decreases i,
{
    if i > 0 {
        lemma_tabulated_start_bounds(i - 1);
    }
}

/// Year length consistency and chained coherence: every year is 365 or 366
/// days long, and each year starts exactly where the previous one ends,
/// whether both years are tabulated, both extrapolated, or one of each.
pub proof fn lemma_year_step(year0: int)
    ensures
        spec_year_start0(year0 + 1) == spec_year_start0(year0) + spec_day_count0(year0) * 100000,
        365 <= spec_day_count0(year0) <= 366,
{
    let diff = spec_year_start0(year0 + 1) - spec_year_start0(year0);
    if year0 < -210 {
        let m = 0 - (year0 + 210);
        assert(m == 4 * (m / 4) + m % 4) by {
            lemma_fundamental_div_mod(m, 4);
        }
        assert(m - 1 == 4 * ((m - 1) / 4) + (m - 1) % 4) by {
            lemma_fundamental_div_mod(m - 1, 4);
        }
        assert(diff == 365 * 100000 || diff == 366 * 100000);
    } else if year0 == -210 {
        assert(spec_year_start0(-209) == tabulated_start(0));
        assert(diff == 366 * 100000);
    } else if year0 <= 1206 {
        assert(spec_year_start0(year0 + 1) == tabulated_start(year0 + 210));
        assert(tabulated_start(year0 + 210) == tabulated_start(year0 + 209)
            + tabulated_day_count(year0 + 209) * 100000);
        assert(diff == 365 * 100000 || diff == 366 * 100000);
    } else if year0 == 1207 {
        assert(diff == 365 * 100000);
    } else {
        let d = year0 + 1 - 1208;
        assert(d == 4 * (d / 4) + d % 4) by {
            lemma_fundamental_div_mod(d, 4);
        }
        assert(d + 1 == 4 * ((d + 1) / 4) + (d + 1) % 4) by {
            lemma_fundamental_div_mod(d + 1, 4);
        }
        assert(diff == 365 * 100000 || diff == 366 * 100000);
    }
    if diff == 365 * 100000 {
        lemma_div_multiples_vanish(365, 100000);
    } else {
        lemma_div_multiples_vanish(366, 100000);
    }
}

/// Year starts are strictly increasing, by 365 to 366 days for each year.
pub proof fn lemma_year_start_monotonic(a: int, b: int)
    requires
        a <= b,
    ensures
        spec_year_start0(a) + (b - a) * 36500000 <= spec_year_start0(b),
        spec_year_start0(b) <= spec_year_start0(a) + (b - a) * 36600000,
    decreases b - a,
{
    if a < b {
        lemma_year_start_monotonic(a, b - 1);
        lemma_year_step(b - 1);
    }
}

/// Every year start stays within a fixed distance of the line through the
/// origin with the average year length as its slope.
pub proof fn lemma_year_start_near_linear(year0: int)
    ensures
        year0 * 36525000 - 200000000 <= spec_year_start0(year0),
        spec_year_start0(year0) <= year0 * 36525000 + 200000000,
{
    if year0 < -209 {
        let m = 0 - (year0 + 210);
        assert(m == 4 * (m / 4) + m % 4) by {
            lemma_fundamental_div_mod(m, 4);
        }
    } else if year0 <= 1207 {
        lemma_tabulated_start_bounds(year0 + 209);
    } else {
        let d = year0 + 1 - 1208;
        assert(d == 4 * (d / 4) + d % 4) by {
            lemma_fundamental_div_mod(d, 4);
        }
        lemma_tabulated_start_bounds(1416);
    }
}

/// The truncated quotient times the divisor lands within one divisor of the
/// dividend, on either side.
pub proof fn lemma_trunc_div_window(a: int, b: int)
    requires
        b > 0,
    ensures
        trunc_div(a, b) * b - b < a < trunc_div(a, b) * b + b,
{
    if a >= 0 {
        lemma_fundamental_div_mod(a, b);
        lemma_mul_is_commutative(trunc_div(a, b), b);
        assert(trunc_div(a, b) * b == b * (a / b));
    } else {
        lemma_fundamental_div_mod(0 - a, b);
        lemma_mul_is_commutative(trunc_div(a, b), b);
        lemma_mul_unary_negation(b, (0 - a) / b);
        assert(trunc_div(a, b) * b == 0 - (b * ((0 - a) / b)));
    }
}

/// The year containing an instant lies within a small window around the raw
/// estimate whenever that estimate is within the defensive cutoff.
proof fn lemma_estimate_window(ts: int)
    requires
        -100000 <= spec_estimate(ts) <= 100000,
    ensures
        spec_year_start0(spec_estimate(ts) - 4000) <= ts,
        ts < spec_year_start0(spec_estimate(ts) + 4000),
{
    let est = spec_estimate(ts);
    lemma_trunc_div_window(ts, 36525000);
    lemma_year_start_near_linear(est - 4000);
    lemma_year_start_near_linear(est + 4000);
}

/// Two different years cannot contain the same instant.
pub proof fn lemma_containing_unique(ts: int, y1: int, y2: int)
    requires
        year_contains(y1, ts),
        year_contains(y2, ts),
    ensures
        y1 == y2,
{
    if y1 < y2 {
        lemma_year_start_monotonic(y1 + 1, y2);
    }
    if y2 < y1 {
        lemma_year_start_monotonic(y2 + 1, y1);
    }
}

/// Start instant of the tabulated year at `position`, by summing the day
/// counts of the tabulated years before it.
pub(crate) fn tabulated_start_exec(position: usize) -> (r: i64)
    requires
        position <= 1416,
    ensures
        r == tabulated_start(position as int),
{
    let mut total: i64 = FIRST_TABULATED_START;
    let mut i: usize = 0;
    while i < position
        invariant
            i <= position <= 1416,
            total == tabulated_start(i as int),
            (FIRST_TABULATED_START as int) + 36500000 * (i as int) <= total,
            total <= (FIRST_TABULATED_START as int) + 36600000 * (i as int),
        decreases position - i,
    {
        if SEXTILE[i] {
            total = total + 366 * SECONDS_PER_DAY;
        } else {
            total = total + 365 * SECONDS_PER_DAY;
        }
        i = i + 1;
    }
    total
}

/// Start instant of the year with zero-based index `year0`, in calendar
/// seconds: the tabulated start for a tabulated year, the four-year-pattern
/// extrapolation from the nearest table edge otherwise.
pub fn get_year_start0(year0: i64) -> (r: i64)
    requires
        -MAX_EXTRAPOLATED_YEAR0 <= year0 <= MAX_EXTRAPOLATED_YEAR0,
    ensures
        r == spec_year_start0(year0 as int),
{
    if year0 < FIRST_TABULATED_YEAR0 {
        let years_below: i64 = -(year0 + 210);
        proof {
            lemma_fundamental_div_mod(years_below as int, 4);
        }
        let sextile: i64 = years_below / 4;
        let standard: i64 = years_below - sextile;
        let days: i64 = sextile * 366 + standard * 365;
        FIRST_TABULATED_START - (days + 366) * SECONDS_PER_DAY
    } else if year0 <= LAST_TABULATED_YEAR0 {
        tabulated_start_exec((year0 - FIRST_TABULATED_YEAR0) as usize)
    } else {
        let years_above: i64 = year0 + 1 - 1208;
        proof {
            lemma_fundamental_div_mod(years_above as int, 4);
            lemma_tabulated_start_bounds(1416);
        }
        let sextile: i64 = years_above / 4;
        let standard: i64 = years_above - sextile;
        let days: i64 = sextile * 366 + standard * 365;
        tabulated_start_exec(1416) + days * SECONDS_PER_DAY
    }
}

/// Start instant of the year with the given displayed number (displayed
/// years skip zero; zero itself is read as the first positive year).
pub fn get_year_start(republican_year: i64) -> (r: i64)
    requires
        -MAX_EXTRAPOLATED_YEAR0 <= republican_year <= MAX_EXTRAPOLATED_YEAR0,
    ensures
        r == spec_year_start0(spec_republican_year0(republican_year as int)),
{
    get_year_start0(republican_year0(republican_year))
}

/// Zero-based year index of a displayed year number.
fn republican_year0(republican_year: i64) -> (r: i64)
    ensures
        r == spec_republican_year0(republican_year as int),
{
    if republican_year > 0 {
        republican_year - 1
    } else {
        republican_year
    }
}

/// Day count of the year with zero-based index `year0`: the distance to the
/// next year's start, in days, always 365 or 366.
pub fn get_day_count0(year0: i64) -> (r: i64)
    requires
        -MAX_EXTRAPOLATED_YEAR0 <= year0 < MAX_EXTRAPOLATED_YEAR0,
    ensures
        r == spec_day_count0(year0 as int),
        365 <= r <= 366,
{
    let year_start: i64 = get_year_start0(year0);
    let next_year_start: i64 = get_year_start0(year0 + 1);
    proof {
        lemma_year_step(year0 as int);
    }
    (next_year_start - year_start) / SECONDS_PER_DAY
}

/// Day count of the year with the given displayed number, always 365 or 366.
pub fn get_day_count(republican_year: i64) -> (r: i64)
    requires
        -MAX_EXTRAPOLATED_YEAR0 <= republican_year < MAX_EXTRAPOLATED_YEAR0,
    ensures
        r == spec_day_count0(spec_republican_year0(republican_year as int)),
        365 <= r <= 366,
{
    get_day_count0(republican_year0(republican_year))
}

/// Zero-based index of the year containing the instant `ts`: a raw estimate
/// from the average year length, corrected by walking year by year.  When
/// the estimate lies beyond the defensive cutoff the estimate itself is
/// returned unrefined.
pub fn ts_to_year0(ts: i64) -> (r: i64)
    ensures
        r == spec_ts_to_year0(ts as int),
        -100000 <= spec_estimate(ts as int) <= 100000 ==> year_contains(r as int, ts as int),
        -100000 <= spec_estimate(ts as int) <= 100000 ==> -104000 <= r <= 104000,
        -MAX_SEARCHABLE_TIMESTAMP <= ts <= MAX_SEARCHABLE_TIMESTAMP ==> -MAX_EXTRAPOLATED_YEAR0
            <= r <= MAX_EXTRAPOLATED_YEAR0,
{
    let estimated: i64 = ts / AVERAGE_SECONDS_PER_YEAR;
    proof {
        lemma_trunc_div_window(ts as int, 36525000);
    }
    if estimated > MAX_SEARCH_YEAR0 || estimated < -MAX_SEARCH_YEAR0 {
        return estimated;
    }
    proof {
        lemma_estimate_window(ts as int);
        lemma_year_step(estimated as int);
    }
    let ghost est = estimated as int;
    let mut year0: i64 = estimated;
    let mut year_start: i64 = get_year_start0(year0);
    if year_start > ts {
        while year_start > ts
            invariant
                est - 4000 <= year0 as int && year0 as int <= est,
                -100000 <= est <= 100000,
                year_start == spec_year_start0(year0 as int),
                (ts as int) < spec_year_start0(year0 as int + 1),
                spec_year_start0(est - 4000) <= ts as int,
            decreases year0 as int - (est - 4000),
        {
            proof {
                if year0 as int - 1 < est - 4000 {
                    lemma_year_start_monotonic(year0 as int, est - 4000);
                }
            }
            year0 = year0 - 1;
            year_start = get_year_start0(year0);
        }
        proof {
            assert(year_contains(year0 as int, ts as int));
            assert(exists|y: int| year_contains(y, ts as int));
            lemma_containing_unique(ts as int, year0 as int,
                choose|y: int| year_contains(y, ts as int));
        }
        year0
    } else {
        let mut next_start: i64 = get_year_start0(year0 + 1);
        while next_start <= ts
            invariant
                est <= year0 as int && year0 as int <= est + 4000,
                -100000 <= est <= 100000,
                spec_year_start0(year0 as int) <= ts as int,
                next_start == spec_year_start0(year0 as int + 1),
                (ts as int) < spec_year_start0(est + 4000),
            decreases (est + 4000) - year0 as int,
        {
            proof {
                if year0 as int + 1 > est + 4000 - 1 {
                    lemma_year_start_monotonic(est + 4000, year0 as int + 1);
                }
            }
            year0 = year0 + 1;
            next_start = get_year_start0(year0 + 1);
        }
        proof {
            assert(year_contains(year0 as int, ts as int));
            assert(exists|y: int| year_contains(y, ts as int));
            lemma_containing_unique(ts as int, year0 as int,
                choose|y: int| year_contains(y, ts as int));
        }
        year0
    }
}

/// Displayed number of the year containing the instant `ts` (or of the raw
/// estimate, beyond the defensive cutoff).
pub fn ts_to_year(ts: i64) -> (r: i64)
    ensures
        r == spec_displayed_year(spec_ts_to_year0(ts as int)),
{
    let year0: i64 = ts_to_year0(ts);
    if year0 >= 0 {
        year0 + 1
    } else {
        year0
    }
}

/// Year search correctness: searching for the start instant of any year in
/// a broad range around the tabulated span finds exactly that year.
pub proof fn lemma_year_search_correct(year0: int)
    requires
        -99000 <= year0 <= 99000,
    ensures
        spec_ts_to_year0(spec_year_start0(year0)) == year0,
{
    let ts = spec_year_start0(year0);
    lemma_year_step(year0);
    assert(year_contains(year0, ts));
    lemma_year_start_near_linear(year0);
    lemma_trunc_div_window(ts, 36525000);
    let est = spec_estimate(ts);
    assert(-100000 <= est <= 100000);
    lemma_containing_unique(ts, year0, choose|y: int| year_contains(y, ts));
}

} // verus!
