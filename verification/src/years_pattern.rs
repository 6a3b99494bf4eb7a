//! Year boundaries computed the short way round: the day count of a
//! tabulated year is read straight from the sextile table instead of being
//! taken as a difference of starts, and beyond the table the four-year
//! pattern is applied through the residue of the year index modulo four.
//! Both functions are proven to agree exactly with the `years` module.

use vstd::prelude::*;
use vstd::arithmetic::div_mod::lemma_fundamental_div_mod;
use vstd::arithmetic::div_mod::lemma_fundamental_div_mod_converse;
use vstd::arithmetic::div_mod::lemma_div_multiples_vanish;
use crate::SECONDS_PER_DAY;
use crate::rem_euclid_i64;
use crate::years::FIRST_TABULATED_YEAR0;
use crate::years::LAST_TABULATED_YEAR0;
use crate::years::FIRST_TABULATED_START;
use crate::years::MAX_EXTRAPOLATED_YEAR0;
use crate::years::SEXTILE;
use crate::years::lemma_year_step;
use crate::years::spec_day_count0;
use crate::years::spec_republican_year0;
use crate::years::spec_year_start0;
use crate::years::tabulated_day_count;
use crate::years::tabulated_start_exec;

verus! {

/// Beyond the tabulated years the four-year pattern is periodic in the
/// year index itself: a year is sextile exactly when its index is two more
/// than a multiple of four.
pub proof fn lemma_day_count_pattern(year0: int)
    requires
        year0 <= -210 || year0 >= 1207,
    ensures
        spec_day_count0(year0) == (if (year0 + 2) % 4 == 0 {
            366int
        } else {
            365int
        }),
{
    lemma_year_step(year0);
    if year0 >= 1207 {
        let d = year0 + 1 - 1208;
        lemma_fundamental_div_mod(d, 4);
        let q = d / 4;
        let r = d % 4;
        if r <= 2 {
            lemma_fundamental_div_mod_converse(d + 1, 4, q, r + 1);
            lemma_fundamental_div_mod_converse(year0 + 2, 4, q + 302, r + 1);
        } else {
            lemma_fundamental_div_mod_converse(d + 1, 4, q + 1, 0);
            lemma_fundamental_div_mod_converse(year0 + 2, 4, q + 303, 0);
        }
        if spec_year_start0(year0 + 1) - spec_year_start0(year0) == 365 * 100000 {
            lemma_div_multiples_vanish(365, 100000);
        } else {
            lemma_div_multiples_vanish(366, 100000);
        }
    } else if year0 == -210 {
        lemma_fundamental_div_mod_converse(year0 + 2, 4, -52, 0);
    } else {
        let m = 0 - (year0 + 210);
        lemma_fundamental_div_mod(m, 4);
        let q = m / 4;
        let r = m % 4;
        if r == 0 {
            lemma_fundamental_div_mod_converse(m - 1, 4, q - 1, 3);
            lemma_fundamental_div_mod_converse(year0 + 2, 4, 0 - q - 52, 0);
        } else {
            lemma_fundamental_div_mod_converse(m - 1, 4, q, r - 1);
            lemma_fundamental_div_mod_converse(year0 + 2, 4, 0 - q - 53, 4 - r);
        }
        if spec_year_start0(year0 + 1) - spec_year_start0(year0) == 365 * 100000 {
            lemma_div_multiples_vanish(365, 100000);
        } else {
            lemma_div_multiples_vanish(366, 100000);
        }
    }
}

/// Start instant of the year with the given displayed number, agreeing
/// exactly with `years::get_year_start`: a tabulated year reads the table,
/// one beyond either edge follows the four-year pattern anchored there,
/// here phrased directly on the displayed year number.
pub fn get_year_start(republican_year: i64) -> (r: i64)
    requires
        -MAX_EXTRAPOLATED_YEAR0 <= republican_year <= MAX_EXTRAPOLATED_YEAR0,
    ensures
        r == spec_year_start0(spec_republican_year0(republican_year as int)),
{
    let republican_year0: i64 = if republican_year > 0 {
        republican_year - 1
    } else {
        republican_year
    };
    if FIRST_TABULATED_YEAR0 <= republican_year0 && republican_year0 <= LAST_TABULATED_YEAR0 {
        tabulated_start_exec((republican_year0 - FIRST_TABULATED_YEAR0) as usize)
    } else if republican_year > 0 {
        let years_above: i64 = republican_year - 1208;
        proof {
            lemma_fundamental_div_mod(years_above as int, 4);
            crate::years::lemma_tabulated_start_bounds(1416);
        }
        let sextile: i64 = years_above / 4;
        let standard: i64 = years_above - sextile;
        let days: i64 = sextile * 366 + standard * 365;
        tabulated_start_exec(1416) + days * SECONDS_PER_DAY
    } else {
        let years_below: i64 = -(republican_year0 + 210);
        proof {
            lemma_fundamental_div_mod(years_below as int, 4);
        }
        let sextile: i64 = years_below / 4;
        let standard: i64 = years_below - sextile;
        let days: i64 = sextile * 366 + standard * 365;
        FIRST_TABULATED_START - (days + 366) * SECONDS_PER_DAY
    }
}

/// Day count of the year with the given displayed number, agreeing exactly
/// with `years::get_day_count`: a tabulated year reads the sextile table,
/// one beyond either edge is sextile exactly when its index is two more
/// than a multiple of four.
pub fn get_day_count(republican_year: i64) -> (r: i64)
    requires
        -MAX_EXTRAPOLATED_YEAR0 <= republican_year < MAX_EXTRAPOLATED_YEAR0,
    ensures
        r == spec_day_count0(spec_republican_year0(republican_year as int)),
        365 <= r <= 366,
{
    let republican_year0: i64 = if republican_year > 0 {
        republican_year - 1
    } else {
        republican_year
    };
    if FIRST_TABULATED_YEAR0 <= republican_year0 && republican_year0 <= 1206 {
        proof {
            lemma_year_step(republican_year0 as int);
            assert(spec_day_count0(republican_year0 as int) == tabulated_day_count(
                republican_year0 + 209,
            )) by {
                lemma_div_multiples_vanish(tabulated_day_count(republican_year0 + 209), 100000);
            }
        }
        if SEXTILE[(republican_year0 + 209) as usize] {
            366
        } else {
            365
        }
    } else {
        proof {
            lemma_day_count_pattern(republican_year0 as int);
        }
        if rem_euclid_i64(republican_year0 + 2, 4) == 0 {
            366
        } else {
            365
        }
    }
}

} // verus!
