//! Calendar arithmetic for the French Republican calendar.
//!
//! A year holds twelve months of thirty days each, followed by a short
//! terminal period of five or six complementary days.  A day holds 100000
//! seconds, split into 10 hours of 100 minutes of 100 seconds.  Year
//! boundaries follow the tabulated autumn equinox instants for the years the
//! table covers, and a fixed four-year leap pattern anchored at the table's
//! edges outside it.

use vstd::prelude::*;
use vstd::arithmetic::div_mod::lemma_fundamental_div_mod;
use vstd::arithmetic::div_mod::lemma_fundamental_div_mod_converse;
use vstd::arithmetic::mul::lemma_mul_unary_negation;
use vstd::arithmetic::mul::lemma_mul_is_commutative;
use vstd::arithmetic::mul::lemma_mul_is_distributive_sub_other_way;
use vstd::arithmetic::mul::lemma_mul_inequality;

pub mod date;
pub mod datetime;
pub mod day;
pub mod equinoxes;
pub mod equinoxes_pattern;
pub mod months;
pub mod numerals;
pub mod timestamp;
pub mod years;
pub mod years_pattern;

pub use date::Date;
pub use datetime::DateTime;
pub use day::Day;
pub use day::RegularDay;
pub use day::SansculottideDay;
pub use equinoxes::get_equinox;
pub use months::Month;
pub use timestamp::Timestamp;
pub use years::get_day_count;
pub use years::get_day_count0;
pub use years::get_year_start;
pub use years::get_year_start0;
pub use years::ts_to_year;
pub use years::ts_to_year0;

verus! {

/// Seconds in one calendar day (ten hours of one hundred minutes of one
/// hundred seconds).
pub const SECONDS_PER_DAY: i64 = 100000;

/// Days in each of the twelve regular months.
pub const DAYS_PER_MONTH: i64 = 30;

/// Days in a decade, the ten-day week of this calendar.
pub const DAYS_PER_DECADE: i64 = 10;

/// Seconds in one regular month.
pub const SECONDS_PER_MONTH: i64 = SECONDS_PER_DAY * DAYS_PER_MONTH;

/// Division truncating towards zero, the semantics of `/` on `i64`.
pub open spec fn trunc_div(a: int, b: int) -> int {
    if a >= 0 {
        a / b
    } else {
        0 - ((0 - a) / b)
    }
}

/// The quotient and remainder of `/` and `%` on `i64`, which truncate
/// towards zero, restated through the Euclidean quotient and remainder of
/// the operands' magnitudes.
proof fn lemma_trunc_rem(a: int, b: int)
    requires
        b > 0,
    ensures
        a >= 0 ==> a == b * (a / b) + a % b && 0 <= a % b < b,
        a < 0 ==> trunc_div(a, b) == 0 - ((0 - a) / b),
        a < 0 ==> a == b * trunc_div(a, b) - (0 - a) % b && 0 <= (0 - a) % b < b,
{
    if a >= 0 {
        lemma_fundamental_div_mod(a, b);
    } else {
        lemma_fundamental_div_mod(0 - a, b);
        lemma_mul_unary_negation(b, (0 - a) / b);
        assert(b * trunc_div(a, b) == b * (0 - ((0 - a) / b)));
    }
}

/// Euclidean division of an `i64` by a positive divisor: the quotient is
/// rounded towards negative infinity, so the paired remainder is never
/// negative.
pub fn div_euclid_i64(a: i64, b: i64) -> (r: i64)
    requires
        b > 0,
    ensures
        r == a as int / b as int,
{
    let q: i64 = a / b;
    let rem: i64 = a % b;
    proof {
        lemma_trunc_rem(a as int, b as int);
        if a < 0 {
            let n = 0 - a as int;
            lemma_mul_is_commutative(b as int, q as int);
            if b >= 2 {
                lemma_mul_unary_negation(b as int, n / (b as int));
                lemma_mul_inequality(2, b as int, n / (b as int));
            }
            if n % (b as int) == 0 {
                lemma_fundamental_div_mod_converse(a as int, b as int, q as int, 0);
            } else {
                lemma_mul_is_distributive_sub_other_way(b as int, q as int, 1);
                lemma_fundamental_div_mod_converse(
                    a as int,
                    b as int,
                    q as int - 1,
                    b as int - n % (b as int),
                );
            }
        }
    }
    if rem < 0 {
        q - 1
    } else {
        q
    }
}

/// Euclidean remainder of an `i64` by a positive divisor: the result is
/// always in `[0, b)`.
pub fn rem_euclid_i64(a: i64, b: i64) -> (r: i64)
    requires
        b > 0,
    ensures
        r == a as int % b as int,
{
    let rem: i64 = a % b;
    proof {
        lemma_trunc_rem(a as int, b as int);
        if a < 0 {
            let n = 0 - a as int;
            let q = trunc_div(a as int, b as int);
            lemma_mul_is_commutative(b as int, q);
            if n % (b as int) == 0 {
                lemma_fundamental_div_mod_converse(a as int, b as int, q, 0);
            } else {
                lemma_mul_is_distributive_sub_other_way(b as int, q, 1);
                lemma_fundamental_div_mod_converse(
                    a as int,
                    b as int,
                    q - 1,
                    b as int - n % (b as int),
                );
            }
        }
    }
    if rem < 0 {
        rem + b
    } else {
        rem
    }
}

} // verus!
