//! Rendering integers as text: decimal digit strings for day and year
//! numbers, and the Roman-numeral year form used by the traditional date
//! string.

use vstd::prelude::*;

verus! {

/// The decimal digit character for a value of 0 through 9.
pub open spec fn spec_digit_char(d: int) -> char {
    if d == 0 {
        '0'
    } else if d == 1 {
        '1'
    } else if d == 2 {
        '2'
    } else if d == 3 {
        '3'
    } else if d == 4 {
        '4'
    } else if d == 5 {
        '5'
    } else if d == 6 {
        '6'
    } else if d == 7 {
        '7'
    } else if d == 8 {
        '8'
    } else {
        '9'
    }
}

/// The decimal digits of a non-negative value, most significant first.
pub open spec fn spec_decimal_digits(n: int) -> Seq<char>
    decreases n,
{
    if n < 10 {
        seq![spec_digit_char(n)]
    } else {
        spec_decimal_digits(n / 10).push(spec_digit_char(n % 10))
    }
}

/// The decimal rendering of a value: its digits, with a leading minus sign
/// when it is negative.
pub open spec fn spec_decimal(n: int) -> Seq<char> {
    if n < 0 {
        seq!['-'] + spec_decimal_digits(0 - n)
    } else {
        spec_decimal_digits(n)
    }
}

/// A character repeated a given number of times.
pub open spec fn spec_repeat_char(c: char, count: int) -> Seq<char>
    decreases count,
{
    if count <= 0 {
        Seq::empty()
    } else {
        spec_repeat_char(c, count - 1).push(c)
    }
}

/// The Roman hundreds figure for a count of 0 through 4.
pub open spec fn spec_roman_hundreds(count: int) -> Seq<char> {
    if count == 0 {
        Seq::empty()
    } else if count == 1 {
        "C"@
    } else if count == 2 {
        "CC"@
    } else if count == 3 {
        "CCC"@
    } else {
        "CD"@
    }
}

/// The Roman tens figure for a count of 0 through 4.
pub open spec fn spec_roman_tens(count: int) -> Seq<char> {
    if count == 0 {
        Seq::empty()
    } else if count == 1 {
        "X"@
    } else if count == 2 {
        "XX"@
    } else if count == 3 {
        "XXX"@
    } else {
        "XL"@
    }
}

/// The Roman units figure for a count of 0 through 4.
pub open spec fn spec_roman_units(count: int) -> Seq<char> {
    if count == 0 {
        Seq::empty()
    } else if count == 1 {
        "I"@
    } else if count == 2 {
        "II"@
    } else if count == 3 {
        "III"@
    } else {
        "IV"@
    }
}

/// The Roman rendering of a positive year number: thousands as repeated
/// `M`, then each decimal step down through 500, 100, 50, 10, 5 and 1 with
/// its own figure.
pub open spec fn spec_roman(year: int) -> Seq<char> {
    let thousands = year / 1000;
    let below_thousands = year % 1000;
    let five_hundreds = below_thousands / 500;
    let below_five_hundreds = below_thousands % 500;
    let hundreds = below_five_hundreds / 100;
    let below_hundreds = below_five_hundreds % 100;
    let fifties = below_hundreds / 50;
    let below_fifties = below_hundreds % 50;
    let tens = below_fifties / 10;
    let below_tens = below_fifties % 10;
    let fives = below_tens / 5;
    let units = below_tens % 5;
    spec_repeat_char('M', thousands) + (if five_hundreds == 1 {
        "D"@
    } else {
        Seq::<char>::empty()
    }) + spec_roman_hundreds(hundreds) + (if fifties == 1 {
        "L"@
    } else {
        Seq::<char>::empty()
    }) + spec_roman_tens(tens) + (if fives == 1 {
        "V"@
    } else {
        Seq::<char>::empty()
    }) + spec_roman_units(units)
}

/// Returns the one-character string of a decimal digit value.
fn digit_str(d: i64) -> (r: &'static str)
    requires
        0 <= d <= 9,
    ensures
        r@ == seq![spec_digit_char(d as int)],
{
    proof {
        reveal_strlit("0");
        reveal_strlit("1");
        reveal_strlit("2");
        reveal_strlit("3");
        reveal_strlit("4");
        reveal_strlit("5");
        reveal_strlit("6");
        reveal_strlit("7");
        reveal_strlit("8");
        reveal_strlit("9");
    }
    let r: &'static str = if d == 0 {
        "0"
    } else if d == 1 {
        "1"
    } else if d == 2 {
        "2"
    } else if d == 3 {
        "3"
    } else if d == 4 {
        "4"
    } else if d == 5 {
        "5"
    } else if d == 6 {
        "6"
    } else if d == 7 {
        "7"
    } else if d == 8 {
        "8"
    } else {
        "9"
    };
    proof {
        assert(r@ =~= seq![spec_digit_char(d as int)]);
    }
    r
}

/// Returns the decimal digits of a non-negative value.
fn decimal_digits_string(n: i64) -> (r: String)
    requires
        n >= 0,
    ensures
        r@ == spec_decimal_digits(n as int),
    decreases n,
{
    if n < 10 {
        digit_str(n).to_owned()
    } else {
        let mut s: String = decimal_digits_string(n / 10);
        s.append(digit_str(n % 10));
        proof {
            assert(s@ =~= spec_decimal_digits(n as int));
        }
        s
    }
}

/// Returns the decimal rendering of a value, with a leading minus sign when
/// it is negative.
pub fn decimal_string(n: i64) -> (r: String)
    requires
        n > i64::MIN,
    ensures
        r@ == spec_decimal(n as int),
{
    if n < 0 {
        let mut s: String = "-".to_owned();
        s.append(decimal_digits_string(-n).as_str());
        proof {
            reveal_strlit("-");
            assert(s@ =~= spec_decimal(n as int));
        }
        s
    } else {
        decimal_digits_string(n)
    }
}

/// Returns the character `M` repeated the given number of times.
fn repeat_m(count: i64) -> (r: String)
    requires
        count >= 0,
    ensures
        r@ == spec_repeat_char('M', count as int),
{
    let mut s: String = String::new();
    let mut i: i64 = 0;
    while i < count
        invariant
            0 <= i <= count,
            s@ == spec_repeat_char('M', i as int),
        decreases count - i,
    {
        s.append("M");
        proof {
            reveal_strlit("M");
            assert(s@ =~= spec_repeat_char('M', i as int + 1));
        }
        i = i + 1;
    }
    s
}

/// Returns the Roman rendering of a positive year number.
pub fn roman_string(year: i64) -> (r: String)
    requires
        year >= 1,
    ensures
        r@ == spec_roman(year as int),
{
    let thousands: i64 = year / 1000;
    let below_thousands: i64 = year % 1000;
    let five_hundreds: i64 = below_thousands / 500;
    let below_five_hundreds: i64 = below_thousands % 500;
    let hundreds: i64 = below_five_hundreds / 100;
    let below_hundreds: i64 = below_five_hundreds % 100;
    let fifties: i64 = below_hundreds / 50;
    let below_fifties: i64 = below_hundreds % 50;
    let tens: i64 = below_fifties / 10;
    let below_tens: i64 = below_fifties % 10;
    let fives: i64 = below_tens / 5;
    let units: i64 = below_tens % 5;
    let mut s: String = repeat_m(thousands);
    if five_hundreds == 1 {
        s.append("D");
    }
    if hundreds == 1 {
        s.append("C");
    } else if hundreds == 2 {
        s.append("CC");
    } else if hundreds == 3 {
        s.append("CCC");
    } else if hundreds == 4 {
        s.append("CD");
    }
    if fifties == 1 {
        s.append("L");
    }
    if tens == 1 {
        s.append("X");
    } else if tens == 2 {
        s.append("XX");
    } else if tens == 3 {
        s.append("XXX");
    } else if tens == 4 {
        s.append("XL");
    }
    if fives == 1 {
        s.append("V");
    }
    if units == 1 {
        s.append("I");
    } else if units == 2 {
        s.append("II");
    } else if units == 3 {
        s.append("III");
    } else if units == 4 {
        s.append("IV");
    }
    proof {
        assert(s@ =~= spec_roman(year as int));
    }
    s
}

} // verus!
