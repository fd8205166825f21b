//! Decimal text for the integer quantities that appear in the textual IR:
//! bit widths, vector sizes, aggregate indices, calling-convention numbers
//! and integer constants.

use vstd::prelude::*;

verus! {

/// The decimal digit character for `d`.
pub open spec fn digit_char(d: int) -> char {
    if d == 0 {
        '0'
    } else if d == 1 {
        '1'
    } else if d == 2 {
        '2'
    } else if d == 3 {
        '3'
    } else if d == 4 {
        '4'
    } else if d == 5 {
        '5'
    } else if d == 6 {
        '6'
    } else if d == 7 {
        '7'
    } else if d == 8 {
        '8'
    } else {
        '9'
    }
}

/// The usual decimal rendering of a non-negative integer: most significant
/// digit first, no leading zeros (except for the single digit of zero itself).
pub open spec fn uint_text(n: nat) -> Seq<char>
    decreases n,
{
    if n < 10 {
        seq![digit_char(n as int)]
    } else {
        uint_text(n / 10) + seq![digit_char((n % 10) as int)]
    }
}

/// The usual decimal rendering of an integer: a leading `-` for negative
/// values, then the digits of the magnitude.
pub open spec fn int_text(i: int) -> Seq<char> {
    if i >= 0 {
        uint_text(i as nat)
    } else {
        seq!['-'] + uint_text((-i) as nat)
    }
}

/// The one-character string for the decimal digit `d`.
fn digit_str(d: u128) -> (r: &'static str)
    requires
        d < 10,
    ensures
        r@ == seq![digit_char(d as int)],
{
    proof {
        reveal_strlit("0");
        reveal_strlit("1");
        reveal_strlit("2");
        reveal_strlit("3");
        reveal_strlit("4");
        reveal_strlit("5");
        reveal_strlit("6");
        reveal_strlit("7");
        reveal_strlit("8");
        reveal_strlit("9");
    }
    let r: &'static str = if d == 0 {
        "0"
    } else if d == 1 {
        "1"
    } else if d == 2 {
        "2"
    } else if d == 3 {
        "3"
    } else if d == 4 {
        "4"
    } else if d == 5 {
        "5"
    } else if d == 6 {
        "6"
    } else if d == 7 {
        "7"
    } else if d == 8 {
        "8"
    } else {
        "9"
    };
    proof {
        assert(r@ =~= seq![digit_char(d as int)]);
    }
    r
}

/// Renders `n` in decimal.
pub fn u128_text(n: u128) -> (r: String)
    ensures
        r@ == uint_text(n as nat),
    decreases n,
{
    if n < 10 {
        digit_str(n).to_owned()
    } else {
        let mut s = u128_text(n / 10);
        s.append(digit_str(n % 10));
        s
    }
}

/// Renders `i` in decimal, with a leading `-` when negative.
pub fn i128_text(i: i128) -> (r: String)
    ensures
        r@ == int_text(i as int),
{
    if i >= 0 {
        u128_text(i as u128)
    } else {
        let magnitude: u128 = if i == i128::MIN {
            170141183460469231731687303715884105728u128
        } else {
            (-i) as u128
        };
        assert(magnitude == -(i as int));
        let mut s = String::from_str("-");
        s.append(u128_text(magnitude).as_str());
        proof {
            reveal_strlit("-");
            assert(s@ =~= int_text(i as int));
        }
        s
    }
}

/// Renders `i` in decimal, with a leading `-` when negative.
pub fn i32_text(i: i32) -> (r: String)
    ensures
        r@ == int_text(i as int),
{
    i128_text(i as i128)
}

/// Renders `n` in decimal.
pub fn u64_text(n: u64) -> (r: String)
    ensures
        r@ == uint_text(n as nat),
{
    u128_text(n as u128)
}

} // verus!
