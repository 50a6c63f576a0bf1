//! Rendering of a play length as a `MM:SS` string.
//!
//! The minutes field is not capped: a length of an hour or more renders
//! with a minutes value above 59, padded to at least two digits.

use vstd::prelude::*;

verus! {

/// The character for one decimal digit.
pub open spec fn spec_digit_char(d: int) -> char
    recommends
        0 <= d < 10,
{
    if d == 0 {
        '0'
    } else if d == 1 {
        '1'
    } else if d == 2 {
        '2'
    } else if d == 3 {
        '3'
    } else if d == 4 {
        '4'
    } else if d == 5 {
        '5'
    } else if d == 6 {
        '6'
    } else if d == 7 {
        '7'
    } else if d == 8 {
        '8'
    } else {
        '9'
    }
}

/// The decimal digits of `n`, most significant first, without leading zeros.
pub open spec fn spec_decimal(n: nat) -> Seq<char>
    decreases n,
{
    if n < 10 {
        seq![spec_digit_char(n as int)]
    } else {
        spec_decimal(n / 10).push(spec_digit_char((n % 10) as int))
    }
}

/// The decimal digits of `n`, padded with a leading zero to at least two digits.
pub open spec fn spec_padded2(n: nat) -> Seq<char> {
    if n < 10 {
        seq!['0'] + spec_decimal(n)
    } else {
        spec_decimal(n)
    }
}

/// A second count rendered as minutes and seconds, each padded to two digits,
/// separated by a colon.
pub open spec fn spec_mm_ss(total_secs: nat) -> Seq<char> {
    spec_padded2(total_secs / 60) + seq![':'] + spec_padded2((total_secs % 60) as nat)
}

fn digit_str(d: u64) -> (r: &'static str)
    requires
        d < 10,
    ensures
        r@.len() == 1,
        r@[0] == spec_digit_char(d as int),
{
    proof {
        reveal_strlit("0");
        reveal_strlit("1");
        reveal_strlit("2");
        reveal_strlit("3");
        reveal_strlit("4");
        reveal_strlit("5");
        reveal_strlit("6");
        reveal_strlit("7");
        reveal_strlit("8");
        reveal_strlit("9");
    }
    match d {
        0 => "0",
        1 => "1",
        2 => "2",
        3 => "3",
        4 => "4",
        5 => "5",
        6 => "6",
        7 => "7",
        8 => "8",
        _ => "9",
    }
}

/// `n` written in decimal.
pub fn decimal_string(n: u64) -> (r: String)
    ensures
        r@ == spec_decimal(n as nat),
    decreases n,
{
    if n < 10 {
        let r = String::from_str(digit_str(n));
        proof {
            assert(r@ =~= spec_decimal(n as nat));
        }
        r
    } else {
        let mut s = decimal_string(n / 10);
        s.append(digit_str(n % 10));
        proof {
            assert(s@ =~= spec_decimal(n as nat));
        }
        s
    }
}

/// `n` written in decimal, with a leading zero when it has a single digit.
pub fn padded2_string(n: u64) -> (r: String)
    ensures
        r@ == spec_padded2(n as nat),
{
    if n < 10 {
        let mut s = String::from_str("0");
        s.append(digit_str(n));
        proof {
            reveal_strlit("0");
            assert(s@ =~= spec_padded2(n as nat));
        }
        s
    } else {
        decimal_string(n)
    }
}

/// A second count rendered as `MM:SS`.
pub fn format_mm_ss(total_secs: u64) -> (r: String)
    ensures
        r@ == spec_mm_ss(total_secs as nat),
{
    let mut s = padded2_string(total_secs / 60);
    s.append(":");
    let secs = padded2_string(total_secs % 60);
    s.append(secs.as_str());
    proof {
        reveal_strlit(":");
        assert(s@ =~= spec_mm_ss(total_secs as nat));
    }
    s
}

} // verus!
