//! Digit characters and positional representations of unsigned integers,
//! shared by the context debug formatter and the numeric-literal laws.

use vstd::prelude::*;

verus! {

/// The digit character for `d`, which must be below sixteen; letters are
/// lower case.
pub open spec fn digit_char(d: nat) -> char {
    if d == 0 {
        '0'
    } else if d == 1 {
        '1'
    } else if d == 2 {
        '2'
    } else if d == 3 {
        '3'
    } else if d == 4 {
        '4'
    } else if d == 5 {
        '5'
    } else if d == 6 {
        '6'
    } else if d == 7 {
        '7'
    } else if d == 8 {
        '8'
    } else if d == 9 {
        '9'
    } else if d == 10 {
        'a'
    } else if d == 11 {
        'b'
    } else if d == 12 {
        'c'
    } else if d == 13 {
        'd'
    } else if d == 14 {
        'e'
    } else {
        'f'
    }
}

/// The representation of `n` in the given radix, without leading zeros
/// (except for zero itself); letters are lower case.
pub open spec fn repr_in_radix(n: nat, radix: nat) -> Seq<char>
    recommends
        2 <= radix <= 16,
    decreases n,
    via repr_in_radix_decreases
{
    if radix < 2 {
        Seq::empty()
    } else if n < radix {
        seq![digit_char(n)]
    } else {
        repr_in_radix(n / radix, radix).push(digit_char(n % radix))
    }
}

#[via_fn]
proof fn repr_in_radix_decreases(n: nat, radix: nat) {
    assert(radix >= 2 && n >= radix ==> n / radix < n) by (nonlinear_arith);
}

/// The decimal representation of `n`, without leading zeros (except for zero
/// itself).
pub open spec fn dec_repr(n: nat) -> Seq<char> {
    repr_in_radix(n, 10)
}

/// The single-character string for the decimal digit `d`.
pub fn digit_str(d: u64) -> (r: &'static str)
    requires
        d < 10,
    ensures
        r@ == seq![digit_char(d as nat)],
{
    proof {
        reveal_strlit("0");
        reveal_strlit("1");
        reveal_strlit("2");
        reveal_strlit("3");
        reveal_strlit("4");
        reveal_strlit("5");
        reveal_strlit("6");
        reveal_strlit("7");
        reveal_strlit("8");
        reveal_strlit("9");
    }
    let r: &'static str = if d == 0 {
        "0"
    } else if d == 1 {
        "1"
    } else if d == 2 {
        "2"
    } else if d == 3 {
        "3"
    } else if d == 4 {
        "4"
    } else if d == 5 {
        "5"
    } else if d == 6 {
        "6"
    } else if d == 7 {
        "7"
    } else if d == 8 {
        "8"
    } else {
        "9"
    };
    proof {
        assert(r@ =~= seq![digit_char(d as nat)]);
    }
    r
}

/// Formats `n` in decimal, without leading zeros.
pub fn u64_to_dec_string(n: u64) -> (s: String)
    ensures
        s@ == dec_repr(n as nat),
    decreases n,
{
    if n < 10 {
        digit_str(n).to_owned()
    } else {
        let mut s = u64_to_dec_string(n / 10);
        s.append(digit_str(n % 10));
        s
    }
}

} // verus!
