//! The numeric range literal lexer: unsigned 64-bit integers written in
//! decimal, hexadecimal (`0x...`) or octal (leading `0`), and inclusive
//! ranges of two such integers separated by `..`.

use vstd::prelude::*;

use crate::lex::{
    digit_run, expect, is_ascii_hex_digit, lex_digits, parse_number, parse_outcome, span,
    LexErrorKind, LexResult, ParseIntErrorKind,
};

verus! {

/// What lexing an unsigned 64-bit integer from `s` yields: a value and how
/// many characters it consumed, a missing digit run starting at `at`, or a
/// failed radix parse over the span `[lo, hi)`.
pub enum U64LexOutcome {
    /// A value, consuming `consumed` characters.
    Value {
        /// The lexed integer.
        value: u64,
        /// How many characters were consumed.
        consumed: int,
    },
    /// No digits where a digit run was required; the error span is the rest
    /// of the input from `at`.
    NoDigits {
        /// Where the missing digit run was expected.
        at: int,
    },
    /// A digit run did not parse; the error span is `[lo, hi)`.
    BadInt {
        /// Why the parse failed.
        kind: ParseIntErrorKind,
        /// The radix the run was parsed in.
        radix: u32,
        /// Start of the error span.
        lo: int,
        /// End of the error span.
        hi: int,
    },
}

/// The lexing of an unsigned 64-bit integer: a `0x` prefix selects
/// hexadecimal, else a leading `0` octal, else decimal; a leading `-` is
/// consumed into the decimal digit span, where the radix parse then rejects
/// it (the widest plausible token is lexed and numeric conversion rejects
/// it).
pub open spec fn lex_u64_spec(s: Seq<char>) -> U64LexOutcome {
    if s.len() >= 2 && s[0] == '0' && s[1] == 'x' {
        let t = s.skip(2);
        let run = digit_run(t);
        if run == 0 {
            U64LexOutcome::NoDigits { at: 2 }
        } else {
            match parse_outcome(t.take(run), 16) {
                Ok(v) => U64LexOutcome::Value { value: v, consumed: 2 + run },
                Err(k) => U64LexOutcome::BadInt { kind: k, radix: 16, lo: 2, hi: 2 + run },
            }
        }
    } else if s.len() >= 1 && s[0] == '0' {
        let run = digit_run(s);
        match parse_outcome(s.take(run), 8) {
            Ok(v) => U64LexOutcome::Value { value: v, consumed: run },
            Err(k) => U64LexOutcome::BadInt { kind: k, radix: 8, lo: 0, hi: run },
        }
    } else {
        let neg: int = if s.len() >= 1 && s[0] == '-' {
            1
        } else {
            0
        };
        let t = s.skip(neg);
        let run = digit_run(t);
        if run == 0 {
            U64LexOutcome::NoDigits { at: neg }
        } else {
            match parse_outcome(s.take(neg + run), 10) {
                Ok(v) => U64LexOutcome::Value { value: v, consumed: neg + run },
                Err(k) => U64LexOutcome::BadInt { kind: k, radix: 10, lo: 0, hi: neg + run },
            }
        }
    }
}

/// Every position `lex_u64_spec` mentions lies within the input.
pub proof fn lemma_lex_u64_spec_bounds(s: Seq<char>)
    ensures
        match lex_u64_spec(s) {
            U64LexOutcome::Value { value, consumed } => 0 <= consumed <= s.len(),
            U64LexOutcome::NoDigits { at } => 0 <= at <= s.len(),
            U64LexOutcome::BadInt { kind, radix, lo, hi } => 0 <= lo <= hi <= s.len(),
        },
{
    if s.len() >= 2 && s[0] == '0' && s[1] == 'x' {
        crate::lex::lemma_digit_run_le_len(s.skip(2));
    } else if s.len() >= 1 && s[0] == '0' {
        crate::lex::lemma_digit_run_le_len(s);
    } else {
        let neg: int = if s.len() >= 1 && s[0] == '-' {
            1
        } else {
            0
        };
        crate::lex::lemma_digit_run_le_len(s.skip(neg));
    }
}

/// Lexes an unsigned 64-bit integer from the front of the input.
pub fn lex_u64<'i>(input: &'i str) -> (r: LexResult<'i, u64>)
    ensures
        match lex_u64_spec(input@) {
            U64LexOutcome::Value { value, consumed } => r matches Ok(p) && p.0 == value && p.1@
                == input@.skip(consumed),
            U64LexOutcome::NoDigits { at } => r matches Err((e, sp)) && (
            e matches LexErrorKind::ExpectedName { name } && name@ == "digit"@) && sp@
                == input@.skip(at),
            U64LexOutcome::BadInt { kind, radix, lo, hi } => r matches Err((e, sp)) && e == (
            LexErrorKind::ParseInt { kind, radix }) && sp@ == input@.subrange(lo, hi),
        },
{
    proof {
        reveal_strlit("0x");
        reveal_strlit("-");
        lemma_lex_u64_spec_bounds(input@);
    }
    match expect(input, "0x") {
        Ok(after) => {
            proof {
                assert(input@.len() >= 2 && input@[0] == '0' && input@[1] == 'x') by {
                    assert("0x"@ == input@.take(2));
                    assert("0x"@[0] == '0' && "0x"@[1] == 'x');
                    assert(input@.take(2)[0] == input@[0] && input@.take(2)[1] == input@[1]);
                };
                assert(after@ =~= input@.skip(2));
            }
            let ghost t = input@.skip(2);
            let ghost run = digit_run(t);
            match lex_digits(after) {
                Ok((digits, rest)) => {
                    proof {
                        crate::lex::lemma_digit_run_le_len(t);
                        assert(digits@ =~= t.take(run));
                        assert(rest@ =~= input@.skip(2 + run));
                        assert(t.take(run) =~= input@.subrange(2, 2 + run));
                    }
                    parse_number(digits, rest, 16)
                },
                Err(e) => {
                    proof {
                        crate::lex::lemma_digit_run_le_len(t);
                    }
                    Err(e)
                },
            }
        },
        Err(_) => {
            proof {
                assert(!(input@.len() >= 2 && input@[0] == '0' && input@[1] == 'x')) by {
                    if input@.len() >= 2 && input@[0] == '0' && input@[1] == 'x' {
                        assert("0x"@ =~= input@.take(2));
                    }
                };
            }
            let n = input.unicode_len();
            if n > 0 && input.get_char(0) == '0' {
                let ghost run = digit_run(input@);
                match lex_digits(input) {
                    Ok((digits, rest)) => {
                        proof {
                            crate::lex::lemma_digit_run_le_len(input@);
                            assert(digits@ =~= input@.subrange(0, run));
                        }
                        parse_number(digits, rest, 8)
                    },
                    Err(e) => {
                        proof {
                            // a leading zero is itself a digit, so the run is never empty
                            crate::lex::lemma_digit_run_le_len(input@.skip(1));
                            assert(is_ascii_hex_digit(input@[0]));
                            assert(digit_run(input@) >= 1);
                        }
                        Err(e)
                    },
                }
            } else {
                let without_neg = match expect(input, "-") {
                    Ok(w) => {
                        proof {
                            assert(input@.len() >= 1 && input@[0] == '-') by {
                                assert("-"@ == input@.take(1));
                                assert("-"@[0] == '-');
                                assert(input@.take(1)[0] == input@[0]);
                            };
                            assert(w@ =~= input@.skip(1));
                        }
                        w
                    },
                    Err(_) => {
                        proof {
                            assert(!(input@.len() >= 1 && input@[0] == '-')) by {
                                if input@.len() >= 1 && input@[0] == '-' {
                                    assert("-"@ =~= input@.take(1));
                                }
                            };
                            assert(input@.skip(0) =~= input@);
                        }
                        input
                    },
                };
                let ghost neg: int = if input@.len() >= 1 && input@[0] == '-' {
                    1int
                } else {
                    0int
                };
                let ghost t = input@.skip(neg);
                let ghost run = digit_run(t);
                proof {
                    assert(without_neg@ == t);
                    crate::lex::lemma_digit_run_le_len(t);
                }
                match lex_digits(without_neg) {
                    Ok((_digits, rest)) => {
                        proof {
                            assert(rest@ =~= input@.skip(neg + run));
                        }
                        let sp = span(input, rest);
                        proof {
                            assert(sp@ =~= input@.take(neg + run));
                            assert(input@.take(neg + run) =~= input@.subrange(0, neg + run));
                        }
                        parse_number(sp, rest, 10)
                    },
                    Err(e) => {
                        proof {
                            crate::lex::lemma_digit_run_le_len(t);
                        }
                        Err(e)
                    },
                }
            }
        },
    }
}

} // verus!

verus! {

/// An inclusive range of unsigned 64-bit integers; a single integer literal
/// is the degenerate range of itself.
#[derive(Debug, Clone, Copy, PartialEq, Eq, Hash, Structural)]
pub struct UlongRange {
    /// The lower bound.
    pub first: u64,
    /// The upper bound.
    pub last: u64,
}

impl UlongRange {
    /// The lower bound never exceeds the upper bound.
    pub open spec fn wf(&self) -> bool {
        self.first <= self.last
    }
}

impl From<u64> for UlongRange {
    /// The degenerate range holding exactly `i`.
    fn from(i: u64) -> (r: Self) {
        UlongRange { first: i, last: i }
    }
}

impl vstd::std_specs::convert::FromSpecImpl<u64> for UlongRange {
    open spec fn obeys_from_spec() -> bool {
        true
    }

    open spec fn from_spec(i: u64) -> Self {
        UlongRange { first: i, last: i }
    }
}

/// What lexing a range literal from `s` yields: the integer-lexing outcomes
/// lifted to absolute positions, plus the bound-order failure.
pub enum RangeLexOutcome {
    /// A range, consuming `consumed` characters.
    Value {
        /// The lower bound.
        first: u64,
        /// The upper bound, at least the lower one.
        last: u64,
        /// How many characters were consumed.
        consumed: int,
    },
    /// No digits where a digit run was required.
    NoDigits {
        /// Where the missing digit run was expected.
        at: int,
    },
    /// A digit run did not parse; the error span is `[lo, hi)`.
    BadInt {
        /// Why the parse failed.
        kind: ParseIntErrorKind,
        /// The radix the run was parsed in.
        radix: u32,
        /// Start of the error span.
        lo: int,
        /// End of the error span.
        hi: int,
    },
    /// The upper bound was below the lower one; the error span is the whole
    /// lexed literal, `[0, consumed)`.
    Incompatible {
        /// How many characters the offending literal spans.
        consumed: int,
    },
}

/// The lexing of a range literal: an integer, optionally followed by `..` and
/// a second integer; without the second the range collapses to the first
/// value, and an upper bound strictly below the lower one fails with an
/// incompatible-bounds error spanning the whole literal. Equal bounds are
/// legal.
pub open spec fn lex_range_spec(s: Seq<char>) -> RangeLexOutcome {
    match lex_u64_spec(s) {
        U64LexOutcome::NoDigits { at } => RangeLexOutcome::NoDigits { at },
        U64LexOutcome::BadInt { kind, radix, lo, hi } => RangeLexOutcome::BadInt {
            kind,
            radix,
            lo,
            hi,
        },
        U64LexOutcome::Value { value: first, consumed: c1 } => {
            let t = s.skip(c1);
            if t.len() >= 2 && t[0] == '.' && t[1] == '.' {
                match lex_u64_spec(s.skip(c1 + 2)) {
                    U64LexOutcome::NoDigits { at } => RangeLexOutcome::NoDigits {
                        at: c1 + 2 + at,
                    },
                    U64LexOutcome::BadInt { kind, radix, lo, hi } => RangeLexOutcome::BadInt {
                        kind,
                        radix,
                        lo: c1 + 2 + lo,
                        hi: c1 + 2 + hi,
                    },
                    U64LexOutcome::Value { value: last, consumed: c2 } => {
                        if last < first {
                            RangeLexOutcome::Incompatible { consumed: c1 + 2 + c2 }
                        } else {
                            RangeLexOutcome::Value { first, last, consumed: c1 + 2 + c2 }
                        }
                    },
                }
            } else {
                RangeLexOutcome::Value { first, last: first, consumed: c1 }
            }
        },
    }
}

impl UlongRange {
    /// Lexes a range literal from the front of the input. A lexed range is
    /// well formed: its lower bound never exceeds its upper bound.
    pub fn lex<'i>(input: &'i str) -> (r: LexResult<'i, UlongRange>)
        ensures
            match lex_range_spec(input@) {
                RangeLexOutcome::Value { first, last, consumed } => r matches Ok(p) && p.0 == (
                UlongRange { first, last }) && p.0.wf() && p.1@ == input@.skip(consumed),
                RangeLexOutcome::NoDigits { at } => r matches Err((e, sp)) && (
                e matches LexErrorKind::ExpectedName { name } && name@ == "digit"@) && sp@
                    == input@.skip(at),
                RangeLexOutcome::BadInt { kind, radix, lo, hi } => r matches Err((e, sp)) && e == (
                LexErrorKind::ParseInt { kind, radix }) && sp@ == input@.subrange(lo, hi),
                RangeLexOutcome::Incompatible { consumed } => r matches Err((e, sp)) && e
                    == LexErrorKind::IncompatibleRangeBounds && sp@ == input@.take(consumed),
            },
    {
        proof {
            reveal_strlit("..");
            lemma_lex_u64_spec_bounds(input@);
        }
        let initial_input = input;
        let (first, after_first) = match lex_u64(input) {
            Ok(p) => p,
            Err(e) => {
                return Err(e);
            },
        };
        let ghost c1 = match lex_u64_spec(input@) {
            U64LexOutcome::Value { value, consumed } => consumed,
            _ => 0int,
        };
        let ghost t = input@.skip(c1);
        let (last, after_last) = match expect(after_first, "..") {
            Ok(after_dots) => {
                proof {
                    assert(t.len() >= 2 && t[0] == '.' && t[1] == '.') by {
                        assert(".."@ == after_first@.take(2));
                        assert(".."@[0] == '.' && ".."@[1] == '.');
                        assert(after_first@.take(2)[0] == t[0] && after_first@.take(2)[1] == t[1]);
                    };
                    assert(after_dots@ =~= input@.skip(c1 + 2));
                    lemma_lex_u64_spec_bounds(input@.skip(c1 + 2));
                }
                let ghost u = input@.skip(c1 + 2);
                match lex_u64(after_dots) {
                    Ok(p) => {
                        proof {
                            match lex_u64_spec(u) {
                                U64LexOutcome::Value { value, consumed } => {
                                    assert(p.1@ =~= input@.skip(c1 + 2 + consumed));
                                },
                                _ => {},
                            }
                        }
                        p
                    },
                    Err((e, sp)) => {
                        proof {
                            match lex_u64_spec(u) {
                                U64LexOutcome::NoDigits { at } => {
                                    assert(sp@ =~= input@.skip(c1 + 2 + at));
                                },
                                U64LexOutcome::BadInt { kind, radix, lo, hi } => {
                                    assert(sp@ =~= input@.subrange(c1 + 2 + lo, c1 + 2 + hi));
                                },
                                _ => {},
                            }
                        }
                        return Err((e, sp));
                    },
                }
            },
            Err(_) => {
                proof {
                    assert(!(t.len() >= 2 && t[0] == '.' && t[1] == '.')) by {
                        if t.len() >= 2 && t[0] == '.' && t[1] == '.' {
                            assert(".."@ =~= after_first@.take(2));
                        }
                    };
                }
                (first, after_first)
            },
        };
        if last < first {
            let sp = span(initial_input, after_last);
            proof {
                match lex_range_spec(input@) {
                    RangeLexOutcome::Incompatible { consumed } => {
                        assert(sp@ =~= input@.take(consumed));
                    },
                    _ => {},
                }
            }
            return Err((LexErrorKind::IncompatibleRangeBounds, sp));
        }
        Ok((UlongRange { first, last }, after_last))
    }
}

} // verus!

verus! {

/// Digit characters carry their digit value.
proof fn lemma_digit_char_value(d: nat)
    requires
        d < 16,
    ensures
        is_ascii_hex_digit(crate::digits::digit_char(d)),
        crate::lex::digit_value(crate::digits::digit_char(d)) == d,
{
}

/// Appending one digit to a scanned run multiplies the value by the radix
/// and adds the digit, unless that leaves the 64-bit range.
proof fn lemma_parse_scan_snoc(s: Seq<char>, d: char, radix: u32, i: int, acc: u64)
    requires
        0 <= i <= s.len(),
    ensures
        crate::lex::parse_scan(s, radix, i, acc) matches Ok(v) ==> crate::lex::parse_scan(
            s.push(d),
            radix,
            i,
            acc,
        ) == (if !crate::lex::is_radix_digit(d, radix) {
            Err::<u64, ParseIntErrorKind>(ParseIntErrorKind::InvalidDigit)
        } else if v * radix + crate::lex::digit_value(d) > u64::MAX {
            Err::<u64, ParseIntErrorKind>(ParseIntErrorKind::PosOverflow)
        } else {
            Ok::<u64, ParseIntErrorKind>((v * radix + crate::lex::digit_value(d)) as u64)
        }),
    decreases s.len() - i,
{
    let t = s.push(d);
    if i == s.len() {
        assert(t[i] == d);
        assert(crate::lex::parse_scan(s, radix, i, acc) == Ok::<u64, ParseIntErrorKind>(acc));
        if crate::lex::is_radix_digit(d, radix) && acc * radix + crate::lex::digit_value(d)
            <= u64::MAX {
            let acc2: u64 = (acc * radix + crate::lex::digit_value(d)) as u64;
            assert(crate::lex::parse_scan(t, radix, i + 1, acc2) == Ok::<u64, ParseIntErrorKind>(
                acc2,
            ));
        }
    } else {
        assert(t[i] == s[i]);
        if crate::lex::is_radix_digit(s[i], radix) && acc * radix + crate::lex::digit_value(s[i])
            <= u64::MAX {
            lemma_parse_scan_snoc(
                s,
                d,
                radix,
                i + 1,
                ((acc * radix + crate::lex::digit_value(s[i])) as u64),
            );
        }
    }
}

/// Scanning a concatenation from the boundary is scanning the tail.
proof fn lemma_parse_scan_shift(pre: Seq<char>, t: Seq<char>, radix: u32, j: int, acc: u64)
    requires
        0 <= j <= t.len(),
    ensures
        crate::lex::parse_scan(pre + t, radix, pre.len() + j, acc) == crate::lex::parse_scan(
            t,
            radix,
            j,
            acc,
        ),
    decreases t.len() - j,
{
    let u = pre + t;
    if j == t.len() {
    } else {
        assert(u[pre.len() + j] == t[j]);
        if crate::lex::is_radix_digit(t[j], radix) && acc * radix + crate::lex::digit_value(t[j])
            <= u64::MAX {
            lemma_parse_scan_shift(
                pre,
                t,
                radix,
                j + 1,
                ((acc * radix + crate::lex::digit_value(t[j])) as u64),
            );
        }
    }
}

/// The positional representation of a value parses back to that value: every
/// character is a digit of the radix, the leading one is nonzero for nonzero
/// values, and the scan recovers the value exactly.
proof fn lemma_repr_digits(n: u64, radix: u32)
    requires
        radix == 8 || radix == 10 || radix == 16,
    ensures
        ({
            let rep = crate::digits::repr_in_radix(n as nat, radix as nat);
            &&& rep.len() >= 1
            &&& forall|k: int|
                0 <= k < rep.len() ==> crate::lex::is_radix_digit(#[trigger] rep[k], radix)
            &&& n > 0 ==> rep[0] != '0'
            &&& crate::lex::parse_scan(rep, radix, 0, 0) == Ok::<u64, ParseIntErrorKind>(n)
        }),
    decreases n,
{
    let rep = crate::digits::repr_in_radix(n as nat, radix as nat);
    if n < radix as u64 {
        lemma_digit_char_value(n as nat);
        assert(rep =~= seq![crate::digits::digit_char(n as nat)]);
        assert(crate::lex::parse_scan(rep, radix, 1, n) == Ok::<u64, ParseIntErrorKind>(n));
    } else {
        let q: u64 = n / radix as u64;
        let m: u64 = n % radix as u64;
        let prev = crate::digits::repr_in_radix(q as nat, radix as nat);
        assert(q as nat == n as nat / radix as nat);
        assert(m as nat == n as nat % radix as nat);
        lemma_repr_digits(q, radix);
        assert(rep =~= prev.push(crate::digits::digit_char(m as nat)));
        lemma_digit_char_value(m as nat);
        vstd::arithmetic::div_mod::lemma_fundamental_div_mod(n as int, radix as int);
        assert(q * radix + m == n) by (nonlinear_arith)
            requires
                n >= radix && (radix == 8 || radix == 10 || radix == 16) && q == n / radix as u64
                    && m == n % radix as u64,
        ;
        lemma_parse_scan_snoc(prev, crate::digits::digit_char(m as nat), radix, 0, 0);
        assert(q >= 1) by (nonlinear_arith)
            requires
                n >= radix && (radix == 8 || radix == 10 || radix == 16) && q == n / radix as u64,
        ;
        assert(rep[0] == prev[0]);
    }
}

/// Law: a decimal representation followed by anything that cannot extend its
/// digit run lexes back to exactly the represented value, consuming exactly
/// the representation.
pub proof fn lemma_lex_recovers_decimal_prefix(n: u64, tail: Seq<char>)
    requires
        tail.len() > 0 ==> !is_ascii_hex_digit(tail[0]) && tail[0] != 'x',
    ensures
        ({
            let rep = crate::digits::dec_repr(n as nat);
            lex_u64_spec(rep + tail) matches U64LexOutcome::Value { value, consumed } && value == n
                && consumed == rep.len()
        }),
{
    let rep = crate::digits::dec_repr(n as nat);
    let s = rep + tail;
    lemma_repr_digits(n, 10);
    assert(s.len() == rep.len() + tail.len());
    assert(forall|k: int| 0 <= k < rep.len() ==> s[k] == rep[k]);
    assert forall|k: int| 0 <= k < rep.len() implies is_ascii_hex_digit(s[k]) by {
        assert(crate::lex::is_radix_digit(rep[k], 10));
    }
    assert(rep.len() < s.len() ==> s[rep.len() as int] == tail[0]);
    if n == 0 {
        // a representation "0" takes the octal path; the single zero still
        // parses to zero
        assert(rep =~= seq![crate::digits::digit_char(0)]);
        assert(s[0] == '0');
        assert(s.len() >= 2 ==> s[1] != 'x');
        crate::lex::lemma_digit_run_is(s, 1);
        assert(s.take(1) =~= rep);
        lemma_repr_digits(0, 8);
        assert(crate::digits::repr_in_radix(0, 8) =~= rep);
        assert(crate::lex::parse_outcome(s.take(1), 8) == Ok::<u64, ParseIntErrorKind>(0u64));
    } else {
        assert(rep[0] != '0');
        assert(s[0] == rep[0]);
        assert(crate::lex::is_radix_digit(rep[0], 10));
        assert(s[0] != '0');
        assert(s[0] != '-') by {
            assert(is_ascii_hex_digit(rep[0]));
        };
        crate::lex::lemma_digit_run_is(s, rep.len() as int);
        assert(s.skip(0) =~= s);
        assert(s.take(rep.len() as int) =~= rep);
        assert(crate::lex::parse_outcome(rep, 10) == Ok::<u64, ParseIntErrorKind>(n));
    }
}

/// Law: for every unsigned 64-bit value, lexing its decimal representation
/// recovers it exactly, consuming the whole representation.
pub proof fn lemma_lex_recovers_decimal(n: u64)
    ensures
        ({
            let rep = crate::digits::dec_repr(n as nat);
            lex_u64_spec(rep) matches U64LexOutcome::Value { value, consumed } && value == n
                && consumed == rep.len()
        }),
{
    let rep = crate::digits::dec_repr(n as nat);
    lemma_lex_recovers_decimal_prefix(n, Seq::empty());
    assert(rep + Seq::<char>::empty() =~= rep);
}

/// Law: for every unsigned 64-bit value, lexing `0x` followed by its
/// hexadecimal representation recovers it exactly, consuming everything.
pub proof fn lemma_lex_recovers_hex(n: u64)
    ensures
        ({
            let s = "0x"@ + crate::digits::repr_in_radix(n as nat, 16);
            lex_u64_spec(s) matches U64LexOutcome::Value { value, consumed } && value == n
                && consumed == s.len()
        }),
{
    reveal_strlit("0x");
    let rep = crate::digits::repr_in_radix(n as nat, 16);
    let s = "0x"@ + rep;
    lemma_repr_digits(n, 16);
    assert(s[0] == '0' && s[1] == 'x');
    assert(s.len() >= 2);
    let t = s.skip(2);
    assert(t =~= rep);
    assert forall|k: int| 0 <= k < t.len() implies is_ascii_hex_digit(t[k]) by {
        assert(crate::lex::is_radix_digit(rep[k], 16));
    }
    crate::lex::lemma_digit_run_is(t, t.len() as int);
    assert(t.take(t.len() as int) =~= rep);
    assert(crate::lex::parse_outcome(rep, 16) == Ok::<u64, ParseIntErrorKind>(n));
}

/// Law: for every unsigned 64-bit value, lexing `0` followed by its octal
/// representation recovers it exactly, consuming everything.
pub proof fn lemma_lex_recovers_octal(n: u64)
    ensures
        ({
            let s = "0"@ + crate::digits::repr_in_radix(n as nat, 8);
            lex_u64_spec(s) matches U64LexOutcome::Value { value, consumed } && value == n
                && consumed == s.len()
        }),
{
    reveal_strlit("0");
    let rep = crate::digits::repr_in_radix(n as nat, 8);
    let s = "0"@ + rep;
    lemma_repr_digits(n, 8);
    assert(s[0] == '0');
    assert(s[1] == rep[0]);
    assert(crate::lex::is_radix_digit(rep[0], 8));
    assert(s[1] != 'x');
    assert forall|k: int| 0 <= k < s.len() implies is_ascii_hex_digit(s[k]) by {
        if k == 0 {
            lemma_digit_char_value(0);
        } else {
            assert(s[k] == rep[k - 1]);
            assert(crate::lex::is_radix_digit(rep[k - 1], 8));
        }
    }
    crate::lex::lemma_digit_run_is(s, s.len() as int);
    assert(s.take(s.len() as int) =~= s);
    // scanning the leading zero leaves the accumulator at zero, and the rest
    // is the representation itself
    lemma_digit_char_value(0);
    assert(s[0] == '0' && crate::lex::digit_value('0') == 0);
    assert(crate::lex::parse_scan(s, 8, 0, 0) == crate::lex::parse_scan(s, 8, 1, 0));
    let pre = seq!['0'];
    assert(s =~= pre + rep);
    lemma_parse_scan_shift(pre, rep, 8, 0, 0);
    assert(crate::lex::parse_scan(s, 8, 1, 0) == crate::lex::parse_scan(rep, 8, 0, 0));
    assert(crate::lex::parse_outcome(s, 8) == Ok::<u64, ParseIntErrorKind>(n));
}

/// Law: for bounds written in decimal, `a..b` lexes to the inclusive range
/// from `a` to `b` when `a <= b`, consuming the whole literal; when `a > b`
/// it fails with the incompatible-bounds error whose span is the whole
/// literal.
pub proof fn lemma_lex_range_ordered(a: u64, b: u64)
    ensures
        ({
            let s = crate::digits::dec_repr(a as nat) + ".."@ + crate::digits::dec_repr(b as nat);
            &&& a <= b ==> (lex_range_spec(s) matches RangeLexOutcome::Value {
                first,
                last,
                consumed,
            } && first == a && last == b && consumed == s.len())
            &&& a > b ==> (lex_range_spec(s) matches RangeLexOutcome::Incompatible { consumed }
                && consumed == s.len())
        }),
{
    reveal_strlit("..");
    let rep_a = crate::digits::dec_repr(a as nat);
    let rep_b = crate::digits::dec_repr(b as nat);
    let tail = ".."@ + rep_b;
    let s = rep_a + ".."@ + rep_b;
    assert(s =~= rep_a + tail);
    assert(".."@[0] == '.' && ".."@[1] == '.');
    assert(tail[0] == '.');
    assert(!is_ascii_hex_digit('.'));
    lemma_lex_recovers_decimal_prefix(a, tail);
    let c1 = rep_a.len() as int;
    let t = s.skip(c1);
    assert(t =~= tail);
    assert(t.len() >= 2 && t[0] == '.' && t[1] == '.');
    let u = s.skip(c1 + 2);
    assert(u =~= rep_b);
    lemma_lex_recovers_decimal(b);
    assert(lex_u64_spec(u) matches U64LexOutcome::Value { value, consumed } && value == b
        && consumed == rep_b.len());
}

} // verus!

verus! {

/// Relies on `core::ops::RangeInclusive::start`: it returns the range's
/// lower bound as it was constructed.
pub assume_specification<Idx>[ core::ops::RangeInclusive::<Idx>::start ](
    r: &core::ops::RangeInclusive<Idx>,
) -> (s: &Idx)
    ensures
        *s == r@.start,
;

/// Relies on `core::ops::RangeInclusive::end`: it returns the range's upper
/// bound as it was constructed.
pub assume_specification<Idx>[ core::ops::RangeInclusive::<Idx>::end ](
    r: &core::ops::RangeInclusive<Idx>,
) -> (e: &Idx)
    ensures
        *e == r@.end,
;

impl From<core::ops::RangeInclusive<u64>> for UlongRange {
    /// The range with the same bounds.
    fn from(r: core::ops::RangeInclusive<u64>) -> (u: Self) {
        UlongRange { first: *r.start(), last: *r.end() }
    }
}

impl vstd::std_specs::convert::FromSpecImpl<core::ops::RangeInclusive<u64>> for UlongRange {
    open spec fn obeys_from_spec() -> bool {
        true
    }

    open spec fn from_spec(r: core::ops::RangeInclusive<u64>) -> Self {
        UlongRange { first: r@.start, last: r@.end }
    }
}

impl From<UlongRange> for core::ops::RangeInclusive<u64> {
    /// The inclusive range with the same bounds.
    fn from(u: UlongRange) -> (r: Self)
        ensures
            r@.start == u.first,
            r@.end == u.last,
    {
        core::ops::RangeInclusive::new(u.first, u.last)
    }
}

impl vstd::std_specs::convert::FromSpecImpl<UlongRange> for core::ops::RangeInclusive<u64> {
    open spec fn obeys_from_spec() -> bool {
        false
    }

    open spec fn from_spec(u: UlongRange) -> Self {
        vstd::pervasive::arbitrary()
    }
}

} // verus!
