//! Lexing primitives for numeric literals: digit-run scanning, prefix
//! expectation, span recovery, and radix parsing of unsigned 64-bit integers,
//! mirroring the scan order of standard integer parsing (first offending
//! position wins).

use vstd::prelude::*;

verus! {

/// The error kinds the numeric lexers report.
#[derive(Debug, Clone, Copy, PartialEq, Eq)]
pub enum LexErrorKind {
    /// A run of at least one named character class was expected.
    ExpectedName {
        /// What was expected (for example a digit).
        name: &'static str,
    },
    /// A literal token was expected.
    ExpectedLiteral {
        /// The expected token text.
        literal: &'static str,
    },
    /// A digit run did not parse as an unsigned 64-bit integer.
    ParseInt {
        /// Why the parse failed.
        kind: ParseIntErrorKind,
        /// The radix the run was parsed in.
        radix: u32,
    },
    /// A range literal's upper bound was below its lower bound.
    IncompatibleRangeBounds,
}

/// Why a digit run failed to parse as an unsigned 64-bit integer.
#[derive(Debug, Clone, Copy, PartialEq, Eq, Structural)]
pub enum ParseIntErrorKind {
    /// The run was empty.
    Empty,
    /// A character was not a digit of the radix.
    InvalidDigit,
    /// The value does not fit in 64 bits.
    PosOverflow,
}

/// A lex result: the lexed value with the unconsumed rest of the input, or an
/// error kind with the input span it applies to.
pub type LexResult<'i, T> = Result<(T, &'i str), (LexErrorKind, &'i str)>;

/// Whether `c` is a hexadecimal digit (`0-9`, `a-f`, `A-F`); the widest digit
/// class any numeric literal uses.
pub open spec fn is_ascii_hex_digit(c: char) -> bool {
    ('0' as u32 <= c as u32 && c as u32 <= '9' as u32) || ('a' as u32 <= c as u32 && c as u32
        <= 'f' as u32) || ('A' as u32 <= c as u32 && c as u32 <= 'F' as u32)
}

/// The numeric value of a hexadecimal digit character (sixteen for any other
/// character).
pub open spec fn digit_value(c: char) -> int {
    if '0' as u32 <= c as u32 && c as u32 <= '9' as u32 {
        c as u32 - '0' as u32
    } else if 'a' as u32 <= c as u32 && c as u32 <= 'f' as u32 {
        10 + (c as u32 - 'a' as u32)
    } else if 'A' as u32 <= c as u32 && c as u32 <= 'F' as u32 {
        10 + (c as u32 - 'A' as u32)
    } else {
        16
    }
}

/// Whether `c` is a digit of the given radix.
pub open spec fn is_radix_digit(c: char, radix: u32) -> bool {
    is_ascii_hex_digit(c) && digit_value(c) < radix
}

/// The scan a radix parse performs over `s` from position `i` with the value
/// `acc` accumulated so far: the first offending position decides between an
/// invalid digit and an overflow, exactly as the standard parse does.
pub open spec fn parse_scan(s: Seq<char>, radix: u32, i: int, acc: u64) -> Result<
    u64,
    ParseIntErrorKind,
>
    decreases s.len() - i,
{
    if i < 0 || i >= s.len() {
        Ok(acc)
    } else if !is_radix_digit(s[i], radix) {
        Err(ParseIntErrorKind::InvalidDigit)
    } else if acc * radix + digit_value(s[i]) > u64::MAX {
        Err(ParseIntErrorKind::PosOverflow)
    } else {
        parse_scan(s, radix, i + 1, (acc * radix + digit_value(s[i])) as u64)
    }
}

/// What parsing `s` as an unsigned 64-bit integer in the given radix yields.
pub open spec fn parse_outcome(s: Seq<char>, radix: u32) -> Result<u64, ParseIntErrorKind> {
    if s.len() == 0 {
        Err(ParseIntErrorKind::Empty)
    } else {
        parse_scan(s, radix, 0, 0)
    }
}

/// The length of the longest prefix of `s` made of hexadecimal digits.
pub open spec fn digit_run(s: Seq<char>) -> int
    decreases s.len(),
{
    if s.len() == 0 || !is_ascii_hex_digit(s[0]) {
        0
    } else {
        1 + digit_run(s.skip(1))
    }
}

/// The digit run is the position of the first non-digit: knowing every
/// character before `i` is a digit and the one at `i` (if any) is not
/// determines it.
pub proof fn lemma_digit_run_is(s: Seq<char>, i: int)
    requires
        0 <= i <= s.len(),
        forall|k: int| 0 <= k < i ==> is_ascii_hex_digit(s[k]),
        i < s.len() ==> !is_ascii_hex_digit(s[i]),
    ensures
        digit_run(s) == i,
    decreases i,
{
    if i == 0 {
    } else {
        assert(is_ascii_hex_digit(s[0]));
        let t = s.skip(1);
        assert forall|k: int| 0 <= k < i - 1 implies is_ascii_hex_digit(t[k]) by {
            assert(t[k] == s[k + 1]);
        }
        if i - 1 < t.len() {
            assert(t[i - 1] == s[i]);
        }
        lemma_digit_run_is(t, i - 1);
    }
}

/// The digit run never exceeds the sequence's length.
pub proof fn lemma_digit_run_le_len(s: Seq<char>)
    ensures
        0 <= digit_run(s) <= s.len(),
    decreases s.len(),
{
    if s.len() == 0 || !is_ascii_hex_digit(s[0]) {
    } else {
        lemma_digit_run_le_len(s.skip(1));
    }
}

/// Whether `p` is a prefix of `s`.
pub open spec fn is_prefix_of(p: Seq<char>, s: Seq<char>) -> bool {
    p.len() <= s.len() && p == s.take(p.len() as int)
}

/// The numeric value of a hexadecimal digit character, if it is one.
pub fn hex_digit_value(c: char) -> (r: Option<u32>)
    ensures
        (r is Some) == is_ascii_hex_digit(c),
        r matches Some(v) ==> v == digit_value(c),
{
    let u = c as u32;
    if 48 <= u && u <= 57 {
        Some(u - 48)
    } else if 97 <= u && u <= 102 {
        Some(u - 97 + 10)
    } else if 65 <= u && u <= 70 {
        Some(u - 65 + 10)
    } else {
        None
    }
}

/// Consumes the expected literal from the front of the input, or reports at
/// the whole input that the literal was missing.
pub fn expect<'i>(input: &'i str, literal: &'static str) -> (r: Result<
    &'i str,
    (LexErrorKind, &'i str),
>)
    ensures
        is_prefix_of(literal@, input@) ==> (r matches Ok(rest) && rest@ == input@.skip(
            literal@.len() as int,
        )),
        !is_prefix_of(literal@, input@) ==> (r matches Err((e, sp)) && (
        e matches LexErrorKind::ExpectedLiteral { literal: l } && l@ == literal@) && sp@
            == input@),
{
    let np = literal.unicode_len();
    let n = input.unicode_len();
    if np > n {
        return Err((LexErrorKind::ExpectedLiteral { literal }, input));
    }
    let mut i: usize = 0;
    while i < np
        invariant
            np == literal@.len(),
            n == input@.len(),
            np <= n,
            0 <= i <= np,
            forall|k: int| 0 <= k < i ==> input@[k] == literal@[k],
        decreases np - i,
    {
        if input.get_char(i) != literal.get_char(i) {
            proof {
                assert(input@[i as int] != literal@[i as int]);
                assert(!is_prefix_of(literal@, input@)) by {
                    if literal@ == input@.take(np as int) {
                        assert(literal@[i as int] == input@.take(np as int)[i as int]);
                    }
                };
            }
            return Err((LexErrorKind::ExpectedLiteral { literal }, input));
        }
        i += 1;
    }
    proof {
        assert(literal@ =~= input@.take(np as int));
    }
    Ok(input.substring_char(np, n))
}

/// The part of `initial` that was consumed to reach `rest`: its prefix of
/// length `initial` minus `rest`.
pub fn span<'i>(initial: &'i str, rest: &str) -> (r: &'i str)
    requires
        rest@.len() <= initial@.len(),
    ensures
        r@ == initial@.take(initial@.len() - rest@.len()),
{
    let n = initial.unicode_len();
    let m = rest.unicode_len();
    initial.substring_char(0, n - m)
}

/// The position of the first character that is not a hexadecimal digit.
fn first_non_digit(input: &str) -> (i: usize)
    ensures
        0 <= i <= input@.len(),
        forall|k: int| 0 <= k < i ==> is_ascii_hex_digit(input@[k]),
        i < input@.len() ==> !is_ascii_hex_digit(input@[i as int]),
{
    let n = input.unicode_len();
    let mut i: usize = 0;
    while i < n
        invariant
            n == input@.len(),
            0 <= i <= n,
            forall|k: int| 0 <= k < i ==> is_ascii_hex_digit(input@[k]),
        decreases n - i,
    {
        let c = input.get_char(i);
        if hex_digit_value(c).is_none() {
            return i;
        }
        i += 1;
    }
    i
}

/// Splits the input at the end of its leading run of digits (up to radix
/// sixteen, for precise error spans); an empty run is reported as a missing
/// digit at the whole input.
pub fn lex_digits<'i>(input: &'i str) -> (r: LexResult<'i, &'i str>)
    ensures
        digit_run(input@) == 0 ==> (r matches Err((e, sp)) && (
        e matches LexErrorKind::ExpectedName { name } && name@ == "digit"@) && sp@ == input@),
        digit_run(input@) > 0 ==> (r matches Ok((digits, rest)) && digits@ == input@.take(
            digit_run(input@),
        ) && rest@ == input@.skip(digit_run(input@))),
{
    let n = input.unicode_len();
    let i = first_non_digit(input);
    proof {
        lemma_digit_run_is(input@, i as int);
    }
    if i == 0 {
        Err((LexErrorKind::ExpectedName { name: "digit" }, input))
    } else {
        Ok((input.substring_char(0, i), input.substring_char(i, n)))
    }
}

/// Parses a digit run in the given radix as an unsigned 64-bit integer,
/// pairing the value with the given rest of the input; a failure is reported
/// at the digit run itself.
pub fn parse_number<'i>(digits: &'i str, rest: &'i str, radix: u32) -> (r: LexResult<'i, u64>)
    requires
        radix == 8 || radix == 10 || radix == 16,
    ensures
        match parse_outcome(digits@, radix) {
            Ok(v) => r matches Ok(p) && p.0 == v && p.1@ == rest@,
            Err(k) => r matches Err((e, sp)) && e == (LexErrorKind::ParseInt { kind: k, radix })
                && sp@ == digits@,
        },
{
    let n = digits.unicode_len();
    if n == 0 {
        return Err((LexErrorKind::ParseInt { kind: ParseIntErrorKind::Empty, radix }, digits));
    }
    let mut acc: u64 = 0;
    let mut i: usize = 0;
    while i < n
        invariant
            radix == 8 || radix == 10 || radix == 16,
            n == digits@.len(),
            0 <= i <= n,
            parse_scan(digits@, radix, 0, 0) == parse_scan(digits@, radix, i as int, acc),
        decreases n - i,
    {
        let c = digits.get_char(i);
        let d = match hex_digit_value(c) {
            Some(d) => d,
            None => {
                return Err(
                    (LexErrorKind::ParseInt { kind: ParseIntErrorKind::InvalidDigit, radix }, digits),
                );
            },
        };
        if d >= radix {
            return Err(
                (LexErrorKind::ParseInt { kind: ParseIntErrorKind::InvalidDigit, radix }, digits),
            );
        }
        proof {
            assert((acc as int) * (radix as int) + (d as int) <= u64::MAX * 16 + 15) by (nonlinear_arith)
                requires
                    acc <= u64::MAX,
                    radix <= 16,
                    d < 16,
            ;
        }
        let wide: u128 = acc as u128 * radix as u128 + d as u128;
        if wide > u64::MAX as u128 {
            return Err(
                (LexErrorKind::ParseInt { kind: ParseIntErrorKind::PosOverflow, radix }, digits),
            );
        }
        acc = wide as u64;
        i += 1;
    }
    Ok((acc, rest))
}

} // verus!
