use filter_engine::digits::u64_to_dec_string;
use filter_engine::lex::{expect, lex_digits, parse_number, LexErrorKind, ParseIntErrorKind};
use filter_engine::ulong::{lex_u64, UlongRange};

#[test]
fn test() {
    assert_eq!(lex_u64("0"), Ok((0u64, "")));
    assert_eq!(lex_u64("0-"), Ok((0u64, "-")));
    assert_eq!(lex_u64("0x1f5+"), Ok((501u64, "+")));
    assert_eq!(lex_u64("0123;"), Ok((83u64, ";")));
    assert_eq!(lex_u64("78!"), Ok((78u64, "!")));
    assert_eq!(lex_u64("0xefg"), Ok((239u64, "g")));
    assert_eq!(lex_u64("2147483648!"), Ok((2147483648u64, "!")));
    assert_eq!(lex_u64("0xffffffffffffffff!"), Ok((0xffffffffffffffffu64, "!")));
    assert_eq!(
        lex_u64("-12-"),
        Err((
            LexErrorKind::ParseInt { kind: ParseIntErrorKind::InvalidDigit, radix: 10 },
            "-12"
        ))
    );
    assert_eq!(
        lex_u64("-2147483649!"),
        Err((
            LexErrorKind::ParseInt { kind: ParseIntErrorKind::InvalidDigit, radix: 10 },
            "-2147483649"
        ))
    );
    assert_eq!(
        lex_u64("10fex"),
        Err((
            LexErrorKind::ParseInt { kind: ParseIntErrorKind::InvalidDigit, radix: 10 },
            "10fe"
        ))
    );
    assert_eq!(UlongRange::lex("78!"), Ok((78u64.into(), "!")));
    assert_eq!(UlongRange::lex("0..10"), Ok(((0u64..=10u64).into(), "")));
    assert_eq!(UlongRange::lex("0123..0xefg"), Ok(((83u64..=239u64).into(), "g")));
    assert_eq!(
        UlongRange::lex("10..0"),
        Err((LexErrorKind::IncompatibleRangeBounds, "10..0"))
    );
}

#[test]
fn lexer_reports_missing_digits_and_overflow() {
    assert_eq!(
        lex_u64(""),
        Err((LexErrorKind::ExpectedName { name: "digit" }, ""))
    );
    assert_eq!(
        lex_u64("x1"),
        Err((LexErrorKind::ExpectedName { name: "digit" }, "x1"))
    );
    assert_eq!(
        lex_u64("0xg"),
        Err((LexErrorKind::ExpectedName { name: "digit" }, "g"))
    );
    assert_eq!(
        lex_u64("18446744073709551616"),
        Err((
            LexErrorKind::ParseInt { kind: ParseIntErrorKind::PosOverflow, radix: 10 },
            "18446744073709551616"
        ))
    );
    assert_eq!(
        lex_u64("0x10000000000000000"),
        Err((
            LexErrorKind::ParseInt { kind: ParseIntErrorKind::PosOverflow, radix: 16 },
            "10000000000000000"
        ))
    );
    assert_eq!(
        lex_u64("0778"),
        Err((
            LexErrorKind::ParseInt { kind: ParseIntErrorKind::InvalidDigit, radix: 8 },
            "0778"
        ))
    );
}

#[test]
fn range_literals_lex_and_convert() {
    assert_eq!(UlongRange::lex("5..5"), Ok((UlongRange { first: 5, last: 5 }, "")));
    assert_eq!(
        UlongRange::lex("0xff..0xffff rest"),
        Ok((UlongRange { first: 255, last: 65535 }, " rest"))
    );
    assert_eq!(
        UlongRange::lex("9..8"),
        Err((LexErrorKind::IncompatibleRangeBounds, "9..8"))
    );
    assert_eq!(
        UlongRange::lex("1..x"),
        Err((LexErrorKind::ExpectedName { name: "digit" }, "x"))
    );

    let range: std::ops::RangeInclusive<u64> = UlongRange { first: 2, last: 9 }.into();
    assert_eq!(range, 2u64..=9u64);
    let back: UlongRange = (2u64..=9u64).into();
    assert_eq!(back, UlongRange { first: 2, last: 9 });
}

#[test]
fn decimal_formatting_round_trips_through_the_lexer() {
    assert_eq!(u64_to_dec_string(0), "0".to_owned());
    assert_eq!(u64_to_dec_string(42), "42".to_owned());
    assert_eq!(
        u64_to_dec_string(18446744073709551615),
        "18446744073709551615".to_owned()
    );
    for n in [0u64, 1, 9, 10, 99, 12345, 18446744073709551615] {
        let text = u64_to_dec_string(n);
        assert_eq!(lex_u64(&text), Ok((n, "")));
    }
}

#[test]
fn lex_primitives_report_their_errors() {
    assert_eq!(expect("0x1f", "0x"), Ok("1f"));
    assert_eq!(
        expect("abc", ".."),
        Err((LexErrorKind::ExpectedLiteral { literal: ".." }, "abc"))
    );
    assert_eq!(lex_digits("1fz"), Ok(("1f", "z")));
    assert_eq!(
        lex_digits("zz"),
        Err((LexErrorKind::ExpectedName { name: "digit" }, "zz"))
    );
    assert_eq!(parse_number("1f", "z", 16), Ok((31u64, "z")));
    assert_eq!(
        parse_number("", "", 10),
        Err((
            LexErrorKind::ParseInt { kind: ParseIntErrorKind::Empty, radix: 10 },
            ""
        ))
    );
}
