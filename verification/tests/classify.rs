//! Token classification: the cases a classifier must get right, over both
//! text and non-Unicode byte tokens.

use simpleargs::{is_arg_name, parse_arg, ParsedArg};

fn named(name: &str, value: Option<&[u8]>) -> ParsedArg {
    ParsedArg::Named(name.to_string(), value.map(|v| v.to_vec()))
}

fn check_ok(input: &[u8], expected: ParsedArg) {
    match parse_arg(input.to_vec()) {
        Ok(arg) => assert_eq!(arg, expected, "parse_arg({:?})", input),
        Err(e) => panic!("parse_arg({:?}): got error {:?}, expect {:?}", input, e, expected),
    }
}

fn check_err(input: &[u8]) {
    match parse_arg(input.to_vec()) {
        Ok(arg) => panic!("parse_arg({:?}): got {:?}, expect error", input, arg),
        Err(e) => assert_eq!(e, input.to_vec(), "parse_arg({:?}): token altered", input),
    }
}

fn success_cases() -> Vec<(&'static [u8], ParsedArg)> {
    vec![
        (b"abc", ParsedArg::Positional(b"abc".to_vec())),
        (b"", ParsedArg::Positional(b"".to_vec())),
        (b"-", ParsedArg::Positional(b"-".to_vec())),
        (b"--", ParsedArg::EndOfFlags),
        (b"-a", named("a", None)),
        (b"--a", named("a", None)),
        (b"-a=", named("a", Some(b""))),
        (b"--a=", named("a", Some(b""))),
        (b"--arg-name", named("arg-name", None)),
        (b"--ARG_NAME", named("ARG_NAME", None)),
        (b"--opt=value", named("opt", Some(b"value"))),
    ]
}

const FAIL_CASES: &[&[u8]] = &[b"-\0", b"--\n", b"--\0=", b"-=", b"--=", b"-=value", b"--=xyz"];

#[test]
fn parse_string_success() {
    for (input, expected) in success_cases() {
        check_ok(input, expected);
    }
}

#[test]
fn parse_osstring_success() {
    let mut cases = success_cases();
    cases.push((b"\x80\xff", ParsedArg::Positional(b"\x80\xff".to_vec())));
    cases.push((b"--opt=\xff", named("opt", Some(b"\xff"))));
    for (input, expected) in cases {
        check_ok(input, expected);
    }
}

#[test]
fn parse_string_failure() {
    for &input in FAIL_CASES {
        check_err(input);
    }
}

#[test]
fn parse_osstring_failure() {
    for &input in FAIL_CASES {
        check_err(input);
    }
    check_err(b"--a\xff=x");
    check_err(b"-trailing-");
}

#[test]
fn parse_success() {
    for (input, expected) in success_cases() {
        check_ok(input, expected);
    }
}

#[test]
fn parse_failure() {
    check_err(b"-=");
    check_err(b"--=xyz");
}

#[test]
fn name_charset() {
    for b in 0u16..=255u16 {
        let b = b as u8;
        let expected =
            b.is_ascii_lowercase() || b.is_ascii_uppercase() || b.is_ascii_digit() || b == b'-'
                || b == b'_';
        assert_eq!(is_arg_name(b), expected, "is_arg_name({})", b);
    }
}
