//! Stream-level behavior: the end-of-options marker, exhaustion, and
//! recovery after a syntax error.

use simpleargs::{Arg, Args, UsageError};

fn tokens(args: &[&[u8]]) -> Vec<Vec<u8>> {
    args.iter().map(|s| s.to_vec()).collect()
}

#[test]
fn end_is_terminal() {
    let mut stream = Args::from(tokens(&[]));
    assert!(matches!(stream.next(), Arg::End));
    assert!(matches!(stream.next(), Arg::End));
    assert!(matches!(stream.next(), Arg::End));
}

#[test]
fn marker_disables_options_permanently() {
    // After `--`, everything is positional, dashes or not; a second `--` is
    // plain text, not a repeated marker.
    let mut stream = Args::from(tokens(&[b"--", b"-a", b"--", b"--b=c", b"-"]));
    let mut seen = Vec::new();
    loop {
        match stream.next() {
            Arg::Positional(p) => seen.push(p),
            Arg::End => break,
            other => panic!("expected positional or end, got {:?}", other),
        }
    }
    assert_eq!(seen, tokens(&[b"-a", b"--", b"--b=c", b"-"]));
}

#[test]
fn marker_at_end_of_stream() {
    let mut stream = Args::from(tokens(&[b"--"]));
    assert!(matches!(stream.next(), Arg::End));
    assert!(matches!(stream.next(), Arg::End));
}

#[test]
fn error_keeps_stream_usable() {
    // A syntax error consumes the bad token and nothing else: the caller
    // may keep draining.
    let mut stream = Args::from(tokens(&[b"-=", b"tail"]));
    match stream.next() {
        Arg::Error(UsageError::InvalidArgument { arg }) => assert_eq!(arg, b"-=".to_vec()),
        other => panic!("expected an invalid-argument error, got {:?}", other),
    }
    match stream.next() {
        Arg::Positional(p) => assert_eq!(p, b"tail".to_vec()),
        other => panic!("expected positional, got {:?}", other),
    }
    assert!(matches!(stream.next(), Arg::End));
}

#[test]
fn rest_returns_unparsed_tokens() {
    let mut stream = Args::from(tokens(&[b"a", b"b", b"c"]));
    assert!(matches!(stream.next(), Arg::Positional(_)));
    assert_eq!(stream.rest(), tokens(&[b"b", b"c"]));
}

#[test]
fn single_and_double_dash_equivalent() {
    // `-name` and `--name` yield the same named option.
    for (single, double) in [
        (&b"-opt"[..], &b"--opt"[..]),
        (b"-opt=v", b"--opt=v"),
        (b"-a_B-9=", b"--a_B-9="),
    ] {
        let mut s1 = Args::from(tokens(&[single]));
        let mut s2 = Args::from(tokens(&[double]));
        match (s1.next(), s2.next()) {
            (Arg::Named(n1), Arg::Named(n2)) => {
                assert_eq!(n1.name(), n2.name());
                let v1 = n1.require_value(&mut s1);
                let v2 = n2.require_value(&mut s2);
                match (v1, v2) {
                    (Ok(v1), Ok(v2)) => assert_eq!(v1.bytes(), v2.bytes()),
                    (Err(e1), Err(e2)) => assert_eq!(e1, e2),
                    _ => panic!("{:?} and {:?} disagree", single, double),
                }
            }
            _ => panic!("{:?} and {:?} did not both classify as named", single, double),
        }
    }
}

#[test]
fn structural_errors_carry_their_payload() {
    // The structural errors are raised by the caller's own bookkeeping; the
    // shared error union carries their payloads unchanged.
    let unexpected = UsageError::UnexpectedArgument {
        arg: b"extra".to_vec(),
    };
    match unexpected {
        UsageError::UnexpectedArgument { arg } => assert_eq!(arg, b"extra".to_vec()),
        other => panic!("unexpected error {:?}", other),
    }
    let missing = UsageError::MissingArgument {
        name: String::from("input"),
    };
    match missing {
        UsageError::MissingArgument { name } => assert_eq!(name, "input"),
        other => panic!("unexpected error {:?}", other),
    }
}
