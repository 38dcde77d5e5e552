//! The argument stream and the value-consumption protocol, driven end to
//! end the way an application would.

use simpleargs::{Arg, Args, OptionError, UsageError};
use std::str::FromStr;

fn tokens(args: &[&str]) -> Vec<Vec<u8>> {
    args.iter().map(|s| s.as_bytes().to_vec()).collect()
}

#[derive(Debug, PartialEq, Eq)]
struct Parsed {
    positional: Vec<String>,
    flag: bool,
    xvalue: Option<i32>,
}

fn parse_args(args: &[&str]) -> Result<Parsed, UsageError> {
    let mut stream = Args::from(tokens(args));
    let mut positional = Vec::new();
    let mut flag = false;
    let mut xvalue = None;
    loop {
        match stream.next() {
            Arg::Positional(x) => positional.push(String::from_utf8(x).unwrap()),
            Arg::Named(arg) => {
                if arg.name().as_str() == "flag" {
                    arg.require_no_value()?;
                    flag = true;
                } else if arg.name().as_str() == "x" {
                    let value = arg.require_value(&mut stream)?;
                    let text = match value.as_str() {
                        Ok(text) => text,
                        Err(err) => return Err(value.fail(err)),
                    };
                    match i32::from_str(&text) {
                        Ok(n) => xvalue = Some(n),
                        Err(err) => {
                            return Err(value.fail(OptionError::InvalidValue(err.to_string())))
                        }
                    }
                } else {
                    return Err(arg.unknown());
                }
            }
            Arg::End => break,
            Arg::Error(err) => return Err(err),
        }
    }
    Ok(Parsed {
        positional,
        flag,
        xvalue,
    })
}

#[test]
fn success() {
    match parse_args(&["abc", "--flag", "-x=10", "--", "--", "--arg"]) {
        Err(err) => panic!("err: {:?}", err),
        Ok(r) => assert_eq!(
            r,
            Parsed {
                positional: vec!["abc".to_owned(), "--".to_owned(), "--arg".to_owned()],
                flag: true,
                xvalue: Some(10),
            }
        ),
    }
}

#[test]
fn no_param() {
    let r = parse_args(&["--x"]);
    if let Err(e) = &r {
        if let UsageError::InvalidOption { name, value, err } = e {
            assert_eq!(name, "x");
            assert!(value.is_none());
            if let OptionError::MissingParameter = err {
                return;
            }
        }
    }
    panic!("incorrect result: {:?}", r);
}

#[test]
fn bad_param() {
    let r = parse_args(&["-x", "0q"]);
    if let Err(e) = &r {
        if let UsageError::InvalidOption { name, value, err } = e {
            assert_eq!(name, "x");
            assert_eq!(value, &Some(b"0q".to_vec()));
            if let OptionError::InvalidValue(_) = err {
                return;
            }
        }
    }
    panic!("incorrect result: {:?}", r);
}
