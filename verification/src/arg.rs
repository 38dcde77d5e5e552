//! Low-level token classification: one raw byte token becomes a positional
//! argument, the end-of-options marker, or a named option with an optional
//! inline value.

use vstd::prelude::*;
use vstd::utf8::{
    decode_utf8, is_leading_byte_width_1, partial_valid_utf8, partial_valid_utf8_extend_ascii_block,
    valid_utf8,
};

verus! {

/// The dash byte, `-`.
pub const DASH: u8 = 45;

/// The equals-sign byte, `=`.
pub const EQUALS: u8 = 61;

/// Whether `b` is a byte allowed in an option name: an ASCII letter, digit,
/// hyphen, or underscore.
pub open spec fn is_name_byte(b: u8) -> bool {
    ||| 97 <= b <= 122  // 'a' ..= 'z'
    ||| 65 <= b <= 90  // 'A' ..= 'Z'
    ||| 48 <= b <= 57  // '0' ..= '9'
    ||| b == DASH
    ||| b == 95  // '_'
}

/// Whether `b` may appear in an option name.
pub fn is_arg_name(b: u8) -> (r: bool)
    ensures
        r == is_name_byte(b),
{
    (97 <= b && b <= 122) || (65 <= b && b <= 90) || (48 <= b && b <= 57) || b == DASH || b == 95
}

/// A well-formed option name: non-empty, made of name bytes only, and
/// neither starting nor ending with a hyphen.
pub open spec fn valid_name(name: Seq<u8>) -> bool {
    &&& name.len() > 0
    &&& forall|i: int| 0 <= i < name.len() ==> is_name_byte(#[trigger] name[i])
    &&& name[0] != DASH
    &&& name[name.len() - 1] != DASH
}

/// The index of the first `=` byte in `s`, or `s.len()` if there is none.
pub open spec fn equals_pos(s: Seq<u8>) -> int
    decreases s.len(),
{
    if s.len() == 0 {
        0
    } else if s[0] == EQUALS {
        0
    } else {
        1 + equals_pos(s.drop_first())
    }
}

/// Any index with no `=` before it, and `=` at it or the end of the
/// sequence, is `equals_pos`.
proof fn lemma_equals_pos_unique(s: Seq<u8>, i: int)
    requires
        0 <= i <= s.len(),
        forall|j: int| 0 <= j < i ==> s[j] != EQUALS,
        i < s.len() ==> s[i] == EQUALS,
    ensures
        equals_pos(s) == i,
    decreases s.len(),
{
    if i == 0 {
    } else {
        assert(s[0] != EQUALS);
        assert(forall|j: int| 0 <= j < i - 1 ==> s.drop_first()[j] == s[j + 1]);
        lemma_equals_pos_unique(s.drop_first(), i - 1);
    }
}

/// The name part of an option body: everything before the first `=`, or the
/// whole body when there is no `=`.
pub open spec fn split_name(body: Seq<u8>) -> Seq<u8> {
    body.take(equals_pos(body))
}

/// The inline value of an option body: everything after the first `=`, or
/// nothing when there is no `=`. An empty value after `=` is distinct from
/// no value at all.
pub open spec fn split_value(body: Seq<u8>) -> Option<Seq<u8>> {
    if equals_pos(body) < body.len() {
        Some(body.skip(equals_pos(body) + 1))
    } else {
        None
    }
}

/// The body of an option token: the token with one or two leading dashes
/// removed. Single and double dashes are equivalent beyond this point.
pub open spec fn option_body(t: Seq<u8>) -> Seq<u8>
    recommends
        t.len() >= 2,
        t[0] == DASH,
{
    if t[1] == DASH {
        t.skip(2)
    } else {
        t.skip(1)
    }
}

/// The mathematical shape of a classified token.
#[verifier::ext_equal]
pub enum ParsedArgView {
    /// Shape of [`ParsedArg::Positional`].
    Positional(Seq<u8>),
    /// Shape of [`ParsedArg::EndOfFlags`].
    EndOfFlags,
    /// Shape of [`ParsedArg::Named`].
    Named(Seq<char>, Option<Seq<u8>>),
}

/// What classification returns for a raw token: positional tokens come back
/// unchanged, the two-byte token `--` is the end-of-options marker, and an
/// option token splits into a validated name and an optional inline value.
/// A token in option shape whose name is invalid is rejected, the original
/// token returned unaltered.
pub open spec fn classify(t: Seq<u8>) -> Result<ParsedArgView, Seq<u8>> {
    if t.len() < 2 || t[0] != DASH {
        Ok(ParsedArgView::Positional(t))
    } else if t.len() == 2 && t[1] == DASH {
        Ok(ParsedArgView::EndOfFlags)
    } else {
        let body = option_body(t);
        let name = split_name(body);
        if valid_name(name) {
            Ok(ParsedArgView::Named(decode_utf8(name), split_value(body)))
        } else {
            Err(t)
        }
    }
}

/// A single command-line argument which has been classified.
#[derive(Debug, PartialEq, Eq)]
pub enum ParsedArg {
    /// A positional argument.
    Positional(Vec<u8>),
    /// The `--` argument.
    EndOfFlags,
    /// A named option, such as `-opt` or `-opt=value`.
    ///
    /// The leading dashes are removed from the name.
    Named(String, Option<Vec<u8>>),
}

impl View for ParsedArg {
    type V = ParsedArgView;

    open spec fn view(&self) -> ParsedArgView {
        match self {
            ParsedArg::Positional(t) => ParsedArgView::Positional(t@),
            ParsedArg::EndOfFlags => ParsedArgView::EndOfFlags,
            ParsedArg::Named(name, value) => ParsedArgView::Named(
                name@,
                match value {
                    Some(v) => Some(v@),
                    None => None,
                },
            ),
        }
    }
}

/// A sequence made of name bytes is ASCII, hence valid UTF-8.
proof fn lemma_name_bytes_utf8(s: Seq<u8>)
    requires
        forall|i: int| 0 <= i < s.len() ==> is_name_byte(#[trigger] s[i]),
    ensures
        valid_utf8(s),
{
    assert(forall|i: int| 0 <= i < s.len() ==> is_leading_byte_width_1(#[trigger] s[i]));
    assert(s.subrange(0, 0) =~= Seq::<u8>::empty());
    assert(valid_utf8(s.subrange(0, 0)));
    assert(partial_valid_utf8(s, 0));
    partial_valid_utf8_extend_ascii_block(s, 0, s.len() as int);
    assert(s.subrange(0, s.len() as int) =~= s);
}

/// Relies on str::from_utf8: it succeeds exactly on valid UTF-8 input and
/// decodes it according to the UTF-8 rules that vstd's model states.
#[verifier::external_body]
pub(crate) fn utf8_string(v: &Vec<u8>) -> (r: Option<String>)
    ensures
        match r {
            Some(s) => valid_utf8(v@) && s@ == decode_utf8(v@),
            None => !valid_utf8(v@),
        },
{
    match std::str::from_utf8(v.as_slice()) {
        Ok(s) => Some(s.to_string()),
        Err(_) => None,
    }
}

/// Classify one raw token. On failure the original token is returned
/// unchanged, so the caller can report it.
#[verifier::loop_isolation(false)]
pub fn parse_arg(t: Vec<u8>) -> (r: Result<ParsedArg, Vec<u8>>)
    ensures
        match r {
            Ok(p) => classify(t@) == Ok::<ParsedArgView, Seq<u8>>(p@),
            Err(w) => w@ == t@ && classify(t@) == Err::<ParsedArgView, Seq<u8>>(t@),
        },
{
    if t.len() < 2 || t[0] != DASH {
        return Ok(ParsedArg::Positional(t));
    }
    let body_start: usize = if t[1] != DASH {
        1
    } else if t.len() == 2 {
        return Ok(ParsedArg::EndOfFlags);
    } else {
        2
    };
    let ghost body = option_body(t@);
    proof {
        assert(body =~= t@.skip(body_start as int));
    }

    // Find the first `=` byte in the body.
    let mut i: usize = body_start;
    while i < t.len() && t[i] != EQUALS
        invariant
            body_start <= i <= t.len(),
            forall|j: int| body_start <= j < i ==> t@[j] != EQUALS,
        decreases t.len() - i,
    {
        i += 1;
    }
    proof {
        assert(forall|j: int| 0 <= j < body.len() ==> body[j] == t@[j + body_start]);
        lemma_equals_pos_unique(body, i - body_start);
    }

    // Copy out and validate the name.
    let mut name_bytes: Vec<u8> = Vec::new();
    let mut j: usize = body_start;
    while j < i
        invariant
            body_start <= j <= i <= t.len(),
            name_bytes@ =~= t@.subrange(body_start as int, j as int),
        decreases i - j,
    {
        let b = t[j];
        name_bytes.push(b);
        j += 1;
    }
    proof {
        assert(name_bytes@ =~= split_name(body));
    }
    if name_bytes.len() == 0 {
        return Err(t);
    }
    if name_bytes[0] == DASH || name_bytes[name_bytes.len() - 1] == DASH {
        return Err(t);
    }
    let mut k: usize = 0;
    while k < name_bytes.len()
        invariant
            0 <= k <= name_bytes@.len(),
            forall|m: int| 0 <= m < k ==> is_name_byte(#[trigger] name_bytes@[m]),
        decreases name_bytes.len() - k,
    {
        if !is_arg_name(name_bytes[k]) {
            return Err(t);
        }
        k += 1;
    }
    proof {
        assert(valid_name(name_bytes@));
    }

    // The name is ASCII, so decoding it as UTF-8 cannot fail.
    let name = match utf8_string(&name_bytes) {
        Some(s) => s,
        None => {
            proof {
                lemma_name_bytes_utf8(name_bytes@);
            }
            unreached()
        },
    };

    // Copy out the inline value, if the body contains an `=`.
    let value: Option<Vec<u8>> = if i < t.len() {
        let mut value_bytes: Vec<u8> = Vec::new();
        let mut m: usize = i + 1;
        while m < t.len()
            invariant
                i + 1 <= m <= t.len(),
                value_bytes@ =~= t@.subrange(i + 1, m as int),
            decreases t.len() - m,
        {
            let b = t[m];
            value_bytes.push(b);
            m += 1;
        }
        proof {
            assert(split_value(body) == Some(body.skip(equals_pos(body) + 1)));
            assert(value_bytes@ =~= body.skip(equals_pos(body) + 1));
        }
        Some(value_bytes)
    } else {
        proof {
            assert(split_value(body) is None);
        }
        None
    };
    Ok(ParsedArg::Named(name, value))
}

} // verus!
