//! The argument stream and the value-consumption protocol.
//!
//! [`Args`] is a cursor over the raw token sequence. It classifies tokens
//! while option parsing is active, and hands every remaining token back as
//! positional once the end-of-options marker has been seen. A named option
//! comes back as a one-shot [`NamedArgument`] handle: the caller either
//! requires it to carry no value, or requires a value, which is taken from
//! the inline part or pulled from the stream as the next raw token. Each
//! resolving call consumes the handle, so asking twice is impossible by
//! construction.

use crate::arg::{classify, parse_arg, ParsedArg, ParsedArgView};
use crate::error::{OptionError, OptionErrorView, UsageError, UsageErrorView};
use vstd::prelude::*;
use vstd::utf8::{decode_utf8, valid_utf8};

verus! {

/// The mathematical state of an argument stream: the tokens not yet
/// consumed, in order, and whether option parsing is still active.
#[verifier::ext_equal]
pub struct ArgsView {
    /// The raw tokens not yet consumed, leftmost first.
    pub remaining: Seq<Seq<u8>>,
    /// Whether tokens in option shape are still classified as options.
    /// Once false it never becomes true again.
    pub options_enabled: bool,
}

/// A stream of raw argument tokens.
pub struct Args {
    tokens: Vec<Vec<u8>>,
    options_enabled: bool,
}

impl View for Args {
    type V = ArgsView;

    closed spec fn view(&self) -> ArgsView {
        ArgsView {
            remaining: Seq::new(self.tokens@.len(), |i: int| self.tokens@[i]@),
            options_enabled: self.options_enabled,
        }
    }
}

/// The mathematical shape of a [`NamedArgument`].
#[verifier::ext_equal]
pub struct NamedArgumentView {
    /// The validated option name, without leading dashes.
    pub name: Seq<char>,
    /// The inline value, when the token carried one. An empty inline value
    /// (`-opt=`) is distinct from no value (`-opt`).
    pub value: Option<Seq<u8>>,
}

/// A named option waiting to be resolved.
///
/// The handle is consumed by the first resolving call
/// ([`require_value`](NamedArgument::require_value),
/// [`require_no_value`](NamedArgument::require_no_value) or
/// [`unknown`](NamedArgument::unknown)), so a second resolution cannot be
/// expressed.
#[derive(Debug)]
pub struct NamedArgument {
    name: String,
    data: Option<Vec<u8>>,
}

/// The mathematical shape of a [`Value`].
#[verifier::ext_equal]
pub struct ValueView {
    /// The name of the option the value belongs to.
    pub name: Seq<char>,
    /// The raw bytes of the value.
    pub data: Seq<u8>,
}

/// A resolved option value: raw bytes, owned together with the option name
/// so that errors can name both.
#[derive(Debug)]
pub struct Value {
    name: String,
    data: Vec<u8>,
}

/// The mathematical shape of one step of the stream.
#[verifier::ext_equal]
pub enum ArgView {
    /// Shape of [`Arg::Positional`].
    Positional(Seq<u8>),
    /// Shape of [`Arg::Named`].
    Named(NamedArgumentView),
    /// Shape of [`Arg::End`].
    End,
    /// Shape of [`Arg::Error`].
    Error(UsageErrorView),
}

/// A single argument in a stream of arguments.
#[derive(Debug)]
pub enum Arg {
    /// A positional argument.
    Positional(Vec<u8>),
    /// A named option, possibly with an associated value.
    Named(NamedArgument),
    /// End of the argument stream.
    End,
    /// Invalid argument syntax.
    Error(UsageError),
}

impl View for NamedArgument {
    type V = NamedArgumentView;

    closed spec fn view(&self) -> NamedArgumentView {
        NamedArgumentView {
            name: self.name@,
            value: match self.data {
                Some(ref v) => Some(v@),
                None => None,
            },
        }
    }
}

impl View for Value {
    type V = ValueView;

    closed spec fn view(&self) -> ValueView {
        ValueView { name: self.name@, data: self.data@ }
    }
}

impl View for Arg {
    type V = ArgView;

    open spec fn view(&self) -> ArgView {
        match self {
            Arg::Positional(t) => ArgView::Positional(t@),
            Arg::Named(n) => ArgView::Named(n@),
            Arg::End => ArgView::End,
            Arg::Error(e) => ArgView::Error(e@),
        }
    }
}

/// One step of the stream: the state after the step and the event it
/// yields. The stream is exhausted only when the sequence is; the
/// end-of-options marker flips `options_enabled` off forever and is itself
/// never surfaced, the token after it (if any) coming back positional.
pub open spec fn next_spec(s: ArgsView) -> (ArgsView, ArgView) {
    if s.remaining.len() == 0 {
        (s, ArgView::End)
    } else {
        let t = s.remaining[0];
        let rest = ArgsView { remaining: s.remaining.skip(1), options_enabled: s.options_enabled };
        if !s.options_enabled {
            (rest, ArgView::Positional(t))
        } else {
            match classify(t) {
                Err(w) => (rest, ArgView::Error(UsageErrorView::InvalidArgument { arg: w })),
                Ok(ParsedArgView::Positional(p)) => (rest, ArgView::Positional(p)),
                Ok(ParsedArgView::EndOfFlags) => {
                    if rest.remaining.len() == 0 {
                        (ArgsView { remaining: rest.remaining, options_enabled: false }, ArgView::End)
                    } else {
                        (
                            ArgsView { remaining: rest.remaining.skip(1), options_enabled: false },
                            ArgView::Positional(rest.remaining[0]),
                        )
                    }
                },
                Ok(ParsedArgView::Named(name, value)) => (
                    rest,
                    ArgView::Named(NamedArgumentView { name, value }),
                ),
            }
        }
    }
}

impl Args {
    /// Create an argument stream from a token sequence. The program name
    /// should not be included.
    pub fn from(tokens: Vec<Vec<u8>>) -> (r: Args)
        ensures
            r@.remaining == Seq::new(tokens@.len(), |i: int| tokens@[i]@),
            r@.options_enabled,
    {
        Args { tokens, options_enabled: true }
    }

    /// Give back the remaining unparsed tokens in the stream.
    pub fn rest(self) -> (r: Vec<Vec<u8>>)
        ensures
            Seq::new(r@.len(), |i: int| r@[i]@) == self@.remaining,
    {
        proof {
            assert(Seq::new(self.tokens@.len(), |i: int| self.tokens@[i]@) =~= self@.remaining);
        }
        self.tokens
    }

    /// Get the next argument in the stream: one step of [`next_spec`].
    #[verifier::loop_isolation(false)]
    pub fn next(&mut self) -> (a: Arg)
        ensures
            final(self)@ == next_spec(old(self)@).0,
            a@ == next_spec(old(self)@).1,
    {
        if self.tokens.len() == 0 {
            return Arg::End;
        }
        let t = self.tokens.remove(0);
        proof {
            assert(self@.remaining =~= old(self)@.remaining.skip(1));
        }
        if !self.options_enabled {
            return Arg::Positional(t);
        }
        match parse_arg(t) {
            Err(w) => Arg::Error(UsageError::InvalidArgument { arg: w }),
            Ok(ParsedArg::Positional(p)) => Arg::Positional(p),
            Ok(ParsedArg::EndOfFlags) => {
                self.options_enabled = false;
                if self.tokens.len() == 0 {
                    Arg::End
                } else {
                    let ghost before = self@.remaining;
                    let p = self.tokens.remove(0);
                    proof {
                        assert(self@.remaining =~= before.skip(1));
                    }
                    Arg::Positional(p)
                }
            },
            Ok(ParsedArg::Named(name, data)) => Arg::Named(NamedArgument { name, data }),
        }
    }
}

impl NamedArgument {
    /// The option name, without leading dashes.
    pub fn name(&self) -> (r: &String)
        ensures
            r@ == self@.name,
    {
        &self.name
    }

    /// Require that the option came without a value.
    ///
    /// Succeeds exactly when no inline value was present; otherwise fails
    /// with [`OptionError::UnexpectedParameter`], consuming nothing from the
    /// stream. Consumes the handle either way.
    pub fn require_no_value(self) -> (r: Result<(), UsageError>)
        ensures
            match r {
                Ok(()) => self@.value is None,
                Err(e) => self@.value is Some && e@ == (UsageErrorView::InvalidOption {
                    name: self@.name,
                    value: self@.value,
                    err: OptionErrorView::UnexpectedParameter,
                }),
            },
    {
        match self.data {
            None => Ok(()),
            Some(v) => Err(
                UsageError::InvalidOption {
                    name: self.name,
                    value: Some(v),
                    err: OptionError::UnexpectedParameter,
                },
            ),
        }
    }

    /// Require the option's value.
    ///
    /// The inline value is returned when one was present. Otherwise exactly
    /// one raw token is pulled from the stream, without re-classification,
    /// even if it looks like an option; when the stream is exhausted the
    /// call fails with [`OptionError::MissingParameter`]. Consumes the
    /// handle, so the stream can never be pulled twice for one option.
    pub fn require_value(self, args: &mut Args) -> (r: Result<Value, UsageError>)
        ensures
            match self@.value {
                Some(v) => {
                    &&& r matches Ok(val) && val@ == (ValueView { name: self@.name, data: v })
                    &&& final(args)@ == old(args)@
                },
                None => {
                    if old(args)@.remaining.len() > 0 {
                        &&& r matches Ok(val) && val@ == (ValueView {
                            name: self@.name,
                            data: old(args)@.remaining[0],
                        })
                        &&& final(args)@ == (ArgsView {
                            remaining: old(args)@.remaining.skip(1),
                            options_enabled: old(args)@.options_enabled,
                        })
                    } else {
                        &&& r matches Err(e) && e@ == (UsageErrorView::InvalidOption {
                            name: self@.name,
                            value: None,
                            err: OptionErrorView::MissingParameter,
                        })
                        &&& final(args)@ == old(args)@
                    }
                },
            },
    {
        match self.data {
            Some(v) => Ok(Value { name: self.name, data: v }),
            None => {
                if args.tokens.len() > 0 {
                    let ghost before = args@;
                    let v = args.tokens.remove(0);
                    proof {
                        assert(args@.remaining =~= before.remaining.skip(1));
                        assert(args@ =~= (ArgsView {
                            remaining: before.remaining.skip(1),
                            options_enabled: before.options_enabled,
                        }));
                    }
                    Ok(Value { name: self.name, data: v })
                } else {
                    Err(
                        UsageError::InvalidOption {
                            name: self.name,
                            value: None,
                            err: OptionError::MissingParameter,
                        },
                    )
                }
            },
        }
    }

    /// Report that the option name matched nothing the caller recognizes.
    ///
    /// Consumes the handle; the inline value, if any, is carried into the
    /// error without ever being read.
    pub fn unknown(self) -> (e: UsageError)
        ensures
            e@ == (UsageErrorView::InvalidOption {
                name: self@.name,
                value: self@.value,
                err: OptionErrorView::Unknown,
            }),
    {
        UsageError::InvalidOption { name: self.name, value: self.data, err: OptionError::Unknown }
    }
}

impl Value {
    /// The raw bytes of the value.
    pub fn bytes(&self) -> (r: &Vec<u8>)
        ensures
            r@ == self@.data,
    {
        &self.data
    }

    /// The value as a string, when its bytes are valid Unicode.
    ///
    /// Ownership of the bytes stays with the handle, so a later error can
    /// still carry them.
    pub fn as_str(&self) -> (r: Result<String, OptionError>)
        ensures
            match r {
                Ok(s) => valid_utf8(self@.data) && s@ == decode_utf8(self@.data),
                Err(e) => !valid_utf8(self@.data) && e@ == OptionErrorView::InvalidUnicode,
            },
    {
        match crate::arg::utf8_string(&self.data) {
            Some(s) => Ok(s),
            None => Err(OptionError::InvalidUnicode),
        }
    }

    /// Wrap an option-level error with the option's name and this value,
    /// consuming the handle.
    pub fn fail(self, err: OptionError) -> (e: UsageError)
        ensures
            e@ == (UsageErrorView::InvalidOption {
                name: self@.name,
                value: Some(self@.data),
                err: err@,
            }),
    {
        UsageError::InvalidOption { name: self.name, value: Some(self.data), err }
    }
}

} // verus!
