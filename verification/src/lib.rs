//! A small command-line argument lexer over raw byte tokens.
//!
//! The library turns an ordered sequence of raw argument tokens (arbitrary
//! byte strings, not necessarily valid Unicode) into a stream of positional
//! arguments and named options. Single and double leading dashes are
//! equivalent: `-help` and `--help` name the same option, and `-abc` is one
//! option named `abc`, never three. An option's value may be attached inline
//! (`-opt=value`) or supplied as the following token (`-opt value`); the
//! choice is resolved only when the caller asks for the value, through a
//! one-shot handle that is consumed by the first resolving call. The bare
//! token `--` ends option parsing: everything after it is positional.
//!
//! Every operation carries a contract that pins its result down, stated
//! over the byte-sequence model of the token stream; the properties that
//! hold of classification and of the stream as a whole are proved in
//! [`laws`].

pub mod arg;
pub mod error;
pub mod laws;
pub mod stream;

pub use arg::{is_arg_name, parse_arg, ParsedArg};
pub use error::{OptionError, UsageError};
pub use stream::{Arg, Args, NamedArgument, Value};
