//! The closed set of usage errors: every way a token stream or an option
//! value can be invalid.

use vstd::prelude::*;

verus! {

/// An error for an invalid named option.
#[derive(Debug, PartialEq, Eq)]
pub enum OptionError {
    /// The named option is unrecognized.
    Unknown,
    /// The named option requires a parameter, but none was supplied.
    MissingParameter,
    /// The named option does not accept a parameter, but one was supplied.
    UnexpectedParameter,
    /// The named option was passed a value which is not valid Unicode.
    InvalidUnicode,
    /// The value for the named option was invalid; carries the cause.
    InvalidValue(String),
}

/// The mathematical shape of an [`OptionError`].
#[verifier::ext_equal]
pub enum OptionErrorView {
    /// Shape of [`OptionError::Unknown`].
    Unknown,
    /// Shape of [`OptionError::MissingParameter`].
    MissingParameter,
    /// Shape of [`OptionError::UnexpectedParameter`].
    UnexpectedParameter,
    /// Shape of [`OptionError::InvalidUnicode`].
    InvalidUnicode,
    /// Shape of [`OptionError::InvalidValue`].
    InvalidValue(Seq<char>),
}

impl View for OptionError {
    type V = OptionErrorView;

    open spec fn view(&self) -> OptionErrorView {
        match self {
            OptionError::Unknown => OptionErrorView::Unknown,
            OptionError::MissingParameter => OptionErrorView::MissingParameter,
            OptionError::UnexpectedParameter => OptionErrorView::UnexpectedParameter,
            OptionError::InvalidUnicode => OptionErrorView::InvalidUnicode,
            OptionError::InvalidValue(cause) => OptionErrorView::InvalidValue(cause@),
        }
    }
}

/// A command-line usage error, for when the user has passed incorrect
/// arguments to the program.
#[derive(Debug, PartialEq, Eq)]
pub enum UsageError {
    /// An argument has invalid syntax; carries the full token unchanged.
    InvalidArgument {
        /// Full text of the argument.
        arg: Vec<u8>,
    },
    /// A positional argument was unexpected.
    UnexpectedArgument {
        /// Full text of the argument.
        arg: Vec<u8>,
    },
    /// An expected positional argument was missing.
    MissingArgument {
        /// The name of the argument.
        name: String,
    },
    /// A named option was invalid.
    InvalidOption {
        /// The name of the option without any leading dashes.
        name: String,
        /// The option parameter value, if one exists.
        value: Option<Vec<u8>>,
        /// The inner error from handling the option.
        err: OptionError,
    },
}

/// The mathematical shape of a [`UsageError`].
#[verifier::ext_equal]
pub enum UsageErrorView {
    /// Shape of [`UsageError::InvalidArgument`].
    InvalidArgument {
        /// Full text of the argument.
        arg: Seq<u8>,
    },
    /// Shape of [`UsageError::UnexpectedArgument`].
    UnexpectedArgument {
        /// Full text of the argument.
        arg: Seq<u8>,
    },
    /// Shape of [`UsageError::MissingArgument`].
    MissingArgument {
        /// The name of the argument.
        name: Seq<char>,
    },
    /// Shape of [`UsageError::InvalidOption`].
    InvalidOption {
        /// The name of the option without any leading dashes.
        name: Seq<char>,
        /// The option parameter value, if one exists.
        value: Option<Seq<u8>>,
        /// The inner error from handling the option.
        err: OptionErrorView,
    },
}

impl View for UsageError {
    type V = UsageErrorView;

    open spec fn view(&self) -> UsageErrorView {
        match self {
            UsageError::InvalidArgument { arg } => UsageErrorView::InvalidArgument { arg: arg@ },
            UsageError::UnexpectedArgument { arg } => UsageErrorView::UnexpectedArgument {
                arg: arg@,
            },
            UsageError::MissingArgument { name } => UsageErrorView::MissingArgument { name: name@ },
            UsageError::InvalidOption { name, value, err } => UsageErrorView::InvalidOption {
                name: name@,
                value: match value {
                    Some(v) => Some(v@),
                    None => None,
                },
                err: err@,
            },
        }
    }
}

} // verus!
