//! The error taxonomy.
//!
//! Every failed parse yields exactly one of four terminal errors, each
//! carrying what a caller needs to render a one-line diagnostic; the
//! rendering itself is the caller's business.

use vstd::prelude::*;

verus! {

/// Why a parse failed.
#[derive(Debug, Clone, PartialEq, Eq)]
pub enum ParseError {
    /// An unrecognized flag-shaped token, or a bare value beyond the two
    /// positional slots. Carries the offending token's text.
    UnexpectedArgument { text: String },
    /// A port option at the end of the input (carries the option as it
    /// was spelled), or a single positional value where two are required
    /// (carries `DEST`).
    MissingValue { option: String },
    /// A port value that is not a decimal number in [0, 65535]. Carries
    /// the offending text.
    InvalidValue { text: String },
    /// Both a positional value and a port were supplied. Carries a fixed
    /// descriptive message.
    ConflictingArguments { message: String },
}

/// What a parse error is, over mathematical values.
pub enum ErrorView {
    UnexpectedArgument { text: Seq<char> },
    MissingValue { option: Seq<char> },
    InvalidValue { text: Seq<char> },
    ConflictingArguments { message: Seq<char> },
}

impl View for ParseError {
    type V = ErrorView;

    open spec fn view(&self) -> ErrorView {
        match self {
            ParseError::UnexpectedArgument { text } => (ErrorView::UnexpectedArgument {
                text: text@,
            }),
            ParseError::MissingValue { option } => (ErrorView::MissingValue { option: option@ }),
            ParseError::InvalidValue { text } => (ErrorView::InvalidValue { text: text@ }),
            ParseError::ConflictingArguments { message } => (ErrorView::ConflictingArguments {
                message: message@,
            }),
        }
    }
}

/// The fixed message carried by a conflicting-arguments error.
pub open spec fn conflict_message() -> Seq<char> {
    "Cannot specify both SRC/DEST and port"@
}

impl ParseError {
    /// The conflicting-arguments error, with its fixed message.
    pub fn conflicting() -> (e: ParseError)
        ensures
            e@ == (ErrorView::ConflictingArguments { message: conflict_message() }),
    {
        ParseError::ConflictingArguments {
            message: String::from_str("Cannot specify both SRC/DEST and port"),
        }
    }
}

} // verus!
