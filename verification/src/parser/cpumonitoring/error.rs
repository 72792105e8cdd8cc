//! Errors of the CPU monitoring parser.
use crate::number::{ParseFloatError, ParseIntError};
use crate::parser::tokenizer;
use crate::parser::tokenizer::error::ErrorSpec;
use time::Error as TimeError;
use vstd::prelude::*;

verus! {

#[derive(Debug)]
#[non_exhaustive]
pub enum Error {
    /// The entry does not have the expected layout.
    InvalidFormat(tokenizer::error::Error),
    /// The time or the date of the entry header does not parse.
    ParseTimestamp(TimeError),
    /// The thread id is not a `u64`.
    ParseThreadID(ParseIntError),
    /// The CPU usage is not a floating-point number.
    ParseCPU(ParseFloatError),
}

/// The error with the tokenizer's error given by its bytes and the time
/// crate's error left out.
pub enum ErrorView {
    InvalidFormat(ErrorSpec),
    ParseTimestamp,
    ParseThreadID(ParseIntError),
    ParseCPU(ParseFloatError),
}

impl View for Error {
    type V = ErrorView;

    open spec fn view(&self) -> ErrorView {
        match self {
            Error::InvalidFormat(e) => ErrorView::InvalidFormat(e@),
            Error::ParseTimestamp(_) => ErrorView::ParseTimestamp,
            Error::ParseThreadID(e) => ErrorView::ParseThreadID(*e),
            Error::ParseCPU(e) => ErrorView::ParseCPU(*e),
        }
    }
}

} // verus!
