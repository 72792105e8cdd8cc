//! Errors of the CPU and memory statistics parser.
use crate::number::{ParseFloatError, ParseIntError};
use crate::parser::tokenizer;
use crate::parser::tokenizer::error::ErrorSpec;
use time::Error as TimeError;
use vstd::prelude::*;
use vstd::utf8::encode_utf8;

verus! {

#[derive(Debug)]
#[non_exhaustive]
pub enum Error {
    /// The table does not have the expected layout.
    InvalidFormat(tokenizer::error::Error),
    /// A timestamp does not parse.
    ParseTimestamp(TimeError),
    /// A process id is not a `u64`.
    ParsePID(ParseIntError),
    /// A usage is not a floating-point number.
    ParseUsage(ParseFloatError),
    /// The column names do not match a known table; the line of column names.
    UnableToDetectTableType(String),
    /// The total line does not start with the expected text: the expected
    /// text and the text found.
    InvalidPreamble(String, String),
}

/// An error with its texts given by their bytes and the time crate's error
/// left out.
pub enum ErrorView {
    InvalidFormat(ErrorSpec),
    ParseTimestamp,
    ParsePID(ParseIntError),
    ParseUsage(ParseFloatError),
    UnableToDetectTableType(Seq<u8>),
    InvalidPreamble(Seq<u8>, Seq<u8>),
}

impl View for Error {
    type V = ErrorView;

    open spec fn view(&self) -> ErrorView {
        match self {
            Error::InvalidFormat(e) => ErrorView::InvalidFormat(e@),
            Error::ParseTimestamp(_) => ErrorView::ParseTimestamp,
            Error::ParsePID(e) => ErrorView::ParsePID(*e),
            Error::ParseUsage(e) => ErrorView::ParseUsage(*e),
            Error::UnableToDetectTableType(s) => ErrorView::UnableToDetectTableType(encode_utf8(s@)),
            Error::InvalidPreamble(a, b) => ErrorView::InvalidPreamble(encode_utf8(a@), encode_utf8(b@)),
        }
    }
}

} // verus!
