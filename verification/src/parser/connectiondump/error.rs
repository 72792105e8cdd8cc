//! Errors of the connection dump parser.
use crate::number::ParseIntError;
use crate::parser::tokenizer;
use crate::parser::tokenizer::error::ErrorSpec;
use crate::types::{TimestampError, TimestampErrorView};
use vstd::prelude::*;
use vstd::utf8::encode_utf8;

verus! {

#[derive(Debug)]
pub enum Error {
    /// The entry does not have the expected layout.
    InvalidFormat(tokenizer::error::Error),
    /// The time and date of the entry do not give a timestamp.
    Timestamp(TimestampError),
    /// A number of the entry is not a `u64`.
    Number(ParseIntError),
    /// The cause of a dump is not known; the text of the cause.
    Cause(String),
    /// The entry is none of the known kinds; the rest of the line.
    UnrecognizedConnectionDumpEntry(String),
}

/// An error with its texts given by their bytes.
pub enum ErrorView {
    InvalidFormat(ErrorSpec),
    Timestamp(TimestampErrorView),
    Number(ParseIntError),
    Cause(Seq<u8>),
    UnrecognizedConnectionDumpEntry(Seq<u8>),
}

impl View for Error {
    type V = ErrorView;

    open spec fn view(&self) -> ErrorView {
        match self {
            Error::InvalidFormat(e) => ErrorView::InvalidFormat(e@),
            Error::Timestamp(e) => ErrorView::Timestamp(e@),
            Error::Number(e) => ErrorView::Number(*e),
            Error::Cause(s) => ErrorView::Cause(encode_utf8(s@)),
            Error::UnrecognizedConnectionDumpEntry(s) => ErrorView::UnrecognizedConnectionDumpEntry(encode_utf8(s@)),
        }
    }
}

} // verus!
