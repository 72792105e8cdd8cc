//! Errors of the stuck thread parser.
use crate::number::ParseIntError;
use crate::parser::tokenizer;
use crate::parser::tokenizer::error::ErrorSpec;
use crate::types::{ParseInt, TimestampError, TimestampErrorView};
use vstd::prelude::*;

verus! {

#[derive(Debug)]
pub enum Error {
    /// The entry does not have the expected layout.
    InvalidFormat(tokenizer::error::Error),
    /// The time and date of the entry do not give a timestamp.
    ParseTime(TimestampError),
    /// The duration is not an integer with thousands separators.
    ParseDuration(ParseInt),
    /// The text does not start with an entry header.
    HeaderNotFound,
    /// The thread id or the active thread count is not a `u64`.
    ParseTID(ParseIntError),
}

pub enum ErrorView {
    InvalidFormat(ErrorSpec),
    ParseTime(TimestampErrorView),
    ParseDuration(ParseInt),
    HeaderNotFound,
    ParseTID(ParseIntError),
}

impl View for Error {
    type V = ErrorView;

    open spec fn view(&self) -> ErrorView {
        match self {
            Error::InvalidFormat(e) => ErrorView::InvalidFormat(e@),
            Error::ParseTime(e) => ErrorView::ParseTime(e@),
            Error::ParseDuration(e) => ErrorView::ParseDuration(*e),
            Error::HeaderNotFound => ErrorView::HeaderNotFound,
            Error::ParseTID(e) => ErrorView::ParseTID(*e),
        }
    }
}

} // verus!
