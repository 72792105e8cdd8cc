//! Errors of the thread dump parser.
use crate::number::ParseIntError;
use crate::parser::tokenizer;
use crate::parser::tokenizer::error::ErrorSpec;
use crate::types::{TimestampError, TimestampErrorView};
use vstd::prelude::*;

verus! {

#[derive(Debug)]
pub enum Error {
    /// The dump does not have the expected layout.
    InvalidFormat(tokenizer::error::Error),
    /// The time of the dump does not give a timestamp.
    Timestamp(TimestampError),
    /// A thread id is not a `u64`.
    IntegerParse(ParseIntError),
    /// The thread state is not one of the known states.
    InvalidState,
}

pub enum ErrorView {
    InvalidFormat(ErrorSpec),
    Timestamp(TimestampErrorView),
    IntegerParse(ParseIntError),
    InvalidState,
}

impl View for Error {
    type V = ErrorView;

    open spec fn view(&self) -> ErrorView {
        match self {
            Error::InvalidFormat(e) => ErrorView::InvalidFormat(e@),
            Error::Timestamp(e) => ErrorView::Timestamp(e@),
            Error::IntegerParse(e) => ErrorView::IntegerParse(*e),
            Error::InvalidState => ErrorView::InvalidState,
        }
    }
}

} // verus!
