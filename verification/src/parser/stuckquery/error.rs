//! Errors of the stuck query parser.
use crate::number::{AddrParseError, ParseFloatError, ParseIntError};
use crate::parser::tokenizer;
use crate::parser::tokenizer::error::ErrorSpec;
use crate::types::{TimestampError, TimestampErrorView};
use vstd::prelude::*;
use vstd::utf8::encode_utf8;

verus! {

#[derive(Debug)]
pub enum Error {
    /// The table does not have the expected layout.
    InvalidFormat(tokenizer::error::Error),
    /// A timestamp of the table or of a row does not parse.
    TimestampParse(TimestampError),
    /// The table header does not have five lines.
    InvalidTableHeader,
    /// The columns or the name of the table are not recognised.
    UnableToDetectTableKind,
    /// A column of a row does not parse: the column's name and why.
    Parse(String, ColumnDataError),
}

/// Why the text of a column could not be read.
#[derive(Debug)]
pub enum ColumnDataError {
    Integer(ParseIntError),
    Float(ParseFloatError),
    PGSQLState(PGSQLStateParse),
    MSSQLStatus(MSSQLStatusParse),
    IpV4Addr(AddrParseError),
}

/// A PostgreSQL backend state that is not known.
#[derive(Debug)]
pub enum PGSQLStateParse {
    UnknownState(String),
}

/// An SQL Server request status that is not known.
#[derive(Debug)]
pub enum MSSQLStatusParse {
    UnknownStatus(String),
}

/// A column error with its texts given by their bytes.
pub enum ColumnDataErrorView {
    Integer(ParseIntError),
    Float(ParseFloatError),
    PGSQLState(Seq<u8>),
    MSSQLStatus(Seq<u8>),
    IpV4Addr,
}

/// An error with its texts given by their bytes.
pub enum ErrorView {
    InvalidFormat(ErrorSpec),
    TimestampParse(TimestampErrorView),
    InvalidTableHeader,
    UnableToDetectTableKind,
    Parse(Seq<u8>, ColumnDataErrorView),
}

impl View for ColumnDataError {
    type V = ColumnDataErrorView;

    open spec fn view(&self) -> ColumnDataErrorView {
        match self {
            ColumnDataError::Integer(e) => ColumnDataErrorView::Integer(*e),
            ColumnDataError::Float(e) => ColumnDataErrorView::Float(*e),
            ColumnDataError::PGSQLState(PGSQLStateParse::UnknownState(s)) => ColumnDataErrorView::PGSQLState(
                encode_utf8(s@),
            ),
            ColumnDataError::MSSQLStatus(MSSQLStatusParse::UnknownStatus(s)) => ColumnDataErrorView::MSSQLStatus(
                encode_utf8(s@),
            ),
            ColumnDataError::IpV4Addr(_) => ColumnDataErrorView::IpV4Addr,
        }
    }
}

impl View for Error {
    type V = ErrorView;

    open spec fn view(&self) -> ErrorView {
        match self {
            Error::InvalidFormat(e) => ErrorView::InvalidFormat(e@),
            Error::TimestampParse(e) => ErrorView::TimestampParse(e@),
            Error::InvalidTableHeader => ErrorView::InvalidTableHeader,
            Error::UnableToDetectTableKind => ErrorView::UnableToDetectTableKind,
            Error::Parse(column, e) => ErrorView::Parse(encode_utf8(column@), e@),
        }
    }
}

} // verus!
