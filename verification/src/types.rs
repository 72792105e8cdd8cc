//! Types shared by the parsers.
use time::Error as TimeError;
use vstd::prelude::*;

verus! {

/// The log files found in a directory, oldest first within each kind.
#[derive(Debug)]
pub struct LogFiles {
    pub cpumonitoring: Vec<String>,
    pub cpumemstats: Vec<String>,
    pub stuckthreads: Vec<String>,
}

/// Why a date and time could not be turned into a Unix timestamp.
#[derive(Debug)]
pub enum TimestampError {
    /// The text does not match the format description.
    Parse(TimeError),
    /// The instant lies outside the range of a `u64` count of milliseconds.
    Conversion,
}

/// Which kind of timestamp error occurred.
pub enum TimestampErrorView {
    Parse,
    Conversion,
}

impl View for TimestampError {
    type V = TimestampErrorView;

    open spec fn view(&self) -> TimestampErrorView {
        match self {
            TimestampError::Parse(_) => TimestampErrorView::Parse,
            TimestampError::Conversion => TimestampErrorView::Conversion,
        }
    }
}

/// A byte that is neither a digit nor a thousands separator.
#[derive(Debug, Clone, Copy, PartialEq, Eq, Structural)]
pub enum ParseInt {
    InvalidDigit(u8),
}

} // verus!
