//! Errors of the tokenizer.
use vstd::prelude::*;
use vstd::utf8::encode_utf8;

verus! {

/// Why a tokenizer step failed.
#[derive(Debug)]
#[non_exhaustive]
pub enum Error {
    /// Fewer bytes are left than the expected text has.
    NotEnoughData,
    /// The remaining text does not start with the expected text.
    Expected { expected: String, got: String },
    /// A delimiter does not occur in the remaining text.
    DelimiterNotFound(String),
}

/// The same error with every text given by its UTF-8 bytes.
pub enum ErrorSpec {
    NotEnoughData,
    Expected { expected: Seq<u8>, got: Seq<u8> },
    DelimiterNotFound(Seq<u8>),
}

impl View for Error {
    type V = ErrorSpec;

    open spec fn view(&self) -> ErrorSpec {
        match self {
            Error::NotEnoughData => ErrorSpec::NotEnoughData,
            Error::Expected { expected, got } => ErrorSpec::Expected {
                expected: encode_utf8(expected@),
                got: encode_utf8(got@),
            },
            Error::DelimiterNotFound(d) => ErrorSpec::DelimiterNotFound(encode_utf8(d@)),
        }
    }
}

} // verus!
