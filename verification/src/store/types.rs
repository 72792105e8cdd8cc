//! Rows as the log database gives them back.
use vstd::prelude::*;

verus! {

/// A stack frame.
#[derive(Debug)]
pub struct Frame {
    pub method: String,
    pub source: String,
}

} // verus!
