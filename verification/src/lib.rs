//! Parsers for stability, performance and scalability logs.
use vstd::prelude::*;

pub mod number;
pub mod parser;
pub mod store;
pub mod text;
pub mod types;
pub mod util;

verus! {

} // verus!
