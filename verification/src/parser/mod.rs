//! Parsers for the individual log formats, and the kinds and wait types of
//! the databases that stuck query logs come from.
pub mod connectiondump;
pub mod cpumemstats;
pub mod cpumonitoring;
pub mod stuckquery;
pub mod stuckthread;
pub mod table;
pub mod threaddump;
pub mod tokenizer;
pub mod wait_type;
pub mod wait_type_description;
pub mod wait_type_lookup;
pub mod wait_type_order;
pub mod wait_type_parse;
pub mod wait_type_str;

pub use wait_type::WaitType;
use vstd::prelude::*;

verus! {

/// The database a stuck query table comes from.
#[derive(Debug, Clone, Copy, PartialEq, Eq, Structural)]
pub enum DBKind {
    PGSQL,
    MSSQL,
}

} // verus!
