//! What the log database keeps: its tables and the summaries computed from
//! the rows it gives back.
pub mod stuckthread;
pub mod tables;
pub mod types;
