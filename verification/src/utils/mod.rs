//! Formatting helpers and the textual packet summary.

pub mod packet;
pub mod pretty_print;
