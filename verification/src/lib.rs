//! Aggregate structural statistics over compiled bytecode program units.
//!
//! Given a corpus of already-verified compiled units (modules and scripts),
//! the library walks every function's type signature and instruction stream,
//! classifies instructions and annotations into a fixed taxonomy (reference
//! operations, reference-bearing signatures, resource-acquire annotations),
//! and accumulates exact counts in a [`counts::Counts`] record, from which a
//! fixed-format textual report is rendered.

pub mod analyze;
pub mod counts;
pub mod laws;
pub mod model;
pub mod report;
pub mod units;
