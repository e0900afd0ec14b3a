//! Paths with operators: `/` joins, `!` takes the parent, `>>` and `<<` pick a
//! segment counted from the left or from the right.
//!
//! The host's own path type does the platform's work (splitting a path into
//! segments, joining, finding the parent). This crate adds the value type
//! `PathDiv` and the rules around those calls, and proves them against the
//! stated behaviour of the host type.

pub mod host;
pub mod index;
pub mod path_div;
pub mod segment;

pub use path_div::PathDiv;
