//! A per-key value-collection core for a multimap: each key of an
//! associative container logically maps to one or more values, with the
//! common single-value case stored inline, without a heap-allocated vector.
//!
//! The [`cell`] module holds the compact tagged cell that switches between
//! one inline value and a growable vector; the [`entry`] module wraps the
//! vacant/occupied entry primitives of `std::collections::HashMap` so that
//! callers see a uniform "first value" / "all values" interface.

pub mod cell;
pub mod laws;
pub mod entry;

pub use cell::OneOrAny;
pub use entry::{Entry, OccupiedEntry, VacantEntry};
