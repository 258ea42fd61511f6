//! The column-encoded scene-graph mark models.
//!
//! Each mark type is a named, clip-flagged record with a declared
//! instance count `len`; every visual field is a column-encoded value
//! that must resolve to exactly `len` elements.

pub mod mark;
pub mod rect;
pub mod rule;
pub mod text;
