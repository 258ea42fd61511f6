//! A renderer core for declarative, Vega-style scene graphs.
//!
//! A scene graph is a tree of mark containers (rectangles, rules, symbols,
//! text, groups).  Each mark carries column-encoded fields: a field is either
//! one scalar shared by every instance of the mark, or one value per
//! instance.  This crate normalizes those fields, converts mark
//! specifications into fixed-layout GPU instance records, describes the
//! per-mark vertex-buffer layouts, and fixes the text placement policy.
//!
//! Geometry is measured in fixed-point subpixel coordinates
//! ([`value::SUBPIX`] units to the pixel) so that every placement rule is an
//! exact integer computation; colors are 8-bit RGB triples.  The embedding
//! application converts between these and the floating-point values of the
//! graphics stack at the boundary.

pub mod value;
pub mod error;
pub mod color;
pub mod specs;
pub mod renderers;
pub mod scene;
pub mod marks;
