//! Symbol item records: one centered glyph-like shape per item.

use vstd::prelude::*;
use crate::specs::mark::MarkItemSpec;

verus! {

/// One symbol item.  `(x, y)` is the symbol center in subpixel units;
/// `size` is the side of the bounding square in subpixel units and
/// defaults to one pixel when absent; `fill` is a CSS color string.
#[derive(Clone, Debug)]
pub struct SymbolItemSpec {
    pub x: i64,
    pub y: i64,
    pub size: Option<i64>,
    pub fill: Option<String>,
}

impl MarkItemSpec for SymbolItemSpec {
}

} // verus!
