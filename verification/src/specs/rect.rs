//! Rect item records: one axis-aligned rectangle per item.

use vstd::prelude::*;
use crate::specs::mark::MarkItemSpec;

verus! {

/// One rect item.  Coordinates and extents are in subpixel units
/// ([`crate::value::SUBPIX`] to the pixel); `width` and `height` are
/// required for rendering but optional in the document, so conversion
/// validates them.  `fill` is a CSS color string.
#[derive(Clone, Debug)]
pub struct RectItemSpec {
    pub x: i64,
    pub y: i64,
    pub width: Option<i64>,
    pub height: Option<i64>,
    pub fill: Option<String>,
}

impl MarkItemSpec for RectItemSpec {
}

} // verus!
