//! Rule item records: one line segment per item.

use vstd::prelude::*;
use crate::specs::mark::MarkItemSpec;
use crate::value::StrokeCap;

verus! {

/// One rule item.  `(x, y)` is the first endpoint; `x2` and `y2` default
/// to `x` and `y` when absent.  Coordinates are in subpixel units.
/// `stroke` is a CSS color string; `stroke_width` is in subpixel units and
/// defaults to one pixel; `stroke_cap` defaults to a butt cap.
#[derive(Clone, Debug)]
pub struct RuleItemSpec {
    pub x: i64,
    pub y: i64,
    pub x2: Option<i64>,
    pub y2: Option<i64>,
    pub stroke: Option<String>,
    pub stroke_width: Option<i64>,
    pub stroke_cap: Option<StrokeCap>,
}

impl MarkItemSpec for RuleItemSpec {
}

} // verus!
