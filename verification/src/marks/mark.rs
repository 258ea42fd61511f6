//! The document-side mark model: a tagged union over mark types, each a
//! container of typed items, with groups closing the recursive tree.

use vstd::prelude::*;
use crate::value::StrokeCap;
use crate::marks::text::{
    FontStyleSpec, FontWeightSpec, TextAlignSpec, TextBaselineSpec,
};

verus! {

/// Marker trait for the item types a mark container may hold.
pub trait VegaMarkItem {
}

/// A list of items of one mark type plus container-level metadata.
/// Rendering order within a container follows list order; `zindex` is
/// carried but takes no precedence over list order here.  The item type
/// is meant to implement [`VegaMarkItem`]; the bound is left off the
/// struct so that the group variant may close the recursive tree.
pub struct VegaMarkContainer<T> {
    pub clip: bool,
    pub interactive: bool,
    pub items: Vec<T>,
    pub name: Option<String>,
    pub role: Option<String>,
    pub zindex: Option<i64>,
}

/// One rect item of the document model: coordinates in subpixel units,
/// extents optional until validated, fill as an unparsed color string.
pub struct VegaRectItem {
    pub x: i64,
    pub y: i64,
    pub width: Option<i64>,
    pub height: Option<i64>,
    pub fill: Option<String>,
}

impl VegaMarkItem for VegaRectItem {
}

/// One rule item of the document model.
pub struct VegaRuleItem {
    pub x: i64,
    pub y: i64,
    pub x2: Option<i64>,
    pub y2: Option<i64>,
    pub stroke: Option<String>,
    pub stroke_width: Option<i64>,
    pub stroke_cap: Option<StrokeCap>,
}

impl VegaMarkItem for VegaRuleItem {
}

/// One symbol item of the document model.
pub struct VegaSymbolItem {
    pub x: i64,
    pub y: i64,
    pub size: Option<i64>,
    pub fill: Option<String>,
}

impl VegaMarkItem for VegaSymbolItem {
}

/// One text item of the document model.
pub struct VegaTextItem {
    pub text: String,
    pub x: i64,
    pub y: i64,
    pub fill: Option<String>,
    pub opacity: Option<i64>,
    pub align: Option<TextAlignSpec>,
    pub angle: Option<i64>,
    pub baseline: Option<TextBaselineSpec>,
    pub dx: Option<i64>,
    pub dy: Option<i64>,
    pub font: Option<String>,
    pub font_size: Option<i64>,
    pub font_weight: Option<FontWeightSpec>,
    pub font_style: Option<FontStyleSpec>,
    pub limit: Option<i64>,
}

impl VegaMarkItem for VegaTextItem {
}

/// One group item of the document model: a local origin plus nested
/// marks.
pub struct VegaGroupItem {
    pub x: i64,
    pub y: i64,
    pub items: Vec<VegaMark>,
}

impl VegaMarkItem for VegaGroupItem {
}

/// One mark of the document model.  The variants without a payload are
/// declared by the document grammar but carry no data here.
pub enum VegaMark {
    Arc,
    Area,
    Image,
    Group(VegaMarkContainer<VegaGroupItem>),
    Line,
    Path,
    Rect(VegaMarkContainer<VegaRectItem>),
    Rule(VegaMarkContainer<VegaRuleItem>),
    Shape,
    Symbol(VegaMarkContainer<VegaSymbolItem>),
    Text(VegaMarkContainer<VegaTextItem>),
    Trail,
}

} // verus!
