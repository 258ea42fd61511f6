//! Mark containers and the tagged union over mark types.

use vstd::prelude::*;

verus! {

/// Marker trait for the row-oriented item records a container may hold.
pub trait MarkItemSpec {
}

/// A list of items of one mark type plus container-level metadata.
/// Rendering order within a container follows list order.  The item type
/// is meant to implement [`MarkItemSpec`]; the bound is left off the
/// struct so that the group variant may close the recursive tree.
pub struct MarkContainerSpec<T> {
    pub items: Vec<T>,
    pub clip: bool,
    pub interactive: bool,
    pub name: Option<String>,
    pub zindex: Option<i64>,
}

/// One mark of a scene-graph document.  The variants without a payload are
/// declared by the document grammar but have no rendering pipeline here;
/// converting them yields a typed error, never silent output.
pub enum MarkSpec {
    Arc,
    Area,
    Image,
    Group(MarkContainerSpec<crate::specs::group::GroupItemSpec>),
    Line,
    Path,
    Rect(MarkContainerSpec<crate::specs::rect::RectItemSpec>),
    Rule(MarkContainerSpec<crate::specs::rule::RuleItemSpec>),
    Shape,
    Symbol(MarkContainerSpec<crate::specs::symbol::SymbolItemSpec>),
    Text,
    Trail,
}

} // verus!
