//! Group items: the containers that give the scene graph its tree shape.

use vstd::prelude::*;
use crate::specs::mark::{MarkItemSpec, MarkSpec};

verus! {

/// One group item: a local origin plus the marks drawn inside it.
pub struct GroupItemSpec {
    pub x: i64,
    pub y: i64,
    pub items: Vec<MarkSpec>,
}

impl MarkItemSpec for GroupItemSpec {
}

} // verus!
