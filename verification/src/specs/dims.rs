//! The dimensions document supplied alongside a scene graph.

use vstd::prelude::*;

verus! {

/// Canvas size and origin offset, in subpixel units.  Shared read-only by
/// every pipeline during a frame.
#[derive(Clone, Copy, Debug, PartialEq, Eq, Structural)]
pub struct SceneGraphDims {
    pub width: i64,
    pub height: i64,
    pub origin_x: i64,
    pub origin_y: i64,
}

} // verus!
