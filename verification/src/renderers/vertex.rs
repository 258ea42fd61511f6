//! Template-geometry vertices shared by all instances of a mark.

use vstd::prelude::*;

verus! {

/// One vertex of a mark's template geometry, in subpixel units relative
/// to the instance center.
#[derive(Clone, Copy, Debug, PartialEq, Eq)]
pub struct Vertex {
    pub position: [i64; 3],
}

} // verus!
