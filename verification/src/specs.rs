//! The already-parsed scene-graph document model.
//!
//! A scene graph arrives as a tree rooted at one container of group items;
//! each group item carries a list of per-mark-type containers whose items
//! are row-oriented field records.  Deserialization of the JSON document
//! into these types is the embedding application's concern.

pub mod dims;
pub mod group;
pub mod mark;
pub mod rect;
pub mod rule;
pub mod symbol;

use vstd::prelude::*;

verus! {

/// The root of a scene-graph document: a container of top-level groups.
pub type SceneGraphSpec = crate::specs::mark::MarkContainerSpec<
    crate::specs::group::GroupItemSpec,
>;

} // verus!
