//! The renderable scene: per-mark instance records built from the
//! specification tree, ready to be packed into GPU instance buffers.

pub mod rect;
pub mod rule;
pub mod symbol;
pub mod scene_graph;
