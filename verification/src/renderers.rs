//! The per-mark-type pipeline descriptions: template geometry, shading
//! program text, and instance-buffer layouts.

pub mod layout;
pub mod vertex;
pub mod symbol;
pub mod text;

