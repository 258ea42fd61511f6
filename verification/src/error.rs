//! Typed errors of the rendering core.

use vstd::prelude::*;

verus! {

/// Why a mark specification could not be converted to renderable
/// instances, or why a placement rule could not be applied.
#[derive(Clone, Copy, Debug, PartialEq, Eq, Structural)]
pub enum VegaWgpuError {
    /// A color string was not in the accepted CSS grammar.
    InvalidColor,
    /// A rect item lacked its required `width` field.
    MissingWidth,
    /// A rect item lacked its required `height` field.
    MissingHeight,
    /// A mark type is declared in the model but has no rendering pipeline.
    UnsupportedMark,
    /// An array-backed field disagrees with its mark's declared instance
    /// count.
    LengthMismatch,
    /// A text baseline variant has no defined placement rule.
    UnsupportedBaseline,
}

impl VegaWgpuError {
    /// A human-readable description of the error.
    pub fn message(&self) -> (r: &'static str)
        ensures
            r@.len() > 0,
    {
        let s: &'static str = match self {
            VegaWgpuError::InvalidColor => "invalid color string",
            VegaWgpuError::MissingWidth => "rect item is missing its width",
            VegaWgpuError::MissingHeight => "rect item is missing its height",
            VegaWgpuError::UnsupportedMark => "mark type has no rendering pipeline",
            VegaWgpuError::UnsupportedBaseline => "text baseline has no placement rule",
            VegaWgpuError::LengthMismatch => "field length differs from the mark's len",
        };
        proof {
            reveal_strlit("invalid color string");
            reveal_strlit("rect item is missing its width");
            reveal_strlit("rect item is missing its height");
            reveal_strlit("mark type has no rendering pipeline");
            reveal_strlit("text baseline has no placement rule");
            reveal_strlit("field length differs from the mark's len");
        }
        s
    }
}

} // verus!
