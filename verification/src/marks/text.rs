//! The column-encoded text mark and its attribute vocabularies.

use vstd::prelude::*;
use crate::error::VegaWgpuError;
use crate::value::{EncodingValue, Rgb};

verus! {

/// Horizontal alignment of a text instance against its anchor.
#[derive(Clone, Copy, Debug, PartialEq, Eq, Structural)]
pub enum TextAlignSpec {
    Left,
    Center,
    Right,
}

/// Vertical baseline of a text instance against its anchor.  The
/// line-relative variants are declared by the document grammar but have
/// no placement rule here; using them is a typed error.
#[derive(Clone, Copy, Debug, PartialEq, Eq, Structural)]
pub enum TextBaselineSpec {
    Alphabetic,
    Top,
    Middle,
    Bottom,
    LineTop,
    LineBottom,
}

/// A named font weight.
#[derive(Clone, Copy, Debug, PartialEq, Eq, Structural)]
pub enum FontWeightNameSpec {
    Bold,
    Normal,
}

/// A font weight: named, or numeric on the usual 1..=1000 scale.
#[derive(Clone, Copy, Debug, PartialEq, Eq, Structural)]
pub enum FontWeightSpec {
    Name(FontWeightNameSpec),
    Number(u16),
}

/// A font style.
#[derive(Clone, Copy, Debug, PartialEq, Eq, Structural)]
pub enum FontStyleSpec {
    Normal,
    Italic,
}

/// A text mark: `len` strings whose fields are column-encoded.
/// Coordinates, sizes, offsets and the opacity are in subpixel units;
/// the color is an already-parsed RGB triple.
#[derive(Clone, Debug)]
pub struct TextMark {
    pub name: String,
    pub clip: bool,
    pub len: u32,
    pub text: EncodingValue<String>,
    pub x: EncodingValue<i64>,
    pub y: EncodingValue<i64>,
    pub color: EncodingValue<Rgb>,
    pub opacity: EncodingValue<i64>,
    pub align: EncodingValue<TextAlignSpec>,
    pub angle: EncodingValue<i64>,
    pub baseline: EncodingValue<TextBaselineSpec>,
    pub dx: EncodingValue<i64>,
    pub dy: EncodingValue<i64>,
    pub font: EncodingValue<String>,
    pub font_size: EncodingValue<i64>,
    pub font_weight: EncodingValue<FontWeightSpec>,
    pub font_style: EncodingValue<FontStyleSpec>,
    pub limit: EncodingValue<i64>,
}

impl TextMark {
    /// Every field agrees with the declared instance count.
    pub open spec fn wf(self) -> bool {
        &&& self.text.wf(self.len as nat)
        &&& self.x.wf(self.len as nat)
        &&& self.y.wf(self.len as nat)
        &&& self.color.wf(self.len as nat)
        &&& self.opacity.wf(self.len as nat)
        &&& self.align.wf(self.len as nat)
        &&& self.angle.wf(self.len as nat)
        &&& self.baseline.wf(self.len as nat)
        &&& self.dx.wf(self.len as nat)
        &&& self.dy.wf(self.len as nat)
        &&& self.font.wf(self.len as nat)
        &&& self.font_size.wf(self.len as nat)
        &&& self.font_weight.wf(self.len as nat)
        &&& self.font_style.wf(self.len as nat)
        &&& self.limit.wf(self.len as nat)
    }

    /// Check that every array-backed field stores exactly `len` values;
    /// a mismatch is the typed length error, never silent truncation.
    pub fn validate(&self) -> (r: Result<(), VegaWgpuError>)
        ensures
            r is Ok <==> self.wf(),
            r matches Err(e) ==> e == VegaWgpuError::LengthMismatch,
    {
        let n = self.len as usize;
        if !self.text.len_ok(n) || !self.x.len_ok(n) || !self.y.len_ok(n)
            || !self.color.len_ok(n) || !self.opacity.len_ok(n) || !self.align.len_ok(n)
            || !self.angle.len_ok(n) || !self.baseline.len_ok(n) || !self.dx.len_ok(n)
            || !self.dy.len_ok(n) || !self.font.len_ok(n) || !self.font_size.len_ok(n)
            || !self.font_weight.len_ok(n) || !self.font_style.len_ok(n)
            || !self.limit.len_ok(n) {
            return Err(VegaWgpuError::LengthMismatch);
        }
        Ok(())
    }
}

/// Law: in a well-formed text mark every field resolves to exactly `len`
/// elements.
pub proof fn lemma_text_fields_resolve(m: TextMark)
    requires
        m.wf(),
    ensures
        m.text.resolved(m.len as nat).len() == m.len,
        m.x.resolved(m.len as nat).len() == m.len,
        m.y.resolved(m.len as nat).len() == m.len,
        m.color.resolved(m.len as nat).len() == m.len,
        m.opacity.resolved(m.len as nat).len() == m.len,
        m.align.resolved(m.len as nat).len() == m.len,
        m.angle.resolved(m.len as nat).len() == m.len,
        m.baseline.resolved(m.len as nat).len() == m.len,
        m.dx.resolved(m.len as nat).len() == m.len,
        m.dy.resolved(m.len as nat).len() == m.len,
        m.font.resolved(m.len as nat).len() == m.len,
        m.font_size.resolved(m.len as nat).len() == m.len,
        m.font_weight.resolved(m.len as nat).len() == m.len,
        m.font_style.resolved(m.len as nat).len() == m.len,
        m.limit.resolved(m.len as nat).len() == m.len,
{
}

} // verus!
