//! The column-encoded rule mark.

use vstd::prelude::*;
use crate::error::VegaWgpuError;
use crate::value::{EncodingValue, Rgb, StrokeCap, SUBPIX};

verus! {

/// A rule mark: `len` line segments whose fields are column-encoded.
/// Coordinates and widths are in subpixel units; the stroke is an
/// already-parsed color.
#[derive(Clone, Debug)]
pub struct RuleMark {
    pub name: String,
    pub clip: bool,
    pub len: u32,
    pub x0: EncodingValue<i64>,
    pub y0: EncodingValue<i64>,
    pub x1: EncodingValue<i64>,
    pub y1: EncodingValue<i64>,
    pub stroke: EncodingValue<Rgb>,
    pub stroke_width: EncodingValue<i64>,
    pub stroke_cap: EncodingValue<StrokeCap>,
}

impl RuleMark {
    /// Every field agrees with the declared instance count.
    pub open spec fn wf(self) -> bool {
        &&& self.x0.wf(self.len as nat)
        &&& self.y0.wf(self.len as nat)
        &&& self.x1.wf(self.len as nat)
        &&& self.y1.wf(self.len as nat)
        &&& self.stroke.wf(self.len as nat)
        &&& self.stroke_width.wf(self.len as nat)
        &&& self.stroke_cap.wf(self.len as nat)
    }

    /// The first endpoint's x coordinate of each instance.
    pub fn x0_iter(&self) -> (r: Vec<i64>)
        ensures
            r@ == self.x0.resolved(self.len as nat),
    {
        self.x0.as_vec(self.len as usize)
    }

    /// The first endpoint's y coordinate of each instance.
    pub fn y0_iter(&self) -> (r: Vec<i64>)
        ensures
            r@ == self.y0.resolved(self.len as nat),
    {
        self.y0.as_vec(self.len as usize)
    }

    /// The second endpoint's x coordinate of each instance.
    pub fn x1_iter(&self) -> (r: Vec<i64>)
        ensures
            r@ == self.x1.resolved(self.len as nat),
    {
        self.x1.as_vec(self.len as usize)
    }

    /// The second endpoint's y coordinate of each instance.
    pub fn y1_iter(&self) -> (r: Vec<i64>)
        ensures
            r@ == self.y1.resolved(self.len as nat),
    {
        self.y1.as_vec(self.len as usize)
    }

    /// The stroke color of each instance.
    pub fn stroke_iter(&self) -> (r: Vec<Rgb>)
        ensures
            r@ == self.stroke.resolved(self.len as nat),
    {
        self.stroke.as_vec(self.len as usize)
    }

    /// The stroke width of each instance.
    pub fn stroke_width_iter(&self) -> (r: Vec<i64>)
        ensures
            r@ == self.stroke_width.resolved(self.len as nat),
    {
        self.stroke_width.as_vec(self.len as usize)
    }

    /// The end-cap style of each instance.
    pub fn stroke_cap_iter(&self) -> (r: Vec<StrokeCap>)
        ensures
            r@ == self.stroke_cap.resolved(self.len as nat),
    {
        self.stroke_cap.as_vec(self.len as usize)
    }

    /// Check that every array-backed field stores exactly `len` values;
    /// a mismatch is the typed length error, never silent truncation.
    pub fn validate(&self) -> (r: Result<(), VegaWgpuError>)
        ensures
            r is Ok <==> self.wf(),
            r matches Err(e) ==> e == VegaWgpuError::LengthMismatch,
    {
        let n = self.len as usize;
        if !self.x0.len_ok(n) || !self.y0.len_ok(n) || !self.x1.len_ok(n) || !self.y1.len_ok(n)
            || !self.stroke.len_ok(n) || !self.stroke_width.len_ok(n)
            || !self.stroke_cap.len_ok(n) {
            return Err(VegaWgpuError::LengthMismatch);
        }
        Ok(())
    }
}

/// Law: in a well-formed rule mark every field resolves to exactly `len`
/// elements.
pub proof fn lemma_rule_fields_resolve(m: RuleMark)
    requires
        m.wf(),
    ensures
        m.x0.resolved(m.len as nat).len() == m.len,
        m.y0.resolved(m.len as nat).len() == m.len,
        m.x1.resolved(m.len as nat).len() == m.len,
        m.y1.resolved(m.len as nat).len() == m.len,
        m.stroke.resolved(m.len as nat).len() == m.len,
        m.stroke_width.resolved(m.len as nat).len() == m.len,
        m.stroke_cap.resolved(m.len as nat).len() == m.len,
{
}

impl Default for RuleMark {
    /// The default rule mark: one clipped degenerate segment at the
    /// origin with a black one-pixel butt-capped stroke.
    fn default() -> (r: RuleMark)
        ensures
            r.name@ == "rule_mark"@,
            r.clip == true,
            r.len == 1,
            r.x0 == (EncodingValue::Scalar { value: 0i64 }),
            r.y0 == (EncodingValue::Scalar { value: 0i64 }),
            r.x1 == (EncodingValue::Scalar { value: 0i64 }),
            r.y1 == (EncodingValue::Scalar { value: 0i64 }),
            r.stroke == (EncodingValue::Scalar { value: Rgb { r: 0, g: 0, b: 0 } }),
            r.stroke_width == (EncodingValue::Scalar { value: SUBPIX }),
            r.stroke_cap == (EncodingValue::Scalar { value: StrokeCap::Butt }),
            r.wf(),
    {
        let name: &str = "rule_mark";
        RuleMark {
            name: name.to_owned(),
            clip: true,
            len: 1,
            x0: EncodingValue::Scalar { value: 0 },
            y0: EncodingValue::Scalar { value: 0 },
            x1: EncodingValue::Scalar { value: 0 },
            y1: EncodingValue::Scalar { value: 0 },
            stroke: EncodingValue::Scalar { value: Rgb { r: 0, g: 0, b: 0 } },
            stroke_width: EncodingValue::Scalar { value: SUBPIX },
            stroke_cap: EncodingValue::Scalar { value: StrokeCap::Butt },
        }
    }
}

} // verus!
