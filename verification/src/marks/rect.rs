//! The column-encoded rect mark.

use vstd::prelude::*;
use crate::error::VegaWgpuError;
use crate::value::{EncodingValue, Rgb};

verus! {

/// A rect mark: `len` axis-aligned rectangles whose fields are
/// column-encoded.  Coordinates and extents are in subpixel units; the
/// fill is an already-parsed color.
#[derive(Clone, Debug)]
pub struct RectMark {
    pub name: String,
    pub clip: bool,
    pub len: u32,
    pub x: EncodingValue<i64>,
    pub y: EncodingValue<i64>,
    pub width: EncodingValue<i64>,
    pub height: EncodingValue<i64>,
    pub fill: EncodingValue<Rgb>,
}

impl RectMark {
    /// Every field agrees with the declared instance count.
    pub open spec fn wf(self) -> bool {
        &&& self.x.wf(self.len as nat)
        &&& self.y.wf(self.len as nat)
        &&& self.width.wf(self.len as nat)
        &&& self.height.wf(self.len as nat)
        &&& self.fill.wf(self.len as nat)
    }

    /// The x coordinate of each instance, in declaration order.
    pub fn x_iter(&self) -> (r: Vec<i64>)
        ensures
            r@ == self.x.resolved(self.len as nat),
    {
        self.x.as_vec(self.len as usize)
    }

    /// The y coordinate of each instance, in declaration order.
    pub fn y_iter(&self) -> (r: Vec<i64>)
        ensures
            r@ == self.y.resolved(self.len as nat),
    {
        self.y.as_vec(self.len as usize)
    }

    /// The width of each instance, in declaration order.
    pub fn width_iter(&self) -> (r: Vec<i64>)
        ensures
            r@ == self.width.resolved(self.len as nat),
    {
        self.width.as_vec(self.len as usize)
    }

    /// The height of each instance, in declaration order.
    pub fn height_iter(&self) -> (r: Vec<i64>)
        ensures
            r@ == self.height.resolved(self.len as nat),
    {
        self.height.as_vec(self.len as usize)
    }

    /// The fill color of each instance, in declaration order.
    pub fn fill_iter(&self) -> (r: Vec<Rgb>)
        ensures
            r@ == self.fill.resolved(self.len as nat),
    {
        self.fill.as_vec(self.len as usize)
    }

    /// Check that every array-backed field stores exactly `len` values;
    /// a mismatch is the typed length error, never silent truncation.
    pub fn validate(&self) -> (r: Result<(), VegaWgpuError>)
        ensures
            r is Ok <==> self.wf(),
            r matches Err(e) ==> e == VegaWgpuError::LengthMismatch,
    {
        let n = self.len as usize;
        if !self.x.len_ok(n) {
            return Err(VegaWgpuError::LengthMismatch);
        }
        if !self.y.len_ok(n) {
            return Err(VegaWgpuError::LengthMismatch);
        }
        if !self.width.len_ok(n) {
            return Err(VegaWgpuError::LengthMismatch);
        }
        if !self.height.len_ok(n) {
            return Err(VegaWgpuError::LengthMismatch);
        }
        if !self.fill.len_ok(n) {
            return Err(VegaWgpuError::LengthMismatch);
        }
        Ok(())
    }
}

/// Law: in a well-formed rect mark every field resolves to exactly `len`
/// elements.
pub proof fn lemma_rect_fields_resolve(m: RectMark)
    requires
        m.wf(),
    ensures
        m.x.resolved(m.len as nat).len() == m.len,
        m.y.resolved(m.len as nat).len() == m.len,
        m.width.resolved(m.len as nat).len() == m.len,
        m.height.resolved(m.len as nat).len() == m.len,
        m.fill.resolved(m.len as nat).len() == m.len,
{
}

impl Default for RectMark {
    /// The default rect mark: one clipped instance at the origin with
    /// zero extent and a black fill.
    fn default() -> (r: RectMark)
        ensures
            r.name@ == "rule_mark"@,
            r.clip == true,
            r.len == 1,
            r.x == (EncodingValue::Scalar { value: 0i64 }),
            r.y == (EncodingValue::Scalar { value: 0i64 }),
            r.width == (EncodingValue::Scalar { value: 0i64 }),
            r.height == (EncodingValue::Scalar { value: 0i64 }),
            r.fill == (EncodingValue::Scalar { value: Rgb { r: 0, g: 0, b: 0 } }),
            r.wf(),
    {
        let name: &str = "rule_mark";
        RectMark {
            name: name.to_owned(),
            clip: true,
            len: 1,
            x: EncodingValue::Scalar { value: 0 },
            y: EncodingValue::Scalar { value: 0 },
            width: EncodingValue::Scalar { value: 0 },
            height: EncodingValue::Scalar { value: 0 },
            fill: EncodingValue::Scalar { value: Rgb { r: 0, g: 0, b: 0 } },
        }
    }
}

} // verus!
