//! Instance-buffer layout descriptions.
//!
//! A layout names, for each per-instance attribute, its byte offset, its
//! shader location, and its numeric format, together with the stride of
//! one instance record.  The embedding application hands these to the
//! graphics device verbatim; here the layouts are proved packed and
//! in-bounds.

use vstd::prelude::*;

verus! {

/// The numeric format of one vertex attribute, as the graphics device
/// understands it: one, two or three 32-bit floats.
#[derive(Clone, Copy, Debug, PartialEq, Eq, Structural)]
pub enum AttributeFormat {
    Float32,
    Float32x2,
    Float32x3,
}

impl AttributeFormat {
    /// Size of one attribute of this format, in bytes.
    pub open spec fn size_spec(self) -> int {
        match self {
            AttributeFormat::Float32 => 4,
            AttributeFormat::Float32x2 => 8,
            AttributeFormat::Float32x3 => 12,
        }
    }

    /// Size of one attribute of this format, in bytes.
    pub fn size(&self) -> (r: u64)
        ensures
            r == self.size_spec(),
    {
        match self {
            AttributeFormat::Float32 => 4,
            AttributeFormat::Float32x2 => 8,
            AttributeFormat::Float32x3 => 12,
        }
    }
}

/// One per-instance attribute of an instance-buffer layout.
#[derive(Clone, Copy, Debug, PartialEq, Eq, Structural)]
pub struct AttributeDesc {
    pub offset: u64,
    pub shader_location: u32,
    pub format: AttributeFormat,
}

/// An instance-buffer layout: the stride of one record and its attributes
/// in ascending offset order.
#[derive(Clone, Debug)]
pub struct InstanceLayoutDesc {
    pub array_stride: u64,
    pub attributes: Vec<AttributeDesc>,
}

impl InstanceLayoutDesc {
    /// Attributes are packed: each begins where the previous one ends,
    /// the first at offset zero, and the last ends within the stride.
    pub open spec fn wf(self) -> bool {
        &&& forall|i: int|
            0 <= i < self.attributes@.len() ==> #[trigger] self.attributes@[i].offset
                + self.attributes@[i].format.size_spec() <= self.array_stride
        &&& forall|i: int|
            0 < i < self.attributes@.len() ==> #[trigger] self.attributes@[i].offset
                == self.attributes@[i - 1].offset + self.attributes@[i - 1].format.size_spec()
        &&& self.attributes@.len() > 0 ==> self.attributes@[0].offset == 0
    }
}

} // verus!
