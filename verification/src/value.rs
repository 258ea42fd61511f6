//! Column-encoded values and the shared scalar types of the scene model.
//!
//! Every visual field of a mark is an [`EncodingValue`]: either one scalar
//! broadcast to all instances of the mark, or an array with one value per
//! instance.  `as_vec` is the single point where the two encodings are
//! normalized into a plain sequence for downstream consumers.

use vstd::prelude::*;

verus! {

/// Number of coordinate subunits in one pixel.  Positions, sizes, offsets,
/// opacities and angles are all measured in these fixed-point units.
pub const SUBPIX: i64 = 65536;

/// Half a pixel in coordinate subunits.
pub const HALF_SUBPIX: i64 = 32768;

/// An RGB color with 8-bit channels.
#[derive(Clone, Copy, Debug, PartialEq, Eq, Structural)]
pub struct Rgb {
    pub r: u8,
    pub g: u8,
    pub b: u8,
}

/// Line-end cap style for rule marks.
#[derive(Clone, Copy, Debug, PartialEq, Eq, Structural)]
pub enum StrokeCap {
    Butt,
    Round,
    Square,
}

/// A mark field: one scalar shared by every instance, or one value per
/// instance.
#[derive(Clone, Debug)]
pub enum EncodingValue<T> {
    Scalar { value: T },
    Array { values: Vec<T> },
}

impl<T> EncodingValue<T> {
    /// The sequence this field stands for when the owning mark declares
    /// `len` instances: a scalar is repeated `len` times, an array yields
    /// its stored values.
    pub open spec fn resolved(self, len: nat) -> Seq<T> {
        match self {
            EncodingValue::Scalar { value } => Seq::new(len, |i: int| value),
            EncodingValue::Array { values } => values@,
        }
    }

    /// Whether this field agrees with a declared instance count: an array
    /// must store exactly `len` values, a scalar always agrees.
    pub open spec fn wf(self, len: nat) -> bool {
        match self {
            EncodingValue::Scalar { value } => true,
            EncodingValue::Array { values } => values@.len() == len,
        }
    }
}

impl<T> EncodingValue<T> {
    /// Whether this field agrees with a declared instance count, checked
    /// at run time.
    pub fn len_ok(&self, n: usize) -> (r: bool)
        ensures
            r == self.wf(n as nat),
    {
        match self {
            EncodingValue::Scalar { .. } => true,
            EncodingValue::Array { values } => values.len() == n,
        }
    }
}

impl<T: Copy> EncodingValue<T> {
    /// Materialize the field as a vector of `len` values (for a scalar) or
    /// of the stored values (for an array).
    pub fn as_vec(&self, len: usize) -> (r: Vec<T>)
        ensures
            r@ == self.resolved(len as nat),
    {
        match self {
            EncodingValue::Scalar { value } => {
                let mut out: Vec<T> = Vec::new();
                let mut i: usize = 0;
                while i < len
                    invariant
                        i <= len,
                        out@ =~= Seq::new(i as nat, |j: int| *value),
                    decreases len - i,
                {
                    out.push(*value);
                    i = i + 1;
                }
                proof {
                    assert(out@ =~= self.resolved(len as nat));
                }
                out
            },
            EncodingValue::Array { values } => {
                let mut out: Vec<T> = Vec::new();
                let mut i: usize = 0;
                while i < values.len()
                    invariant
                        i <= values@.len(),
                        out@ =~= values@.subrange(0, i as int),
                    decreases values@.len() - i,
                {
                    out.push(values[i]);
                    i = i + 1;
                }
                proof {
                    assert(out@ =~= values@);
                }
                out
            },
        }
    }
}

impl EncodingValue<String> {
    /// Materialize a string field as a vector of `len` clones (for a
    /// scalar) or of clones of the stored values (for an array).
    pub fn as_string_vec(&self, len: usize) -> (r: Vec<String>)
        ensures
            r@ == self.resolved(len as nat),
    {
        match self {
            EncodingValue::Scalar { value } => {
                let mut out: Vec<String> = Vec::new();
                let mut i: usize = 0;
                while i < len
                    invariant
                        i <= len,
                        out@ =~= Seq::new(i as nat, |j: int| *value),
                    decreases len - i,
                {
                    out.push(value.clone());
                    i = i + 1;
                }
                proof {
                    assert(out@ =~= self.resolved(len as nat));
                }
                out
            },
            EncodingValue::Array { values } => {
                let mut out: Vec<String> = Vec::new();
                let mut i: usize = 0;
                while i < values.len()
                    invariant
                        i <= values@.len(),
                        out@ =~= values@.subrange(0, i as int),
                    decreases values@.len() - i,
                {
                    out.push(values[i].clone());
                    i = i + 1;
                }
                proof {
                    assert(out@ =~= values@);
                }
                out
            },
        }
    }
}

/// Law: resolving a well-formed column-encoded value against a declared
/// count `n` yields a sequence of exactly `n` elements, whether the value
/// is scalar or array-backed.
pub proof fn lemma_resolved_len<T>(v: EncodingValue<T>, n: nat)
    requires
        v.wf(n),
    ensures
        v.resolved(n).len() == n,
{
}

} // verus!
