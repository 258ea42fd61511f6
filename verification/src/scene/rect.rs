//! Rect instances: one fixed-layout record per rectangle.

use vstd::prelude::*;
use crate::color::{css_color_of, default_gray, parse_color};
use crate::error::VegaWgpuError;
use crate::renderers::layout::{AttributeDesc, AttributeFormat, InstanceLayoutDesc};
use crate::specs::mark::MarkContainerSpec;
use crate::specs::rect::RectItemSpec;
use crate::value::Rgb;

verus! {

/// All rect instances of one container, with the container's clip flag.
pub struct RectMark {
    pub instances: Vec<RectInstance>,
    pub clip: bool,
}

/// One GPU-facing rect record: top-left corner, fill color, and extent,
/// in subpixel units.
#[derive(Clone, Copy, Debug, PartialEq, Eq)]
pub struct RectInstance {
    pub position: [i64; 2],
    pub color: Rgb,
    pub width: i64,
    pub height: i64,
}

/// What converting one rect item yields: the typed error for a malformed
/// item — an unparsable fill first, then a missing width, then a missing
/// height — or the instance with its fields copied and an absent fill
/// replaced by the documented mid-gray default.
pub open spec fn rect_instance_spec(item: RectItemSpec) -> Result<RectInstance, VegaWgpuError> {
    let color = match item.fill {
        Some(f) => css_color_of(f@),
        None => Some((128u8, 128u8, 128u8)),
    };
    match color {
        None => Err(VegaWgpuError::InvalidColor),
        Some(c) => match item.width {
            None => Err(VegaWgpuError::MissingWidth),
            Some(w) => match item.height {
                None => Err(VegaWgpuError::MissingHeight),
                Some(h) => Ok(
                    RectInstance {
                        position: [item.x, item.y],
                        color: Rgb { r: c.0, g: c.1, b: c.2 },
                        width: w,
                        height: h,
                    },
                ),
            },
        },
    }
}

/// Whether every item of a sequence converts to an instance.
pub open spec fn rect_items_ok(items: Seq<RectItemSpec>) -> bool {
    forall|i: int| 0 <= i < items.len() ==> #[trigger] rect_instance_spec(items[i]) is Ok
}

impl RectInstance {
    /// The rect instance-buffer layout: a two-float corner, a three-float
    /// color, and one float each for width and height, packed into a
    /// 28-byte record.
    pub fn desc() -> (r: InstanceLayoutDesc)
        ensures
            r.array_stride == 28,
            r.attributes@ == seq![
                (AttributeDesc { offset: 0, shader_location: 1, format: AttributeFormat::Float32x2 }),
                (AttributeDesc { offset: 8, shader_location: 2, format: AttributeFormat::Float32x3 }),
                (AttributeDesc { offset: 20, shader_location: 3, format: AttributeFormat::Float32 }),
                (AttributeDesc { offset: 24, shader_location: 4, format: AttributeFormat::Float32 }),
            ],
            r.wf(),
    {
        let attributes: Vec<AttributeDesc> = vec![
            AttributeDesc { offset: 0, shader_location: 1, format: AttributeFormat::Float32x2 },
            AttributeDesc { offset: 8, shader_location: 2, format: AttributeFormat::Float32x3 },
            AttributeDesc { offset: 20, shader_location: 3, format: AttributeFormat::Float32 },
            AttributeDesc { offset: 24, shader_location: 4, format: AttributeFormat::Float32 },
        ];
        let r = InstanceLayoutDesc { array_stride: 28, attributes };
        proof {
            assert(r.attributes@.len() == 4);
            assert(r.wf());
        }
        r
    }

    /// Convert one rect item, validating its required fields.
    pub fn from_spec(item_spec: &RectItemSpec) -> (r: Result<RectInstance, VegaWgpuError>)
        ensures
            r == rect_instance_spec(*item_spec),
    {
        let color = match &item_spec.fill {
            Some(f) => match parse_color(f.as_str()) {
                Ok(c) => c,
                Err(e) => {
                    return Err(e);
                },
            },
            None => default_gray(),
        };
        let width = match item_spec.width {
            Some(w) => w,
            None => {
                return Err(VegaWgpuError::MissingWidth);
            },
        };
        let height = match item_spec.height {
            Some(h) => h,
            None => {
                return Err(VegaWgpuError::MissingHeight);
            },
        };
        let r = RectInstance { position: [item_spec.x, item_spec.y], color, width, height };
        proof {
            assert(r.position@ =~= rect_instance_spec(*item_spec)->Ok_0.position@);
            assert(r == rect_instance_spec(*item_spec)->Ok_0);
        }
        Ok(r)
    }

    /// Convert a list of rect items in order, stopping at the first
    /// malformed one.
    pub fn from_specs(item_specs: &Vec<RectItemSpec>) -> (r: Result<
        Vec<RectInstance>,
        VegaWgpuError,
    >)
        ensures
            r is Ok <==> rect_items_ok(item_specs@),
            r matches Ok(v) ==> v@.len() == item_specs@.len() && forall|i: int|
                0 <= i < v@.len() ==> rect_instance_spec(item_specs@[i]) == Ok::<
                    RectInstance,
                    VegaWgpuError,
                >(#[trigger] v@[i]),
            r matches Err(e) ==> exists|i: int|
                0 <= i < item_specs@.len() && #[trigger] rect_instance_spec(item_specs@[i]) == Err::<
                    RectInstance,
                    VegaWgpuError,
                >(e) && forall|j: int| 0 <= j < i ==> #[trigger] rect_instance_spec(item_specs@[j]) is Ok,
    {
        let mut out: Vec<RectInstance> = Vec::new();
        let mut i: usize = 0;
        while i < item_specs.len()
            invariant
                i <= item_specs@.len(),
                out@.len() == i,
                forall|k: int|
                    0 <= k < i ==> rect_instance_spec(item_specs@[k]) == Ok::<
                        RectInstance,
                        VegaWgpuError,
                    >(#[trigger] out@[k]),
            decreases item_specs@.len() - i,
        {
            match RectInstance::from_spec(&item_specs[i]) {
                Ok(inst) => out.push(inst),
                Err(e) => {
                    proof {
                        assert forall|j: int| 0 <= j < i implies #[trigger] rect_instance_spec(
                            item_specs@[j],
                        ) is Ok by {
                            assert(rect_instance_spec(item_specs@[j]) == Ok::<
                                RectInstance,
                                VegaWgpuError,
                            >(out@[j]));
                        }
                        assert(rect_instance_spec(item_specs@[i as int]) == Err::<
                            RectInstance,
                            VegaWgpuError,
                        >(e));
                    }
                    return Err(e);
                },
            }
            i = i + 1;
        }
        proof {
            assert forall|k: int| 0 <= k < item_specs@.len() implies #[trigger] rect_instance_spec(
                item_specs@[k],
            ) is Ok by {
                assert(rect_instance_spec(item_specs@[k]) == Ok::<RectInstance, VegaWgpuError>(
                    out@[k],
                ));
            }
        }
        Ok(out)
    }
}

impl RectMark {
    /// Convert a whole rect container: every item in order, plus the
    /// container's clip flag.
    pub fn from_spec(spec: &MarkContainerSpec<RectItemSpec>) -> (r: Result<
        RectMark,
        VegaWgpuError,
    >)
        ensures
            r is Ok <==> rect_items_ok(spec.items@),
            r matches Ok(m) ==> m.clip == spec.clip && m.instances@.len() == spec.items@.len()
                && forall|i: int|
                0 <= i < m.instances@.len() ==> rect_instance_spec(spec.items@[i]) == Ok::<
                    RectInstance,
                    VegaWgpuError,
                >(#[trigger] m.instances@[i]),
            r matches Err(e) ==> exists|i: int|
                0 <= i < spec.items@.len() && #[trigger] rect_instance_spec(spec.items@[i]) == Err::<
                    RectInstance,
                    VegaWgpuError,
                >(e) && forall|j: int| 0 <= j < i ==> #[trigger] rect_instance_spec(spec.items@[j]) is Ok,
    {
        let instances = match RectInstance::from_specs(&spec.items) {
            Ok(v) => v,
            Err(e) => {
                return Err(e);
            },
        };
        Ok(RectMark { instances, clip: spec.clip })
    }
}

} // verus!
