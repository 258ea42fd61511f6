//! Rule instances: one line segment per record.

use vstd::prelude::*;
use crate::color::{css_color_of, default_gray, parse_color};
use crate::error::VegaWgpuError;
use crate::renderers::layout::{AttributeDesc, AttributeFormat, InstanceLayoutDesc};
use crate::specs::mark::MarkContainerSpec;
use crate::specs::rule::RuleItemSpec;
use crate::value::{Rgb, StrokeCap, SUBPIX};

verus! {

/// All rule instances of one container, with the container's clip flag.
pub struct RuleMark {
    pub instances: Vec<RuleInstance>,
    pub clip: bool,
}

/// One GPU-facing rule record: the two endpoints, stroke color, stroke
/// width and end-cap style.  Coordinates and widths are in subpixel
/// units.
#[derive(Clone, Copy, Debug, PartialEq, Eq)]
pub struct RuleInstance {
    pub x0: i64,
    pub y0: i64,
    pub x1: i64,
    pub y1: i64,
    pub stroke: Rgb,
    pub stroke_width: i64,
    pub stroke_cap: StrokeCap,
}

/// What converting one rule item yields: a typed error for an unparsable
/// stroke string, else the instance with a missing second endpoint
/// defaulting to the first, a missing stroke defaulting to mid-gray, a
/// missing stroke width defaulting to one pixel, and a missing cap
/// defaulting to a butt cap.
pub open spec fn rule_instance_spec(item: RuleItemSpec) -> Result<RuleInstance, VegaWgpuError> {
    let color = match item.stroke {
        Some(s) => css_color_of(s@),
        None => Some((128u8, 128u8, 128u8)),
    };
    match color {
        None => Err(VegaWgpuError::InvalidColor),
        Some(c) => Ok(
            RuleInstance {
                x0: item.x,
                y0: item.y,
                x1: match item.x2 {
                    Some(v) => v,
                    None => item.x,
                },
                y1: match item.y2 {
                    Some(v) => v,
                    None => item.y,
                },
                stroke: Rgb { r: c.0, g: c.1, b: c.2 },
                stroke_width: match item.stroke_width {
                    Some(w) => w,
                    None => SUBPIX,
                },
                stroke_cap: match item.stroke_cap {
                    Some(cap) => cap,
                    None => StrokeCap::Butt,
                },
            },
        ),
    }
}

/// Whether every item of a sequence converts to an instance.
pub open spec fn rule_items_ok(items: Seq<RuleItemSpec>) -> bool {
    forall|i: int| 0 <= i < items.len() ==> #[trigger] rule_instance_spec(items[i]) is Ok
}

impl RuleInstance {
    /// The rule instance-buffer layout: two two-float endpoints, a
    /// three-float color and a one-float width, packed into a 32-byte
    /// record.  The cap style selects the pipeline, not an attribute.
    pub fn desc() -> (r: InstanceLayoutDesc)
        ensures
            r.array_stride == 32,
            r.attributes@ == seq![
                (AttributeDesc { offset: 0, shader_location: 1, format: AttributeFormat::Float32x2 }),
                (AttributeDesc { offset: 8, shader_location: 2, format: AttributeFormat::Float32x2 }),
                (AttributeDesc { offset: 16, shader_location: 3, format: AttributeFormat::Float32x3 }),
                (AttributeDesc { offset: 28, shader_location: 4, format: AttributeFormat::Float32 }),
            ],
            r.wf(),
    {
        let attributes: Vec<AttributeDesc> = vec![
            AttributeDesc { offset: 0, shader_location: 1, format: AttributeFormat::Float32x2 },
            AttributeDesc { offset: 8, shader_location: 2, format: AttributeFormat::Float32x2 },
            AttributeDesc { offset: 16, shader_location: 3, format: AttributeFormat::Float32x3 },
            AttributeDesc { offset: 28, shader_location: 4, format: AttributeFormat::Float32 },
        ];
        let r = InstanceLayoutDesc { array_stride: 32, attributes };
        proof {
            assert(r.attributes@.len() == 4);
            assert(r.wf());
        }
        r
    }

    /// Convert one rule item, applying the documented defaults.
    pub fn from_spec(item_spec: &RuleItemSpec) -> (r: Result<RuleInstance, VegaWgpuError>)
        ensures
            r == rule_instance_spec(*item_spec),
    {
        let stroke = match &item_spec.stroke {
            Some(s) => match parse_color(s.as_str()) {
                Ok(c) => c,
                Err(e) => {
                    return Err(e);
                },
            },
            None => default_gray(),
        };
        let x2 = match item_spec.x2 {
            Some(v) => v,
            None => item_spec.x,
        };
        let y2 = match item_spec.y2 {
            Some(v) => v,
            None => item_spec.y,
        };
        let stroke_width = match item_spec.stroke_width {
            Some(w) => w,
            None => SUBPIX,
        };
        let stroke_cap = match item_spec.stroke_cap {
            Some(cap) => cap,
            None => StrokeCap::Butt,
        };
        let r = RuleInstance {
            x0: item_spec.x,
            y0: item_spec.y,
            x1: x2,
            y1: y2,
            stroke,
            stroke_width,
            stroke_cap,
        };
        proof {
            assert(r == rule_instance_spec(*item_spec)->Ok_0);
        }
        Ok(r)
    }

    /// Convert a list of rule items in order, stopping at the first
    /// malformed one.
    pub fn from_specs(item_specs: &Vec<RuleItemSpec>) -> (r: Result<
        Vec<RuleInstance>,
        VegaWgpuError,
    >)
        ensures
            r is Ok <==> rule_items_ok(item_specs@),
            r matches Ok(v) ==> v@.len() == item_specs@.len() && forall|i: int|
                0 <= i < v@.len() ==> rule_instance_spec(item_specs@[i]) == Ok::<
                    RuleInstance,
                    VegaWgpuError,
                >(#[trigger] v@[i]),
            r matches Err(e) ==> exists|i: int|
                0 <= i < item_specs@.len() && #[trigger] rule_instance_spec(item_specs@[i]) == Err::<
                    RuleInstance,
                    VegaWgpuError,
                >(e) && forall|j: int| 0 <= j < i ==> #[trigger] rule_instance_spec(item_specs@[j]) is Ok,
    {
        let mut out: Vec<RuleInstance> = Vec::new();
        let mut i: usize = 0;
        while i < item_specs.len()
            invariant
                i <= item_specs@.len(),
                out@.len() == i,
                forall|k: int|
                    0 <= k < i ==> rule_instance_spec(item_specs@[k]) == Ok::<
                        RuleInstance,
                        VegaWgpuError,
                    >(#[trigger] out@[k]),
            decreases item_specs@.len() - i,
        {
            match RuleInstance::from_spec(&item_specs[i]) {
                Ok(inst) => out.push(inst),
                Err(e) => {
                    proof {
                        assert forall|j: int| 0 <= j < i implies #[trigger] rule_instance_spec(
                            item_specs@[j],
                        ) is Ok by {
                            assert(rule_instance_spec(item_specs@[j]) == Ok::<
                                RuleInstance,
                                VegaWgpuError,
                            >(out@[j]));
                        }
                        assert(rule_instance_spec(item_specs@[i as int]) == Err::<
                            RuleInstance,
                            VegaWgpuError,
                        >(e));
                    }
                    return Err(e);
                },
            }
            i = i + 1;
        }
        proof {
            assert forall|k: int| 0 <= k < item_specs@.len() implies #[trigger] rule_instance_spec(
                item_specs@[k],
            ) is Ok by {
                assert(rule_instance_spec(item_specs@[k]) == Ok::<RuleInstance, VegaWgpuError>(
                    out@[k],
                ));
            }
        }
        Ok(out)
    }
}

impl RuleMark {
    /// Convert a whole rule container: every item in order, plus the
    /// container's clip flag.
    pub fn from_spec(spec: &MarkContainerSpec<RuleItemSpec>) -> (r: Result<
        RuleMark,
        VegaWgpuError,
    >)
        ensures
            r is Ok <==> rule_items_ok(spec.items@),
            r matches Ok(m) ==> m.clip == spec.clip && m.instances@.len() == spec.items@.len()
                && forall|i: int|
                0 <= i < m.instances@.len() ==> rule_instance_spec(spec.items@[i]) == Ok::<
                    RuleInstance,
                    VegaWgpuError,
                >(#[trigger] m.instances@[i]),
            r matches Err(e) ==> exists|i: int|
                0 <= i < spec.items@.len() && #[trigger] rule_instance_spec(spec.items@[i]) == Err::<
                    RuleInstance,
                    VegaWgpuError,
                >(e) && forall|j: int| 0 <= j < i ==> #[trigger] rule_instance_spec(spec.items@[j]) is Ok,
    {
        let instances = match RuleInstance::from_specs(&spec.items) {
            Ok(v) => v,
            Err(e) => {
                return Err(e);
            },
        };
        Ok(RuleMark { instances, clip: spec.clip })
    }
}

} // verus!
