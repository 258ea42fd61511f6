//! Building the renderable scene from a specification tree.
//!
//! The walk visits each top-level group and converts each of its mark
//! containers.  Mark types that are declared by the document grammar but
//! have no pipeline here — including groups nested below the top level —
//! yield a typed error rather than silently dropped output.

use vstd::prelude::*;
use crate::error::VegaWgpuError;
use crate::scene::rect::{rect_instance_spec, rect_items_ok, RectMark};
use crate::scene::rule::{rule_instance_spec, rule_items_ok, RuleMark};
use crate::scene::symbol::{symbol_instance_spec, symbol_items_ok, SymbolMark};
use crate::specs::group::GroupItemSpec;
use crate::specs::mark::MarkSpec;
use crate::specs::SceneGraphSpec;

verus! {

/// One renderable mark of the scene.
pub enum SceneMark {
    Rect(RectMark),
    Rule(RuleMark),
    Symbol(SymbolMark),
}

/// One top-level group: its origin and the marks drawn inside it, in
/// list order.
pub struct SceneGroup {
    pub origin_x: i64,
    pub origin_y: i64,
    pub marks: Vec<SceneMark>,
}

/// The renderable scene: the top-level groups in list order, plus the
/// canvas dimensions and origin shared by every pipeline of a frame.
pub struct SceneGraph {
    pub groups: Vec<SceneGroup>,
    pub width: i64,
    pub height: i64,
    pub origin_x: i64,
    pub origin_y: i64,
}

/// Whether one mark specification converts to a renderable mark.
pub open spec fn mark_ok(m: MarkSpec) -> bool {
    match m {
        MarkSpec::Rect(c) => rect_items_ok(c.items@),
        MarkSpec::Rule(c) => rule_items_ok(c.items@),
        MarkSpec::Symbol(c) => symbol_items_ok(c.items@),
        _ => false,
    }
}

/// Whether a renderable mark is the conversion of a mark specification:
/// same mark type, the container's clip flag kept, and one instance per
/// item, each the item's conversion.
pub open spec fn mark_matches(s: SceneMark, m: MarkSpec) -> bool {
    match m {
        MarkSpec::Rect(c) => s matches SceneMark::Rect(rm) && rm.clip == c.clip
            && rm.instances@.len() == c.items@.len() && forall|i: int|
            0 <= i < c.items@.len() ==> #[trigger] rect_instance_spec(c.items@[i])
                == Ok::<_, VegaWgpuError>(rm.instances@[i]),
        MarkSpec::Rule(c) => s matches SceneMark::Rule(rm) && rm.clip == c.clip
            && rm.instances@.len() == c.items@.len() && forall|i: int|
            0 <= i < c.items@.len() ==> #[trigger] rule_instance_spec(c.items@[i])
                == Ok::<_, VegaWgpuError>(rm.instances@[i]),
        MarkSpec::Symbol(c) => s matches SceneMark::Symbol(sm) && sm.clip == c.clip
            && sm.instances@.len() == c.items@.len() && forall|i: int|
            0 <= i < c.items@.len() ==> #[trigger] symbol_instance_spec(c.items@[i])
                == Ok::<_, VegaWgpuError>(sm.instances@[i]),
        _ => false,
    }
}

/// Whether converting a mark specification yields exactly this error:
/// for the implemented mark types, the first item that does not convert
/// converts to it; for every other mark type, the unsupported-mark
/// error.
pub open spec fn mark_fails_with(m: MarkSpec, e: VegaWgpuError) -> bool {
    match m {
        MarkSpec::Rect(c) => exists|i: int|
            0 <= i < c.items@.len() && #[trigger] rect_instance_spec(c.items@[i])
                == Err::<crate::scene::rect::RectInstance, _>(e) && forall|j: int|
                0 <= j < i ==> #[trigger] rect_instance_spec(c.items@[j]) is Ok,
        MarkSpec::Rule(c) => exists|i: int|
            0 <= i < c.items@.len() && #[trigger] rule_instance_spec(c.items@[i])
                == Err::<crate::scene::rule::RuleInstance, _>(e) && forall|j: int|
                0 <= j < i ==> #[trigger] rule_instance_spec(c.items@[j]) is Ok,
        MarkSpec::Symbol(c) => exists|i: int|
            0 <= i < c.items@.len() && #[trigger] symbol_instance_spec(c.items@[i])
                == Err::<crate::scene::symbol::SymbolInstance, _>(e) && forall|j: int|
                0 <= j < i ==> #[trigger] symbol_instance_spec(c.items@[j]) is Ok,
        _ => e == VegaWgpuError::UnsupportedMark,
    }
}

/// Whether every mark of a group converts.
pub open spec fn group_ok(g: GroupItemSpec) -> bool {
    forall|k: int| 0 <= k < g.items@.len() ==> #[trigger] mark_ok(g.items@[k])
}

/// Whether a scene group is the conversion of a group item: origin kept
/// and each mark converted, in list order.
pub open spec fn group_matches(s: SceneGroup, g: GroupItemSpec) -> bool {
    &&& s.origin_x == g.x
    &&& s.origin_y == g.y
    &&& s.marks@.len() == g.items@.len()
    &&& forall|k: int| 0 <= k < g.items@.len() ==> #[trigger] mark_matches(s.marks@[k], g.items@[k])
}

/// Whether every group of a scene-graph document converts.
pub open spec fn graph_ok(spec: SceneGraphSpec) -> bool {
    forall|g: int| 0 <= g < spec.items@.len() ==> #[trigger] group_ok(spec.items@[g])
}

/// Convert one mark specification.
pub fn mark_from_spec(m: &MarkSpec) -> (r: Result<SceneMark, VegaWgpuError>)
    ensures
        r is Ok <==> mark_ok(*m),
        r matches Ok(s) ==> mark_matches(s, *m),
        r matches Err(e) ==> mark_fails_with(*m, e),
{
    match m {
        MarkSpec::Rect(c) => match RectMark::from_spec(c) {
            Ok(rm) => Ok(SceneMark::Rect(rm)),
            Err(e) => Err(e),
        },
        MarkSpec::Rule(c) => match RuleMark::from_spec(c) {
            Ok(rm) => Ok(SceneMark::Rule(rm)),
            Err(e) => Err(e),
        },
        MarkSpec::Symbol(c) => match SymbolMark::from_spec(c) {
            Ok(sm) => Ok(SceneMark::Symbol(sm)),
            Err(e) => Err(e),
        },
        _ => Err(VegaWgpuError::UnsupportedMark),
    }
}

impl SceneGroup {
    /// Convert one group item: every mark in list order, stopping at the
    /// first that fails.
    pub fn from_spec(g: &GroupItemSpec) -> (r: Result<SceneGroup, VegaWgpuError>)
        ensures
            r is Ok <==> group_ok(*g),
            r matches Ok(s) ==> group_matches(s, *g),
            r matches Err(e) ==> exists|k: int|
                0 <= k < g.items@.len() && #[trigger] mark_fails_with(g.items@[k], e) && forall|
                    j: int,
                |
                    0 <= j < k ==> #[trigger] mark_ok(g.items@[j]),
    {
        let mut marks: Vec<SceneMark> = Vec::new();
        let mut k: usize = 0;
        while k < g.items.len()
            invariant
                k <= g.items@.len(),
                marks@.len() == k,
                forall|j: int| 0 <= j < k ==> #[trigger] mark_ok(g.items@[j]),
                forall|j: int| 0 <= j < k ==> #[trigger] mark_matches(marks@[j], g.items@[j]),
            decreases g.items@.len() - k,
        {
            match mark_from_spec(&g.items[k]) {
                Ok(s) => marks.push(s),
                Err(e) => {
                    return Err(e);
                },
            }
            k = k + 1;
        }
        Ok(SceneGroup { origin_x: g.x, origin_y: g.y, marks })
    }
}

impl SceneGraph {
    /// Convert a whole scene-graph document against its dimensions:
    /// every top-level group in list order, stopping at the first mark
    /// that fails.
    pub fn from_spec(spec: &SceneGraphSpec, origin: [i64; 2], width: i64, height: i64) -> (r:
        Result<SceneGraph, VegaWgpuError>)
        ensures
            r is Ok <==> graph_ok(*spec),
            r matches Ok(s) ==> s.width == width && s.height == height && s.origin_x == origin[0]
                && s.origin_y == origin[1] && s.groups@.len() == spec.items@.len() && forall|g: int|
                0 <= g < spec.items@.len() ==> #[trigger] group_matches(s.groups@[g], spec.items@[g]),
            r matches Err(e) ==> exists|g: int, k: int|
                0 <= g < spec.items@.len() && 0 <= k < spec.items@[g].items@.len()
                    && #[trigger] mark_fails_with(spec.items@[g].items@[k], e) && (forall|j: int|
                    0 <= j < g ==> #[trigger] group_ok(spec.items@[j])) && (forall|j: int|
                    0 <= j < k ==> #[trigger] mark_ok(spec.items@[g].items@[j])),
    {
        let mut groups: Vec<SceneGroup> = Vec::new();
        let mut gi: usize = 0;
        while gi < spec.items.len()
            invariant
                gi <= spec.items@.len(),
                groups@.len() == gi,
                forall|j: int| 0 <= j < gi ==> #[trigger] group_ok(spec.items@[j]),
                forall|j: int| 0 <= j < gi ==> #[trigger] group_matches(groups@[j], spec.items@[j]),
            decreases spec.items@.len() - gi,
        {
            match SceneGroup::from_spec(&spec.items[gi]) {
                Ok(s) => groups.push(s),
                Err(e) => {
                    return Err(e);
                },
            }
            gi = gi + 1;
        }
        let origin_x = origin[0];
        let origin_y = origin[1];
        Ok(SceneGraph { groups, width, height, origin_x, origin_y })
    }
}

} // verus!
