//! Symbol instances: one centered shape per record.

use vstd::prelude::*;
use crate::color::{css_color_of, default_gray, parse_color};
use crate::error::VegaWgpuError;
use crate::specs::mark::MarkContainerSpec;
use crate::specs::symbol::SymbolItemSpec;
use crate::value::{Rgb, SUBPIX};

verus! {

/// All symbol instances of one container, with the container's clip
/// flag.
pub struct SymbolMark {
    pub instances: Vec<SymbolInstance>,
    pub clip: bool,
}

/// One GPU-facing symbol record: center, fill color and size, in
/// subpixel units.
#[derive(Clone, Copy, Debug, PartialEq, Eq)]
pub struct SymbolInstance {
    pub position: [i64; 2],
    pub color: Rgb,
    pub size: i64,
}

/// What converting one symbol item yields: a typed error for an
/// unparsable fill string, else the instance with a missing fill
/// defaulting to mid-gray and a missing size defaulting to one pixel.
pub open spec fn symbol_instance_spec(item: SymbolItemSpec) -> Result<
    SymbolInstance,
    VegaWgpuError,
> {
    let color = match item.fill {
        Some(f) => css_color_of(f@),
        None => Some((128u8, 128u8, 128u8)),
    };
    match color {
        None => Err(VegaWgpuError::InvalidColor),
        Some(c) => Ok(
            SymbolInstance {
                position: [item.x, item.y],
                color: Rgb { r: c.0, g: c.1, b: c.2 },
                size: match item.size {
                    Some(s) => s,
                    None => SUBPIX,
                },
            },
        ),
    }
}

/// Whether every item of a sequence converts to an instance.
pub open spec fn symbol_items_ok(items: Seq<SymbolItemSpec>) -> bool {
    forall|i: int| 0 <= i < items.len() ==> #[trigger] symbol_instance_spec(items[i]) is Ok
}

impl SymbolInstance {
    /// Convert one symbol item, applying the documented defaults.
    pub fn from_spec(item_spec: &SymbolItemSpec) -> (r: Result<SymbolInstance, VegaWgpuError>)
        ensures
            r == symbol_instance_spec(*item_spec),
    {
        let color = match &item_spec.fill {
            Some(f) => match parse_color(f.as_str()) {
                Ok(c) => c,
                Err(e) => {
                    return Err(e);
                },
            },
            None => default_gray(),
        };
        let size = match item_spec.size {
            Some(s) => s,
            None => SUBPIX,
        };
        let r = SymbolInstance { position: [item_spec.x, item_spec.y], color, size };
        proof {
            assert(r.position@ =~= symbol_instance_spec(*item_spec)->Ok_0.position@);
            assert(r == symbol_instance_spec(*item_spec)->Ok_0);
        }
        Ok(r)
    }

    /// Convert a list of symbol items in order, stopping at the first
    /// malformed one.
    pub fn from_specs(item_specs: &Vec<SymbolItemSpec>) -> (r: Result<
        Vec<SymbolInstance>,
        VegaWgpuError,
    >)
        ensures
            r is Ok <==> symbol_items_ok(item_specs@),
            r matches Ok(v) ==> v@.len() == item_specs@.len() && forall|i: int|
                0 <= i < v@.len() ==> symbol_instance_spec(item_specs@[i]) == Ok::<
                    SymbolInstance,
                    VegaWgpuError,
                >(#[trigger] v@[i]),
            r matches Err(e) ==> exists|i: int|
                0 <= i < item_specs@.len() && #[trigger] symbol_instance_spec(item_specs@[i])
                    == Err::<SymbolInstance, VegaWgpuError>(e) && forall|j: int|
                    0 <= j < i ==> #[trigger] symbol_instance_spec(item_specs@[j]) is Ok,
    {
        let mut out: Vec<SymbolInstance> = Vec::new();
        let mut i: usize = 0;
        while i < item_specs.len()
            invariant
                i <= item_specs@.len(),
                out@.len() == i,
                forall|k: int|
                    0 <= k < i ==> symbol_instance_spec(item_specs@[k]) == Ok::<
                        SymbolInstance,
                        VegaWgpuError,
                    >(#[trigger] out@[k]),
            decreases item_specs@.len() - i,
        {
            match SymbolInstance::from_spec(&item_specs[i]) {
                Ok(inst) => out.push(inst),
                Err(e) => {
                    proof {
                        assert forall|j: int| 0 <= j < i implies #[trigger] symbol_instance_spec(
                            item_specs@[j],
                        ) is Ok by {
                            assert(symbol_instance_spec(item_specs@[j]) == Ok::<
                                SymbolInstance,
                                VegaWgpuError,
                            >(out@[j]));
                        }
                        assert(symbol_instance_spec(item_specs@[i as int]) == Err::<
                            SymbolInstance,
                            VegaWgpuError,
                        >(e));
                    }
                    return Err(e);
                },
            }
            i = i + 1;
        }
        proof {
            assert forall|k: int|
                0 <= k < item_specs@.len() implies #[trigger] symbol_instance_spec(
                item_specs@[k],
            ) is Ok by {
                assert(symbol_instance_spec(item_specs@[k]) == Ok::<SymbolInstance, VegaWgpuError>(
                    out@[k],
                ));
            }
        }
        Ok(out)
    }
}

impl SymbolMark {
    /// Convert a whole symbol container: every item in order, plus the
    /// container's clip flag.
    pub fn from_spec(spec: &MarkContainerSpec<SymbolItemSpec>) -> (r: Result<
        SymbolMark,
        VegaWgpuError,
    >)
        ensures
            r is Ok <==> symbol_items_ok(spec.items@),
            r matches Ok(m) ==> m.clip == spec.clip && m.instances@.len() == spec.items@.len()
                && forall|i: int|
                0 <= i < m.instances@.len() ==> symbol_instance_spec(spec.items@[i]) == Ok::<
                    SymbolInstance,
                    VegaWgpuError,
                >(#[trigger] m.instances@[i]),
            r matches Err(e) ==> exists|i: int|
                0 <= i < spec.items@.len() && #[trigger] symbol_instance_spec(spec.items@[i])
                    == Err::<SymbolInstance, VegaWgpuError>(e) && forall|j: int|
                    0 <= j < i ==> #[trigger] symbol_instance_spec(spec.items@[j]) is Ok,
    {
        let instances = match SymbolInstance::from_specs(&spec.items) {
            Ok(v) => v,
            Err(e) => {
                return Err(e);
            },
        };
        Ok(SymbolMark { instances, clip: spec.clip })
    }
}

} // verus!
