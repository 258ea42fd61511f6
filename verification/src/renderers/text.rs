//! The text subsystem's decisions: expanding a text mark into per-string
//! instances, resolving font families and weights, and the alignment and
//! baseline placement policy.
//!
//! Shaping and measuring strings, and drawing glyphs through the atlas,
//! depend on the fonts installed on the machine and stay with the
//! embedding application; every rule that can be stated over plain
//! values is fixed here.

use vstd::prelude::*;
use crate::error::VegaWgpuError;
use crate::marks::text::{
    FontStyleSpec, FontWeightNameSpec, FontWeightSpec, TextAlignSpec, TextBaselineSpec, TextMark,
};
use crate::value::{Rgb, HALF_SUBPIX};

verus! {

/// One text instance: a string with its anchor, paint and font
/// attributes, in subpixel units.
#[derive(Clone, Debug)]
pub struct TextInstance {
    pub text: String,
    pub position: [i64; 2],
    pub color: Rgb,
    pub opacity: i64,
    pub align: TextAlignSpec,
    pub angle: i64,
    pub baseline: TextBaselineSpec,
    pub dx: i64,
    pub dy: i64,
    pub font: String,
    pub font_size: i64,
    pub font_weight: FontWeightSpec,
    pub font_style: FontStyleSpec,
    pub limit: i64,
}

/// Whether `inst` is row `i` of the text mark: every field equals the
/// mark's corresponding column-encoded field resolved at `i`.
pub open spec fn instance_at(m: TextMark, inst: TextInstance, i: int) -> bool {
    let n = m.len as nat;
    &&& inst.text == m.text.resolved(n)[i]
    &&& inst.position@[0] == m.x.resolved(n)[i]
    &&& inst.position@[1] == m.y.resolved(n)[i]
    &&& inst.color == m.color.resolved(n)[i]
    &&& inst.opacity == m.opacity.resolved(n)[i]
    &&& inst.align == m.align.resolved(n)[i]
    &&& inst.angle == m.angle.resolved(n)[i]
    &&& inst.baseline == m.baseline.resolved(n)[i]
    &&& inst.dx == m.dx.resolved(n)[i]
    &&& inst.dy == m.dy.resolved(n)[i]
    &&& inst.font == m.font.resolved(n)[i]
    &&& inst.font_size == m.font_size.resolved(n)[i]
    &&& inst.font_weight == m.font_weight.resolved(n)[i]
    &&& inst.font_style == m.font_style.resolved(n)[i]
    &&& inst.limit == m.limit.resolved(n)[i]
}

impl TextInstance {
    /// Expand a text mark into its `len` instances by zipping the
    /// resolved field columns in lock-step.
    pub fn iter_from_spec(mark: &TextMark) -> (r: Vec<TextInstance>)
        requires
            mark.wf(),
        ensures
            r@.len() == mark.len as nat,
            forall|i: int| 0 <= i < r@.len() ==> #[trigger] instance_at(*mark, r@[i], i),
    {
        let n = mark.len as usize;
        let texts = mark.text.as_string_vec(n);
        let xs = mark.x.as_vec(n);
        let ys = mark.y.as_vec(n);
        let colors = mark.color.as_vec(n);
        let opacities = mark.opacity.as_vec(n);
        let aligns = mark.align.as_vec(n);
        let angles = mark.angle.as_vec(n);
        let baselines = mark.baseline.as_vec(n);
        let dxs = mark.dx.as_vec(n);
        let dys = mark.dy.as_vec(n);
        let fonts = mark.font.as_string_vec(n);
        let font_sizes = mark.font_size.as_vec(n);
        let font_weights = mark.font_weight.as_vec(n);
        let font_styles = mark.font_style.as_vec(n);
        let limits = mark.limit.as_vec(n);
        let mut out: Vec<TextInstance> = Vec::new();
        let mut i: usize = 0;
        while i < n
            invariant
                i <= n,
                n == mark.len,
                mark.wf(),
                out@.len() == i,
                texts@ == mark.text.resolved(n as nat),
                xs@ == mark.x.resolved(n as nat),
                ys@ == mark.y.resolved(n as nat),
                colors@ == mark.color.resolved(n as nat),
                opacities@ == mark.opacity.resolved(n as nat),
                aligns@ == mark.align.resolved(n as nat),
                angles@ == mark.angle.resolved(n as nat),
                baselines@ == mark.baseline.resolved(n as nat),
                dxs@ == mark.dx.resolved(n as nat),
                dys@ == mark.dy.resolved(n as nat),
                fonts@ == mark.font.resolved(n as nat),
                font_sizes@ == mark.font_size.resolved(n as nat),
                font_weights@ == mark.font_weight.resolved(n as nat),
                font_styles@ == mark.font_style.resolved(n as nat),
                limits@ == mark.limit.resolved(n as nat),
                forall|j: int| 0 <= j < i ==> #[trigger] instance_at(*mark, out@[j], j),
            decreases n - i,
        {
            let inst = TextInstance {
                text: texts[i].clone(),
                position: [xs[i], ys[i]],
                color: colors[i],
                opacity: opacities[i],
                align: aligns[i],
                angle: angles[i],
                baseline: baselines[i],
                dx: dxs[i],
                dy: dys[i],
                font: fonts[i].clone(),
                font_size: font_sizes[i],
                font_weight: font_weights[i],
                font_style: font_styles[i],
                limit: limits[i],
            };
            proof {
                assert(instance_at(*mark, inst, i as int));
            }
            out.push(inst);
            i = i + 1;
        }
        out
    }
}

/// A logical font family: one of the five generic families, or a named
/// one.
#[derive(Clone, Debug)]
pub enum FontFamily {
    Serif,
    SansSerif,
    Cursive,
    Fantasy,
    Monospace,
    Named(String),
}

/// The generic family a lowercased family request maps to, if any.
pub open spec fn family_keyword(ls: Seq<char>) -> Option<FontFamily> {
    if ls == "serif"@ {
        Some(FontFamily::Serif)
    } else if ls == "sans serif"@ {
        Some(FontFamily::SansSerif)
    } else if ls == "cursive"@ {
        Some(FontFamily::Cursive)
    } else if ls == "fantasy"@ {
        Some(FontFamily::Fantasy)
    } else if ls == "monospace"@ {
        Some(FontFamily::Monospace)
    } else {
        None
    }
}

/// What lowercasing a string yields; the result depends on the
/// characters alone.
pub uninterp spec fn lower_of(s: Seq<char>) -> Seq<char>;

/// Relies on `str::to_lowercase`: the lowercase equivalent of a string
/// is a pure function of its characters.
#[verifier::external_body]
fn lowercase(s: &str) -> (r: String)
    ensures
        r@ == lower_of(s@),
{
    s.to_lowercase()
}

/// Resolve a requested font family name to a logical family: the five
/// generic families are recognized case-insensitively, anything else
/// names a concrete family verbatim.
pub fn resolve_family(font: &str) -> (r: FontFamily)
    ensures
        match family_keyword(lower_of(font@)) {
            Some(f) => r == f,
            None => r matches FontFamily::Named(n) && n@ == font@,
        },
{
    let lower = lowercase(font);
    let serif: String = "serif".to_owned();
    if lower == serif {
        return FontFamily::Serif;
    }
    let sans: String = "sans serif".to_owned();
    if lower == sans {
        return FontFamily::SansSerif;
    }
    let cursive: String = "cursive".to_owned();
    if lower == cursive {
        return FontFamily::Cursive;
    }
    let fantasy: String = "fantasy".to_owned();
    if lower == fantasy {
        return FontFamily::Fantasy;
    }
    let monospace: String = "monospace".to_owned();
    if lower == monospace {
        return FontFamily::Monospace;
    }
    FontFamily::Named(font.to_owned())
}

/// The shaping weight a font-weight request maps to: named bold is 700,
/// named normal is 400, a numeric weight is itself.
pub open spec fn weight_value_spec(w: FontWeightSpec) -> u16 {
    match w {
        FontWeightSpec::Name(FontWeightNameSpec::Bold) => 700,
        FontWeightSpec::Name(FontWeightNameSpec::Normal) => 400,
        FontWeightSpec::Number(n) => n,
    }
}

/// Resolve a font-weight request to a numeric shaping weight.
pub fn weight_value(w: &FontWeightSpec) -> (r: u16)
    ensures
        r == weight_value_spec(*w),
{
    match w {
        FontWeightSpec::Name(FontWeightNameSpec::Bold) => 700,
        FontWeightSpec::Name(FontWeightNameSpec::Normal) => 400,
        FontWeightSpec::Number(n) => *n,
    }
}

/// Where the left edge of a measured text box goes for an anchor `x`:
/// at the anchor for left alignment, back by half the width for center,
/// back by the whole width for right.
pub open spec fn horizontal_anchor_spec(align: TextAlignSpec, x: int, width: int) -> int {
    match align {
        TextAlignSpec::Left => x,
        TextAlignSpec::Center => x - width / 2,
        TextAlignSpec::Right => x - width,
    }
}

/// Place the left edge of a text box of measured `width` at anchor `x`.
pub fn horizontal_anchor(align: TextAlignSpec, x: i64, width: i64) -> (r: i64)
    requires
        0 <= width,
        i64::MIN <= x - width,
    ensures
        r == horizontal_anchor_spec(align, x as int, width as int),
{
    match align {
        TextAlignSpec::Left => x,
        TextAlignSpec::Center => x - width / 2,
        TextAlignSpec::Right => x - width,
    }
}

/// Where the top edge of a measured text box goes for an anchor `y`:
/// above by the whole height for the alphabetic and bottom baselines,
/// half a pixel below the anchor for the top baseline (a deliberate
/// sub-pixel bias matching the reference rasterizer), above by half the
/// height for the middle baseline.  The line-relative baselines have no
/// placement rule and are the typed baseline error.
pub open spec fn vertical_anchor_spec(baseline: TextBaselineSpec, y: int, height: int) -> Result<
    int,
    VegaWgpuError,
> {
    match baseline {
        TextBaselineSpec::Alphabetic => Ok(y - height),
        TextBaselineSpec::Top => Ok(y + HALF_SUBPIX as int),
        TextBaselineSpec::Middle => Ok(y - height / 2),
        TextBaselineSpec::Bottom => Ok(y - height),
        TextBaselineSpec::LineTop => Err(VegaWgpuError::UnsupportedBaseline),
        TextBaselineSpec::LineBottom => Err(VegaWgpuError::UnsupportedBaseline),
    }
}

/// Place the top edge of a text box of measured `height` at anchor `y`.
pub fn vertical_anchor(baseline: TextBaselineSpec, y: i64, height: i64) -> (r: Result<
    i64,
    VegaWgpuError,
>)
    requires
        0 <= height,
        i64::MIN <= y - height,
        y + HALF_SUBPIX <= i64::MAX,
    ensures
        r matches Ok(v) ==> vertical_anchor_spec(baseline, y as int, height as int) == Ok::<
            int,
            VegaWgpuError,
        >(v as int),
        r matches Err(e) ==> vertical_anchor_spec(baseline, y as int, height as int) == Err::<
            int,
            VegaWgpuError,
        >(e),
{
    match baseline {
        TextBaselineSpec::Alphabetic => Ok(y - height),
        TextBaselineSpec::Top => Ok(y + HALF_SUBPIX),
        TextBaselineSpec::Middle => Ok(y - height / 2),
        TextBaselineSpec::Bottom => Ok(y - height),
        TextBaselineSpec::LineTop => Err(VegaWgpuError::UnsupportedBaseline),
        TextBaselineSpec::LineBottom => Err(VegaWgpuError::UnsupportedBaseline),
    }
}

/// Law: for a box of positive measured width at a fixed anchor, the
/// three horizontal alignments place its left edge in strict order —
/// right alignment leftmost, then center, then left alignment.  (A
/// width of a single subpixel unit rounds the half-width to zero and
/// makes center and left coincide, so two units is the least width with
/// strict order.)
pub proof fn lemma_horizontal_anchor_order(x: int, width: int)
    requires
        width >= 2,
    ensures
        horizontal_anchor_spec(TextAlignSpec::Right, x, width) < horizontal_anchor_spec(
            TextAlignSpec::Center,
            x,
            width,
        ),
        horizontal_anchor_spec(TextAlignSpec::Center, x, width) < horizontal_anchor_spec(
            TextAlignSpec::Left,
            x,
            width,
        ),
{
    assert(1 <= width / 2 < width);
}

} // verus!
