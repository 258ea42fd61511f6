//! The text subsystem's decisions: instance expansion, family and
//! weight resolution, and placement.

use vega_wgpu_renderer::error::VegaWgpuError;
use vega_wgpu_renderer::marks::text::{
    FontStyleSpec, FontWeightNameSpec, FontWeightSpec, TextAlignSpec, TextBaselineSpec, TextMark,
};
use vega_wgpu_renderer::renderers::text::{
    horizontal_anchor, resolve_family, vertical_anchor, weight_value, FontFamily, TextInstance,
};
use vega_wgpu_renderer::value::{EncodingValue, Rgb, HALF_SUBPIX, SUBPIX};

fn px(v: i64) -> i64 {
    v * SUBPIX
}

fn sample_mark() -> TextMark {
    TextMark {
        name: "labels".to_string(),
        clip: false,
        len: 2,
        text: EncodingValue::Array {
            values: vec!["first".to_string(), "second".to_string()],
        },
        x: EncodingValue::Array { values: vec![px(1), px(2)] },
        y: EncodingValue::Scalar { value: px(3) },
        color: EncodingValue::Scalar { value: Rgb { r: 0, g: 0, b: 0 } },
        opacity: EncodingValue::Scalar { value: SUBPIX },
        align: EncodingValue::Scalar { value: TextAlignSpec::Left },
        angle: EncodingValue::Scalar { value: 0 },
        baseline: EncodingValue::Scalar { value: TextBaselineSpec::Alphabetic },
        dx: EncodingValue::Scalar { value: 0 },
        dy: EncodingValue::Scalar { value: 0 },
        font: EncodingValue::Scalar { value: "sans serif".to_string() },
        font_size: EncodingValue::Scalar { value: px(10) },
        font_weight: EncodingValue::Scalar {
            value: FontWeightSpec::Name(FontWeightNameSpec::Normal),
        },
        font_style: EncodingValue::Scalar { value: FontStyleSpec::Normal },
        limit: EncodingValue::Scalar { value: 0 },
    }
}

#[test]
fn text_mark_expands_to_len_instances() {
    let mark = sample_mark();
    assert!(mark.validate().is_ok());
    let instances: Vec<TextInstance> = TextInstance::iter_from_spec(&mark);
    assert_eq!(instances.len(), 2);
    assert_eq!(instances[0].text, "first");
    assert_eq!(instances[1].text, "second");
    assert_eq!(instances[0].position, [px(1), px(3)]);
    assert_eq!(instances[1].position, [px(2), px(3)]);
    assert_eq!(instances[0].font, "sans serif");
    assert_eq!(instances[1].align, TextAlignSpec::Left);
}

#[test]
fn text_mark_with_mismatched_text_column_is_typed_error() {
    let mut mark = sample_mark();
    mark.text = EncodingValue::Array { values: vec!["only one".to_string()] };
    assert_eq!(mark.validate(), Err(VegaWgpuError::LengthMismatch));
}

#[test]
fn generic_families_resolve_case_insensitively() {
    assert!(matches!(resolve_family("serif"), FontFamily::Serif));
    assert!(matches!(resolve_family("Sans Serif"), FontFamily::SansSerif));
    assert!(matches!(resolve_family("CURSIVE"), FontFamily::Cursive));
    assert!(matches!(resolve_family("fantasy"), FontFamily::Fantasy));
    assert!(matches!(resolve_family("Monospace"), FontFamily::Monospace));
}

#[test]
fn other_families_resolve_to_their_own_name() {
    match resolve_family("Helvetica") {
        FontFamily::Named(n) => assert_eq!(n, "Helvetica"),
        _ => panic!("expected a named family"),
    }
}

#[test]
fn weights_resolve_to_shaping_values() {
    assert_eq!(weight_value(&FontWeightSpec::Name(FontWeightNameSpec::Bold)), 700);
    assert_eq!(weight_value(&FontWeightSpec::Name(FontWeightNameSpec::Normal)), 400);
    assert_eq!(weight_value(&FontWeightSpec::Number(550)), 550);
}

#[test]
fn horizontal_placement_follows_the_policy() {
    let x = px(50);
    let w = px(10);
    assert_eq!(horizontal_anchor(TextAlignSpec::Left, x, w), x);
    assert_eq!(horizontal_anchor(TextAlignSpec::Center, x, w), x - w / 2);
    assert_eq!(horizontal_anchor(TextAlignSpec::Right, x, w), x - w);
}

#[test]
fn anchors_are_strictly_ordered_for_positive_width() {
    let x = px(50);
    let w = px(10);
    let left = horizontal_anchor(TextAlignSpec::Left, x, w);
    let center = horizontal_anchor(TextAlignSpec::Center, x, w);
    let right = horizontal_anchor(TextAlignSpec::Right, x, w);
    assert!(right < center && center < left);
}

#[test]
fn vertical_placement_follows_the_policy() {
    let y = px(40);
    let h = px(12);
    assert_eq!(vertical_anchor(TextBaselineSpec::Alphabetic, y, h), Ok(y - h));
    assert_eq!(vertical_anchor(TextBaselineSpec::Bottom, y, h), Ok(y - h));
    assert_eq!(vertical_anchor(TextBaselineSpec::Top, y, h), Ok(y + HALF_SUBPIX));
    assert_eq!(vertical_anchor(TextBaselineSpec::Middle, y, h), Ok(y - h / 2));
}

#[test]
fn line_relative_baselines_are_typed_errors() {
    assert_eq!(
        vertical_anchor(TextBaselineSpec::LineTop, 0, 0),
        Err(VegaWgpuError::UnsupportedBaseline)
    );
    assert_eq!(
        vertical_anchor(TextBaselineSpec::LineBottom, 0, 0),
        Err(VegaWgpuError::UnsupportedBaseline)
    );
}
