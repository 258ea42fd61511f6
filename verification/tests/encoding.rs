//! Column-encoded values: both encodings resolve to the declared count.

use vega_wgpu_renderer::error::VegaWgpuError;
use vega_wgpu_renderer::marks::rect::RectMark;
use vega_wgpu_renderer::value::{EncodingValue, Rgb};

#[test]
fn scalar_resolves_to_declared_count() {
    let v: EncodingValue<i64> = EncodingValue::Scalar { value: 7 };
    let seq = v.as_vec(5);
    assert_eq!(seq.len(), 5);
    for x in &seq {
        assert_eq!(*x, 7);
    }
}

#[test]
fn array_resolves_to_stored_values() {
    let v: EncodingValue<i64> = EncodingValue::Array { values: vec![1, 2, 3] };
    let seq = v.as_vec(3);
    assert_eq!(seq, vec![1, 2, 3]);
}

#[test]
fn scalar_resolves_to_zero_count() {
    let v: EncodingValue<i64> = EncodingValue::Scalar { value: 9 };
    assert_eq!(v.as_vec(0).len(), 0);
}

#[test]
fn string_field_resolves_like_any_other() {
    let v: EncodingValue<String> = EncodingValue::Scalar { value: "abc".to_string() };
    let seq = v.as_string_vec(3);
    assert_eq!(seq, vec!["abc".to_string(), "abc".to_string(), "abc".to_string()]);
}

#[test]
fn mark_fields_resolve_to_mark_len() {
    let mark = RectMark {
        name: "r".to_string(),
        clip: false,
        len: 4,
        x: EncodingValue::Array { values: vec![0, 1, 2, 3] },
        y: EncodingValue::Scalar { value: 0 },
        width: EncodingValue::Scalar { value: 10 },
        height: EncodingValue::Scalar { value: 10 },
        fill: EncodingValue::Scalar { value: Rgb { r: 1, g: 2, b: 3 } },
    };
    assert!(mark.validate().is_ok());
    assert_eq!(mark.x_iter().len(), 4);
    assert_eq!(mark.y_iter().len(), 4);
    assert_eq!(mark.width_iter().len(), 4);
    assert_eq!(mark.height_iter().len(), 4);
    assert_eq!(mark.fill_iter().len(), 4);
}

#[test]
fn mismatched_array_length_is_typed_error() {
    let mark = RectMark {
        name: "r".to_string(),
        clip: false,
        len: 4,
        x: EncodingValue::Array { values: vec![0, 1] },
        y: EncodingValue::Scalar { value: 0 },
        width: EncodingValue::Scalar { value: 10 },
        height: EncodingValue::Scalar { value: 10 },
        fill: EncodingValue::Scalar { value: Rgb { r: 0, g: 0, b: 0 } },
    };
    assert_eq!(mark.validate(), Err(VegaWgpuError::LengthMismatch));
}

#[test]
fn default_rect_mark_is_well_formed() {
    let mark = RectMark::default();
    assert_eq!(mark.len, 1);
    assert!(mark.clip);
    assert!(mark.validate().is_ok());
    assert_eq!(mark.x_iter(), vec![0]);
    assert_eq!(mark.fill_iter(), vec![Rgb { r: 0, g: 0, b: 0 }]);
}
