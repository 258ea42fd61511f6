//! Color parsing: deterministic, total over the CSS grammar, typed
//! errors outside it.

use vega_wgpu_renderer::color::{default_gray, parse_color};
use vega_wgpu_renderer::error::VegaWgpuError;
use vega_wgpu_renderer::value::Rgb;

#[test]
fn hex_color_parses_exactly() {
    assert_eq!(parse_color("#ff0000"), Ok(Rgb { r: 255, g: 0, b: 0 }));
    assert_eq!(parse_color("#00ff00"), Ok(Rgb { r: 0, g: 255, b: 0 }));
    assert_eq!(parse_color("#0000ff"), Ok(Rgb { r: 0, g: 0, b: 255 }));
    assert_eq!(parse_color("#4682b4"), Ok(Rgb { r: 70, g: 130, b: 180 }));
}

#[test]
fn short_hex_and_named_colors_parse() {
    assert_eq!(parse_color("#f00"), Ok(Rgb { r: 255, g: 0, b: 0 }));
    assert_eq!(parse_color("red"), Ok(Rgb { r: 255, g: 0, b: 0 }));
    assert_eq!(parse_color("steelblue"), Ok(Rgb { r: 70, g: 130, b: 180 }));
}

#[test]
fn functional_syntax_parses() {
    assert_eq!(parse_color("rgb(0,128,255)"), Ok(Rgb { r: 0, g: 128, b: 255 }));
    assert_eq!(parse_color("hsl(360deg,100%,50%)"), Ok(Rgb { r: 255, g: 0, b: 0 }));
}

#[test]
fn invalid_color_is_typed_error() {
    assert_eq!(parse_color("not a color"), Err(VegaWgpuError::InvalidColor));
    assert_eq!(parse_color("#ggg"), Err(VegaWgpuError::InvalidColor));
    assert_eq!(parse_color(""), Err(VegaWgpuError::InvalidColor));
}

#[test]
fn parsing_is_deterministic() {
    for s in ["#ff0000", "steelblue", "rgb(1,2,3)", "garbage"] {
        assert_eq!(parse_color(s), parse_color(s));
    }
}

#[test]
fn missing_paint_default_is_mid_gray() {
    assert_eq!(default_gray(), Rgb { r: 128, g: 128, b: 128 });
}

#[test]
fn error_messages_name_the_error() {
    assert!(!VegaWgpuError::InvalidColor.message().is_empty());
    assert!(!VegaWgpuError::MissingWidth.message().is_empty());
    assert!(!VegaWgpuError::MissingHeight.message().is_empty());
    assert!(!VegaWgpuError::UnsupportedMark.message().is_empty());
    assert!(!VegaWgpuError::LengthMismatch.message().is_empty());
    assert!(!VegaWgpuError::UnsupportedBaseline.message().is_empty());
}
