//! Instance builders: field validation, defaults, and the rect scenario
//! of two instances from column-encoded inputs.

use vega_wgpu_renderer::error::VegaWgpuError;
use vega_wgpu_renderer::scene::rect::{RectInstance, RectMark};
use vega_wgpu_renderer::scene::rule::RuleInstance;
use vega_wgpu_renderer::scene::symbol::SymbolInstance;
use vega_wgpu_renderer::specs::mark::MarkContainerSpec;
use vega_wgpu_renderer::specs::rect::RectItemSpec;
use vega_wgpu_renderer::specs::rule::RuleItemSpec;
use vega_wgpu_renderer::specs::symbol::SymbolItemSpec;
use vega_wgpu_renderer::value::{Rgb, StrokeCap, SUBPIX};

fn px(v: i64) -> i64 {
    v * SUBPIX
}

fn rect_item(x: i64, y: i64) -> RectItemSpec {
    RectItemSpec {
        x,
        y,
        width: Some(px(5)),
        height: Some(px(5)),
        fill: Some("#ff0000".to_string()),
    }
}

#[test]
fn rect_mark_with_two_instances() {
    let spec = MarkContainerSpec {
        items: vec![rect_item(px(0), px(0)), rect_item(px(10), px(0))],
        clip: false,
        interactive: false,
        name: None,
        zindex: None,
    };
    let mark = RectMark::from_spec(&spec).unwrap();
    assert_eq!(mark.instances.len(), 2);
    for inst in &mark.instances {
        assert_eq!(inst.color, Rgb { r: 255, g: 0, b: 0 });
        assert_eq!(inst.width, px(5));
        assert_eq!(inst.height, px(5));
    }
    assert_eq!(mark.instances[0].position, [px(0), px(0)]);
    assert_eq!(mark.instances[1].position, [px(10), px(0)]);
    assert!(!mark.clip);
}

#[test]
fn rect_missing_width_is_typed_error() {
    let mut item = rect_item(0, 0);
    item.width = None;
    assert_eq!(RectInstance::from_spec(&item), Err(VegaWgpuError::MissingWidth));
}

#[test]
fn rect_missing_height_is_typed_error() {
    let mut item = rect_item(0, 0);
    item.height = None;
    assert_eq!(RectInstance::from_spec(&item), Err(VegaWgpuError::MissingHeight));
}

#[test]
fn rect_bad_fill_is_typed_error() {
    let mut item = rect_item(0, 0);
    item.fill = Some("#zzz".to_string());
    assert_eq!(RectInstance::from_spec(&item), Err(VegaWgpuError::InvalidColor));
}

#[test]
fn rect_missing_fill_defaults_to_mid_gray() {
    let mut item = rect_item(0, 0);
    item.fill = None;
    let inst = RectInstance::from_spec(&item).unwrap();
    assert_eq!(inst.color, Rgb { r: 128, g: 128, b: 128 });
}

#[test]
fn rect_first_error_wins() {
    let good = rect_item(0, 0);
    let mut missing_height = rect_item(0, 0);
    missing_height.height = None;
    let mut bad_fill = rect_item(0, 0);
    bad_fill.fill = Some("nope".to_string());
    let items = vec![good, missing_height, bad_fill];
    assert_eq!(RectInstance::from_specs(&items), Err(VegaWgpuError::MissingHeight));
}

#[test]
fn rule_defaults_fill_in() {
    let item = RuleItemSpec {
        x: px(1),
        y: px(2),
        x2: None,
        y2: None,
        stroke: None,
        stroke_width: None,
        stroke_cap: None,
    };
    let inst = RuleInstance::from_spec(&item).unwrap();
    assert_eq!((inst.x0, inst.y0), (px(1), px(2)));
    assert_eq!((inst.x1, inst.y1), (px(1), px(2)));
    assert_eq!(inst.stroke, Rgb { r: 128, g: 128, b: 128 });
    assert_eq!(inst.stroke_width, SUBPIX);
    assert_eq!(inst.stroke_cap, StrokeCap::Butt);
}

#[test]
fn symbol_defaults_fill_in() {
    let item = SymbolItemSpec { x: px(3), y: px(4), size: None, fill: Some("blue".to_string()) };
    let inst = SymbolInstance::from_spec(&item).unwrap();
    assert_eq!(inst.position, [px(3), px(4)]);
    assert_eq!(inst.color, Rgb { r: 0, g: 0, b: 255 });
    assert_eq!(inst.size, SUBPIX);
}

#[test]
fn rect_layout_is_packed() {
    let desc = RectInstance::desc();
    assert_eq!(desc.array_stride, 28);
    let offsets: Vec<u64> = desc.attributes.iter().map(|a| a.offset).collect();
    assert_eq!(offsets, vec![0, 8, 20, 24]);
    let locations: Vec<u32> = desc.attributes.iter().map(|a| a.shader_location).collect();
    assert_eq!(locations, vec![1, 2, 3, 4]);
}

#[test]
fn rule_layout_is_packed() {
    let desc = RuleInstance::desc();
    assert_eq!(desc.array_stride, 32);
    let offsets: Vec<u64> = desc.attributes.iter().map(|a| a.offset).collect();
    assert_eq!(offsets, vec![0, 8, 16, 28]);
}
