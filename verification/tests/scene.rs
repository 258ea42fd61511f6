//! Scene-graph building: the one-group rule scenario and the symbol
//! shader's template geometry.

use vega_wgpu_renderer::error::VegaWgpuError;
use vega_wgpu_renderer::renderers::symbol::{SymbolShader, SYMBOL_RADIUS};
use vega_wgpu_renderer::scene::scene_graph::{SceneGraph, SceneMark};
use vega_wgpu_renderer::specs::group::GroupItemSpec;
use vega_wgpu_renderer::specs::mark::{MarkContainerSpec, MarkSpec};
use vega_wgpu_renderer::specs::rule::RuleItemSpec;
use vega_wgpu_renderer::specs::SceneGraphSpec;
use vega_wgpu_renderer::value::{StrokeCap, SUBPIX};

fn px(v: i64) -> i64 {
    v * SUBPIX
}

fn diagonal_rule_spec() -> SceneGraphSpec {
    let rule = RuleItemSpec {
        x: px(0),
        y: px(0),
        x2: Some(px(10)),
        y2: Some(px(10)),
        stroke: Some("black".to_string()),
        stroke_width: None,
        stroke_cap: None,
    };
    let container = MarkContainerSpec {
        items: vec![rule],
        clip: false,
        interactive: false,
        name: None,
        zindex: None,
    };
    MarkContainerSpec {
        items: vec![GroupItemSpec { x: px(0), y: px(0), items: vec![MarkSpec::Rule(container)] }],
        clip: false,
        interactive: false,
        name: None,
        zindex: None,
    }
}

#[test]
fn one_group_one_rule_gives_one_instance() {
    let spec = diagonal_rule_spec();
    let scene = SceneGraph::from_spec(&spec, [px(0), px(0)], px(100), px(100)).unwrap();
    assert_eq!(scene.width, px(100));
    assert_eq!(scene.height, px(100));
    assert_eq!(scene.groups.len(), 1);
    let group = &scene.groups[0];
    assert_eq!(group.marks.len(), 1);
    match &group.marks[0] {
        SceneMark::Rule(rule) => {
            assert_eq!(rule.instances.len(), 1);
            let inst = &rule.instances[0];
            assert_eq!((inst.x0, inst.y0), (px(0), px(0)));
            assert_eq!((inst.x1, inst.y1), (px(10), px(10)));
            assert_eq!(inst.stroke_cap, StrokeCap::Butt);
        },
        _ => panic!("expected a rule mark"),
    }
}

#[test]
fn building_the_same_graph_twice_is_identical() {
    let spec = diagonal_rule_spec();
    let a = SceneGraph::from_spec(&spec, [px(0), px(0)], px(100), px(100)).unwrap();
    let b = SceneGraph::from_spec(&spec, [px(0), px(0)], px(100), px(100)).unwrap();
    assert_eq!(a.groups.len(), b.groups.len());
    match (&a.groups[0].marks[0], &b.groups[0].marks[0]) {
        (SceneMark::Rule(ra), SceneMark::Rule(rb)) => {
            assert_eq!(ra.instances, rb.instances);
        },
        _ => panic!("expected rule marks"),
    }
}

#[test]
fn unimplemented_mark_is_typed_error() {
    let mut spec = diagonal_rule_spec();
    spec.items[0].items.push(MarkSpec::Arc);
    let r = SceneGraph::from_spec(&spec, [px(0), px(0)], px(100), px(100));
    assert!(matches!(r, Err(VegaWgpuError::UnsupportedMark)));
}

#[test]
fn symbol_shader_template_geometry() {
    let shader = SymbolShader::new();
    let verts = shader.verts();
    assert_eq!(verts.len(), 4);
    assert_eq!(verts[0].position, [0, -SYMBOL_RADIUS, 0]);
    assert_eq!(verts[1].position, [SYMBOL_RADIUS, 0, 0]);
    assert_eq!(verts[2].position, [0, SYMBOL_RADIUS, 0]);
    assert_eq!(verts[3].position, [-SYMBOL_RADIUS, 0, 0]);
    assert_eq!(shader.indices(), &vec![0u16, 1, 2, 0, 2, 3]);
    assert_eq!(shader.vertex_entry_point(), "vs_main");
    assert_eq!(shader.fragment_entry_point(), "fs_main");
    assert!(shader.shader().contains("vs_main"));
    let desc = shader.instance_desc();
    assert_eq!(desc.array_stride, 24);
    let offsets: Vec<u64> = desc.attributes.iter().map(|a| a.offset).collect();
    assert_eq!(offsets, vec![0, 8, 20]);
}
