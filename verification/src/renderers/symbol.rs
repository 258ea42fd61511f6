//! The symbol mark's pipeline description: a diamond template geometry,
//! its shading program, and the symbol instance-buffer layout.

use vstd::prelude::*;
use crate::renderers::layout::{AttributeDesc, AttributeFormat, InstanceLayoutDesc};
use crate::renderers::vertex::Vertex;

verus! {

/// Circumscribed radius of the diamond template, in subpixel units:
/// sqrt(1 / (2 * tan 30deg)) of a pixel, about 0.9306 of a pixel.
/// Precomputed from the trigonometric constants once; nothing
/// recomputes it per frame.
pub const SYMBOL_RADIUS: i64 = 60988;

/// The shading program and template geometry of the symbol mark.
pub struct SymbolShader {
    verts: Vec<Vertex>,
    indices: Vec<u16>,
    shader: String,
    vertex_entry_point: String,
    fragment_entry_point: String,
}

impl SymbolShader {
    /// The template vertices, as a sequence.
    pub closed spec fn verts_spec(self) -> Seq<Vertex> {
        self.verts@
    }

    /// The triangle index list, as a sequence.
    pub closed spec fn indices_spec(self) -> Seq<u16> {
        self.indices@
    }

    /// The shading program source, as a sequence of characters.
    pub closed spec fn shader_spec(self) -> Seq<char> {
        self.shader@
    }

    /// The vertex-stage entry point name.
    pub closed spec fn vertex_entry_point_spec(self) -> Seq<char> {
        self.vertex_entry_point@
    }

    /// The fragment-stage entry point name.
    pub closed spec fn fragment_entry_point_spec(self) -> Seq<char> {
        self.fragment_entry_point@
    }

    /// The diamond template: four vertices on the axes at
    /// [`SYMBOL_RADIUS`], two triangles winding through them.
    pub fn new() -> (r: SymbolShader)
        ensures
            r.verts_spec().len() == 4,
            r.verts_spec()[0].position@ == seq![0i64, -60988i64, 0i64],
            r.verts_spec()[1].position@ == seq![60988i64, 0i64, 0i64],
            r.verts_spec()[2].position@ == seq![0i64, 60988i64, 0i64],
            r.verts_spec()[3].position@ == seq![-60988i64, 0i64, 0i64],
            r.indices_spec() == seq![0u16, 1u16, 2u16, 0u16, 2u16, 3u16],
            r.vertex_entry_point_spec() == "vs_main"@,
            r.fragment_entry_point_spec() == "fs_main"@,
            r.shader_spec().len() > 0,
    {
        let neg_radius: i64 = -SYMBOL_RADIUS;
        let verts: Vec<Vertex> = vec![
            Vertex { position: [0, neg_radius, 0] },
            Vertex { position: [SYMBOL_RADIUS, 0, 0] },
            Vertex { position: [0, SYMBOL_RADIUS, 0] },
            Vertex { position: [neg_radius, 0, 0] },
        ];
        let indices: Vec<u16> = vec![0u16, 1u16, 2u16, 0u16, 2u16, 3u16];
        proof {
            assert(verts@[0].position@ =~= seq![0i64, -60988i64, 0i64]);
            assert(verts@[1].position@ =~= seq![60988i64, 0i64, 0i64]);
            assert(verts@[2].position@ =~= seq![0i64, 60988i64, 0i64]);
            assert(verts@[3].position@ =~= seq![-60988i64, 0i64, 0i64]);
            assert(indices@ =~= seq![0u16, 1u16, 2u16, 0u16, 2u16, 3u16]);
        }
        let shader = symbol_shader_source();
        let vertex_entry_point = vs_entry_point();
        let fragment_entry_point = fs_entry_point();
        SymbolShader { verts, indices, shader, vertex_entry_point, fragment_entry_point }
    }

    /// The template geometry's vertices.
    pub fn verts(&self) -> (r: &Vec<Vertex>)
        ensures
            r@ == self.verts_spec(),
    {
        &self.verts
    }

    /// The template geometry's triangle index list.
    pub fn indices(&self) -> (r: &Vec<u16>)
        ensures
            r@ == self.indices_spec(),
    {
        &self.indices
    }

    /// The WGSL source of the shading program.
    pub fn shader(&self) -> (r: &str)
        ensures
            r@ == self.shader_spec(),
    {
        self.shader.as_str()
    }

    /// Entry point of the vertex stage.
    pub fn vertex_entry_point(&self) -> (r: &str)
        ensures
            r@ == self.vertex_entry_point_spec(),
    {
        self.vertex_entry_point.as_str()
    }

    /// Entry point of the fragment stage.
    pub fn fragment_entry_point(&self) -> (r: &str)
        ensures
            r@ == self.fragment_entry_point_spec(),
    {
        self.fragment_entry_point.as_str()
    }

    /// The symbol instance-buffer layout: a two-float center, a
    /// three-float color and a one-float size, packed into a 24-byte
    /// record.
    pub fn instance_desc(&self) -> (r: InstanceLayoutDesc)
        ensures
            r.array_stride == 24,
            r.attributes@ == seq![
                (AttributeDesc { offset: 0, shader_location: 1, format: AttributeFormat::Float32x2 }),
                (AttributeDesc { offset: 8, shader_location: 2, format: AttributeFormat::Float32x3 }),
                (AttributeDesc { offset: 20, shader_location: 3, format: AttributeFormat::Float32 }),
            ],
            r.wf(),
    {
        let attributes: Vec<AttributeDesc> = vec![
            AttributeDesc { offset: 0, shader_location: 1, format: AttributeFormat::Float32x2 },
            AttributeDesc { offset: 8, shader_location: 2, format: AttributeFormat::Float32x3 },
            AttributeDesc { offset: 20, shader_location: 3, format: AttributeFormat::Float32 },
        ];
        let r = InstanceLayoutDesc { array_stride: 24, attributes };
        proof {
            assert(r.attributes@.len() == 3);
            assert(r.wf());
        }
        r
    }
}

/// The WGSL shading program of the symbol mark: scales the template by
/// the instance size, translates it to the instance center, and fills
/// with the instance color.
fn symbol_shader_source() -> (r: String)
    ensures
        r@.len() > 0,
{
    let s: &str = "\
struct ChartUniform { size: vec2<f32>, };\n\
@group(0) @binding(0) var<uniform> chart_uniforms: ChartUniform;\n\
struct VertexInput { @location(0) position: vec3<f32>, };\n\
struct InstanceInput {\n\
    @location(1) position: vec2<f32>,\n\
    @location(2) color: vec3<f32>,\n\
    @location(3) size: f32,\n\
};\n\
struct VertexOutput { @builtin(position) clip_position: vec4<f32>, @location(0) color: vec3<f32>, };\n\
@vertex\n\
fn vs_main(model: VertexInput, instance: InstanceInput) -> VertexOutput {\n\
    var out: VertexOutput;\n\
    out.color = instance.color;\n\
    let size_scale = sqrt(instance.size);\n\
    let x = 2.0 * (model.position[0] * size_scale + instance.position[0]) / chart_uniforms.size[0] - 1.0;\n\
    let y = 2.0 * (model.position[1] * size_scale + (chart_uniforms.size[1] - instance.position[1])) / chart_uniforms.size[1] - 1.0;\n\
    out.clip_position = vec4<f32>(x, y, 0.0, 1.0);\n\
    return out;\n\
}\n\
@fragment\n\
fn fs_main(in: VertexOutput) -> @location(0) vec4<f32> {\n\
    return vec4<f32>(in.color, 1.0);\n\
}\n";
    let r = s.to_string();
    proof {
        assert(r@.len() > 0) by {
            reveal_strlit(
                "\
struct ChartUniform { size: vec2<f32>, };\n\
@group(0) @binding(0) var<uniform> chart_uniforms: ChartUniform;\n\
struct VertexInput { @location(0) position: vec3<f32>, };\n\
struct InstanceInput {\n\
    @location(1) position: vec2<f32>,\n\
    @location(2) color: vec3<f32>,\n\
    @location(3) size: f32,\n\
};\n\
struct VertexOutput { @builtin(position) clip_position: vec4<f32>, @location(0) color: vec3<f32>, };\n\
@vertex\n\
fn vs_main(model: VertexInput, instance: InstanceInput) -> VertexOutput {\n\
    var out: VertexOutput;\n\
    out.color = instance.color;\n\
    let size_scale = sqrt(instance.size);\n\
    let x = 2.0 * (model.position[0] * size_scale + instance.position[0]) / chart_uniforms.size[0] - 1.0;\n\
    let y = 2.0 * (model.position[1] * size_scale + (chart_uniforms.size[1] - instance.position[1])) / chart_uniforms.size[1] - 1.0;\n\
    out.clip_position = vec4<f32>(x, y, 0.0, 1.0);\n\
    return out;\n\
}\n\
@fragment\n\
fn fs_main(in: VertexOutput) -> @location(0) vec4<f32> {\n\
    return vec4<f32>(in.color, 1.0);\n\
}\n",
            );
        }
    }
    r
}

/// The vertex-stage entry point name.
fn vs_entry_point() -> (r: String)
    ensures
        r@ == "vs_main"@,
{
    let s: &str = "vs_main";
    s.to_string()
}

/// The fragment-stage entry point name.
fn fs_entry_point() -> (r: String)
    ensures
        r@ == "fs_main"@,
{
    let s: &str = "fs_main";
    s.to_string()
}

} // verus!
