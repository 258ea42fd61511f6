[package]
name = "vega_wgpu_renderer"
version = "0.1.0"
edition = "2021"
publish = false

[dependencies]
csscolorparser = "=0.6.2"
wgpu = "0.19"
glyphon = "0.5"
bytemuck = { version = "1", features = ["derive"] }
serde = { version = "1", features = ["derive"] }
