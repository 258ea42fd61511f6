//! Marker test keeping the baseline suite's harness discoverable.

use vega_wgpu_renderer::value::SUBPIX;

#[test]
fn test_marker() {}

#[test]
fn subpixel_scale_is_fixed() {
    assert_eq!(SUBPIX, 65536);
    assert_eq!(SUBPIX % 2, 0);
}
