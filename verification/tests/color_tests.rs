//! Tests for the color utilities: HSL conversion and the resource ramp.

use sigye::color::{hsl_to_rgb, resource_to_color, Rgb};

#[test]
fn test_hsl_gray_branch() {
    // zero saturation yields the gray of the lightness alone
    assert_eq!(hsl_to_rgb(0, 0, 500), Rgb { r: 127, g: 127, b: 127 });
    assert_eq!(hsl_to_rgb(123, 0, 0), Rgb { r: 0, g: 0, b: 0 });
    assert_eq!(hsl_to_rgb(359, 0, 1000), Rgb { r: 255, g: 255, b: 255 });
}

#[test]
fn test_hsl_primary_colors() {
    // full saturation at half lightness gives the pure hues
    assert_eq!(hsl_to_rgb(0, 1000, 500), Rgb { r: 255, g: 0, b: 0 });
    let g = hsl_to_rgb(120, 1000, 500);
    assert!(g.g > 200 && g.r < 30 && g.b < 30);
    let b = hsl_to_rgb(240, 1000, 500);
    assert!(b.b > 200 && b.r < 30 && b.g < 30);
}

#[test]
fn test_hsl_wraps_hue() {
    assert_eq!(hsl_to_rgb(360, 1000, 500), hsl_to_rgb(0, 1000, 500));
    assert_eq!(hsl_to_rgb(725, 700, 300), hsl_to_rgb(5, 700, 300));
}

#[test]
fn test_resource_color_idle_is_cool_blue() {
    // hue 240, saturation 0.6, lightness 0.15
    assert_eq!(resource_to_color(0), Rgb { r: 15, g: 15, b: 61 });
    let c = resource_to_color(0);
    assert!(c.b > c.r);
}

#[test]
fn test_resource_color_full_is_warm_red() {
    // hue 0, saturation 1.0, lightness 0.4
    assert_eq!(resource_to_color(1000), Rgb { r: 204, g: 0, b: 0 });
    let c = resource_to_color(1000);
    assert!(c.r > c.b);
    // readings past the top of the scale clamp
    assert_eq!(resource_to_color(5000), resource_to_color(1000));
}

#[test]
fn test_resource_color_midpoint() {
    // the half-way reading sits at hue 120 (green)
    let c = resource_to_color(500);
    assert!(c.g > c.r && c.g > c.b);
}
