// Tests of the verified rendering core, driven through the same floating-point
// stages the application runs: the coordinate mapper and the Julia orbit live
// here as plain f64 helpers, and the library resolves their observations.

use julia_set_renderer::config::RenderConfig;
use julia_set_renderer::escape::escape_depth;
use julia_set_renderer::gradient::pixel_color;
use julia_set_renderer::gradient::GradientKind;
use julia_set_renderer::gradient::PixelColor;
use julia_set_renderer::raster::render;
use julia_set_renderer::raster::render_depths;
use julia_set_renderer::raster::render_par;

const CX: f64 = -0.7;
const CY: f64 = 0.27015;

/// The step on which the orbit of `(zx, zy)` first has squared modulus at or
/// above 4.0; the first step is always taken, and the budget allows steps
/// `1..=max_iterations - 1`.
fn first_escape(mut zx: f64, mut zy: f64, max_iterations: u32) -> Option<u32> {
    let mut n: u32 = 1;
    while n < max_iterations {
        let tmp = zx * zx - zy * zy + CX;
        zy = 2.0 * zx * zy + CY;
        zx = tmp;
        if zx * zx + zy * zy >= 4.0 {
            return Some(n);
        }
        n += 1;
    }
    None
}

/// The complex-plane point sampled for pixel `(x, y)`.
fn map_pixel(x: u32, y: u32, width: u32, height: u32, zoom: f64, x_offset: f64, y_offset: f64) -> (f64, f64) {
    let w = width as f64;
    let h = height as f64;
    let re = 1.5 * (x as f64 - w / 2.0) / (0.5 * zoom * w) + x_offset;
    let im = 1.0 * (y as f64 - h / 2.0) / (0.5 * zoom * h) + y_offset;
    (re, im)
}

fn events_for(width: u32, height: u32, zoom: f64, x_offset: f64, y_offset: f64, max_iterations: u32) -> Vec<Option<u32>> {
    let mut events = Vec::new();
    for y in 0..height {
        for x in 0..width {
            let (re, im) = map_pixel(x, y, width, height, zoom, x_offset, y_offset);
            events.push(first_escape(re, im, max_iterations));
        }
    }
    events
}

#[test]
fn divergent_start_loses_one_count() {
    // A point already outside the disk still steps once before the bound is
    // checked, so exactly one count is spent.
    assert_eq!(first_escape(3.0, 3.0, 256), Some(1));
    assert_eq!(escape_depth(256, Some(1)), 255);
}

#[test]
fn never_escaping_orbit_reaches_depth_one() {
    assert_eq!(escape_depth(256, None), 1);
    assert_eq!(escape_depth(256, Some(255)), 1);
}

#[test]
fn depth_stays_within_bounds() {
    for n in 1..256u32 {
        let d = escape_depth(256, Some(n));
        assert!(1 <= d && d <= 256);
    }
    assert!(escape_depth(2, Some(1)) == 1);
    assert!(escape_depth(2, None) == 1);
}

#[test]
fn delphi_gradient_exact_values() {
    assert_eq!(pixel_color(GradientKind::Delphi, 256), PixelColor { r: 32, g: 0, b: 0 });
    assert_eq!(pixel_color(GradientKind::Delphi, 1), PixelColor { r: 0, g: 0, b: 85 });
    assert_eq!(pixel_color(GradientKind::Delphi, 255), PixelColor { r: 252, g: 252, b: 255 });
}

#[test]
fn smooth_gradient_exact_values() {
    assert_eq!(pixel_color(GradientKind::Smooth, 1), PixelColor { r: 5, g: 54, b: 3 });
    assert_eq!(pixel_color(GradientKind::Smooth, 256), PixelColor { r: 0, g: 44, b: 0 });
}

#[test]
fn gradient_endpoints_are_distinct() {
    // The full-budget depth and the depth-one endpoint each get their own
    // color, and depth one is not colored like the never-produced zero.
    for kind in [GradientKind::Delphi, GradientKind::Smooth] {
        assert_ne!(pixel_color(kind, 1), pixel_color(kind, 0));
    }
}

#[test]
fn config_rejects_bad_parameters() {
    assert!(RenderConfig::new(0, 5, 256, GradientKind::Delphi).is_none());
    assert!(RenderConfig::new(5, 0, 256, GradientKind::Delphi).is_none());
    assert!(RenderConfig::new(5, 5, 1, GradientKind::Delphi).is_none());
    assert!(RenderConfig::new(5, 5, 0, GradientKind::Delphi).is_none());
}

#[test]
fn config_accepts_and_keeps_parameters() {
    let cfg = RenderConfig::new(4, 4, 256, GradientKind::Smooth).unwrap();
    assert_eq!(cfg.width, 4);
    assert_eq!(cfg.height, 4);
    assert_eq!(cfg.max_iterations, 256);
    assert_eq!(cfg.gradient, GradientKind::Smooth);
    assert_eq!(cfg.pixel_total(), 16);
}

#[test]
fn four_by_four_depths_match_fixture() {
    // The 4x4 render at zoom 1 with no pan, captured once as the regression
    // fixture: the same depths must come out on every run.
    let cfg = RenderConfig::new(4, 4, 256, GradientKind::Delphi).unwrap();
    let events = events_for(4, 4, 1.0, 0.0, 0.0, 256);
    let depths = render_depths(&cfg, &events);
    let fixture: Vec<u32> = vec![
        255, 255, 254, 254, 255, 253, 1, 250, 253, 11, 160, 11, 254, 250, 1, 253,
    ];
    assert_eq!(depths, fixture);

    let again = render_depths(&cfg, &events_for(4, 4, 1.0, 0.0, 0.0, 256));
    assert_eq!(again, fixture);
}

#[test]
fn parallel_and_sequential_fills_agree() {
    let cfg = RenderConfig::new(4, 4, 256, GradientKind::Delphi).unwrap();
    let events = events_for(4, 4, 1.0, 0.0, 0.0, 256);
    let seq = render(&cfg, &events);
    let par = render_par(&cfg, &events);
    assert_eq!(seq, par);
    assert_eq!(seq.len(), 16);
}

#[test]
fn raster_slots_hold_their_own_pixel() {
    // Distinct observations per pixel: the slot y * width + x must hold the
    // color of exactly that pixel's observation.
    let width: u32 = 5;
    let height: u32 = 3;
    let cfg = RenderConfig::new(width, height, 256, GradientKind::Smooth).unwrap();
    let mut events: Vec<Option<u32>> = Vec::new();
    for k in 0..width * height {
        events.push(Some(1 + k));
    }
    let img = render_par(&cfg, &events);
    assert_eq!(img.len(), (width * height) as usize);
    for y in 0..height {
        for x in 0..width {
            let slot = (y * width + x) as usize;
            let expected = pixel_color(GradientKind::Smooth, escape_depth(256, events[slot]));
            assert_eq!(img[slot], expected);
        }
    }
}

#[test]
fn image_center_maps_to_pan_offset() {
    // At zoom 1, the pixel at (width / 2, height / 2) samples exactly the pan
    // offset.
    let (re, im) = map_pixel(2, 2, 4, 4, 1.0, 0.25, -1.5);
    assert_eq!(re, 0.25);
    assert_eq!(im, -1.5);
    let (re0, im0) = map_pixel(400, 300, 800, 600, 1.0, 0.0, 0.0);
    assert_eq!(re0, 0.0);
    assert_eq!(im0, 0.0);
}
