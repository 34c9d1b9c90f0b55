use image_viewer::viewport::{Extent, Scaling};

fn value(e: Extent) -> (f64, f64) {
    (e.width as f64 / e.denom as f64, e.height as f64 / e.denom as f64)
}

fn full_hd() -> Scaling {
    Scaling::new(1920, 1080)
}

#[test]
fn new_keeps_bounds() {
    let s = Scaling::new(640, 480);
    assert_eq!(s.max_x, 640);
    assert_eq!(s.max_y, 480);
}

#[test]
fn pixels_has_unit_denominator() {
    assert_eq!(Extent::pixels(7, 9), Extent { width: 7, height: 9, denom: 1 });
}

#[test]
fn both_over_equal_factors() {
    let r = full_hd().scale(Extent::pixels(3840, 2160));
    assert_eq!(r.width, 1920 * r.denom);
    assert_eq!(r.height, 1080 * r.denom);
    assert_eq!(value(r), (1920.0, 1080.0));
}

#[test]
fn small_image_kept() {
    let r = full_hd().scale(Extent::pixels(800, 600));
    assert_eq!(r, Extent::pixels(800, 600));
    assert_eq!(value(r), (800.0, 600.0));
}

#[test]
fn only_width_over() {
    let r = full_hd().scale(Extent::pixels(4000, 1000));
    assert_eq!(r.width, 1920 * r.denom);
    assert_eq!(r.height, 480 * r.denom);
    assert_eq!(value(r), (1920.0, 480.0));
}

#[test]
fn only_height_over() {
    let r = full_hd().scale(Extent::pixels(1000, 2160));
    assert_eq!(r.height, 1080 * r.denom);
    assert_eq!(r.width, 500 * r.denom);
}

#[test]
fn size_equal_to_bounds_kept() {
    let r = full_hd().scale(Extent::pixels(1920, 1080));
    assert_eq!(r, Extent::pixels(1920, 1080));
}

#[test]
fn both_over_height_binds() {
    // 4000 x 4000: max_x / 4000 = 0.48, max_y / 4000 = 0.27.
    let r = full_hd().scale(Extent::pixels(4000, 4000));
    assert_eq!(r.width, 1080 * r.denom);
    assert_eq!(r.height, 1080 * r.denom);
}

#[test]
fn both_over_keeps_aspect_and_fits() {
    let r = full_hd().scale(Extent::pixels(5000, 2200));
    assert_eq!(r.width as u128 * 2200, r.height as u128 * 5000);
    assert!(r.width <= 1920 * r.denom);
    assert!(r.height <= 1080 * r.denom);
    let (w, h) = value(r);
    assert!((w / h - 5000.0 / 2200.0).abs() < 1e-4 * (5000.0 / 2200.0));
}

#[test]
fn width_over_height_follows_ratio() {
    let r = full_hd().scale(Extent::pixels(3000, 900));
    assert_eq!(r.width, 1920 * r.denom);
    assert_eq!(r.height as u128 * 3000, 900 * 1920 * r.denom as u128);
    assert!(r.height <= 1080 * r.denom);
}

#[test]
fn fit_is_idempotent() {
    let s = full_hd();
    for (w, h) in [(3840, 2160), (800, 600), (4000, 1000), (1000, 2160), (5000, 2200), (1, 100000)] {
        let once = s.scale(Extent::pixels(w, h));
        assert_eq!(s.scale(once), once);
    }
}

#[test]
fn fractional_input() {
    // 9600 / 2 by 1000 / 2 is 4800 x 500: only the width is over.
    let r = full_hd().scale(Extent { width: 9600, height: 1000, denom: 2 });
    assert_eq!(r.width, 1920 * r.denom);
    assert_eq!(value(r), (1920.0, 200.0));
}

#[test]
fn largest_pixel_size() {
    let r = full_hd().scale(Extent::pixels(u32::MAX, u32::MAX));
    assert_eq!(r.width, 1080 * r.denom);
    assert_eq!(r.height, 1080 * r.denom);
}
