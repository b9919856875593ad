use codex_pet_limit_rings::color::{rgba_to_bgra_premul, used_color, Rgba, USED_ALPHA};

#[test]
fn new_and_with_alpha() {
    let c = Rgba::new(61, 235, 189, 245);
    assert_eq!(c, Rgba { r: 61, g: 235, b: 189, a: 245 });
    assert_eq!(c.with_alpha(76), Rgba { r: 61, g: 235, b: 189, a: 76 });
    assert_eq!(c.with_alpha(76).with_alpha(180), c.with_alpha(180));
}

#[test]
fn used_color_known_values() {
    let used = used_color(Rgba::new(0, 30, 255, 245));
    assert_eq!(used, Rgba { r: 189, g: 197, b: 255, a: 92 });
    assert_eq!(used.a, USED_ALPHA);
}

#[test]
fn used_color_matches_float_blend_for_every_byte() {
    for c in 0..=255u8 {
        let float = (c as f64 + (255.0 - c as f64) * 0.74).round() as u8;
        let used = used_color(Rgba::new(c, c, c, 0));
        assert_eq!(used.r, float, "channel {c}");
        assert!(used.r >= c);
    }
}

#[test]
fn bgra_swaps_red_and_blue() {
    let mut data = vec![1u8, 2, 3, 4, 5, 6, 7, 8];
    let out = rgba_to_bgra_premul(&mut data);
    assert_eq!(out, vec![3, 2, 1, 4, 7, 6, 5, 8]);
    assert_eq!(data, vec![1, 2, 3, 4, 5, 6, 7, 8]);
}

#[test]
fn bgra_drops_partial_pixel() {
    let mut data = vec![1u8, 2, 3, 4, 9, 9];
    assert_eq!(rgba_to_bgra_premul(&mut data), vec![3, 2, 1, 4]);
    let mut empty: Vec<u8> = vec![];
    assert!(rgba_to_bgra_premul(&mut empty).is_empty());
}

#[test]
fn bgra_twice_gives_back_whole_pixels() {
    let mut data: Vec<u8> = (0..27u8).collect();
    let mut once = rgba_to_bgra_premul(&mut data);
    let twice = rgba_to_bgra_premul(&mut once);
    assert_eq!(twice, data[..24].to_vec());
}

#[test]
fn to_skia_divides_bytes_by_255() {
    let c = Rgba::new(255, 51, 0, 102).to_skia();
    assert!((c.red() - 1.0).abs() < 1e-6);
    assert!((c.green() - 0.2).abs() < 1e-6);
    assert!(c.blue().abs() < 1e-6);
    assert!((c.alpha() - 0.4).abs() < 1e-6);
}
