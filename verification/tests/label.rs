use codex_pet_limit_rings::color::Rgba;
use codex_pet_limit_rings::label::blend_text_mask;

#[test]
fn full_coverage_opaque_white_paints_white() {
    let mut data = vec![0u8; 2 * 2 * 4];
    let mask = vec![255u8, 0, 0, 0];
    blend_text_mask(&mut data, 2, 2, &mask, 1, 1, 1, 1, Rgba::new(255, 255, 255, 255));
    assert_eq!(&data[12..16], &[255, 255, 255, 255]);
    assert!(data[..12].iter().all(|&b| b == 0));
}

#[test]
fn partial_coverage_blends() {
    let mut data = vec![100u8, 100, 100, 200];
    let mask = vec![0u8, 128, 0, 0];
    blend_text_mask(&mut data, 1, 1, &mask, 1, 1, 0, 0, Rgba::new(255, 255, 255, 238));
    // src_a = (128 * 238 + 127) / 255 = 119, inv = 136.
    let sa = (128u32 * 238 + 127) / 255;
    let inv = 255 - sa;
    let c = ((255 * sa + 100 * inv) / 255) as u8;
    let a = (sa + 200 * inv / 255) as u8;
    assert_eq!(data, vec![c, c, c, a]);
}

#[test]
fn mask_outside_image_is_clipped() {
    let mut data = vec![9u8; 2 * 1 * 4];
    let mask = vec![255u8; 3 * 2 * 4];
    blend_text_mask(&mut data, 2, 1, &mask, 3, 2, -2, -1, Rgba::new(0, 0, 0, 255));
    // Only mask pixel (2, 1) lands on image pixel (0, 0).
    assert_eq!(data, vec![0, 0, 0, 255, 9, 9, 9, 9]);
}

#[test]
fn zero_coverage_leaves_pixels() {
    let mut data = vec![5u8; 4];
    let mask = vec![0u8, 0, 0, 255];
    blend_text_mask(&mut data, 1, 1, &mask, 1, 1, 0, 0, Rgba::new(255, 0, 0, 255));
    assert_eq!(data, vec![5, 5, 5, 5]);
}
