use mouse_switcher::icon::generate_icon_data;

/// The icon as drawn with `f32` arithmetic.
fn icon_by_floats() -> Vec<u8> {
    let size = 32u32;
    let mut rgba = Vec::with_capacity((size * size * 4) as usize);
    let center = size as f32 / 2.0;
    let radius = center - 2.0;
    for y in 0..size {
        for x in 0..size {
            let dx = x as f32 - center;
            let dy = y as f32 - center;
            let dist = (dx * dx + dy * dy).sqrt();
            if dist <= radius {
                let (r, g, b) = if dist <= radius * 0.35 {
                    (100u8, 230u8, 140u8)
                } else {
                    (60u8, 170u8, 100u8)
                };
                let alpha = if dist > radius - 1.5 {
                    ((radius - dist) / 1.5 * 255.0) as u8
                } else {
                    255u8
                };
                rgba.extend_from_slice(&[r, g, b, alpha]);
            } else {
                rgba.extend_from_slice(&[0, 0, 0, 0]);
            }
        }
    }
    rgba
}

#[test]
fn icon_matches_float_drawing() {
    let icon = generate_icon_data();
    assert_eq!(icon.len(), 4096);
    assert_eq!(icon, icon_by_floats());
}

#[test]
fn icon_sample_pixels() {
    let icon = generate_icon_data();
    let px = |x: usize, y: usize| icon[128 * y + 4 * x..128 * y + 4 * x + 4].to_vec();
    assert_eq!(px(0, 0), vec![0, 0, 0, 0]);
    assert_eq!(px(16, 16), vec![100, 230, 140, 255]);
    assert_eq!(px(20, 16), vec![100, 230, 140, 255]);
    assert_eq!(px(21, 16), vec![60, 170, 100, 255]);
    assert_eq!(px(29, 16), vec![60, 170, 100, 170]);
    assert_eq!(px(30, 16), vec![60, 170, 100, 0]);
    assert_eq!(px(31, 16), vec![0, 0, 0, 0]);
}
