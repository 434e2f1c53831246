use battery_wattage::icon::{
    fill_rounded_rect, font_size, icon_layout, layout_in_range, mask_bits, opaque_alpha, pill_in_range,
    rounded_rect_contains, text_color, MASK_BYTES, PIXEL_BYTES, PILL_COLOR,
};

// The computations below are the floating-point formulas the icon renderer
// is specified by; the library computes them exactly in integers.
fn float_font(len: usize, text_scale: i32) -> i32 {
    let scale = text_scale as f64 / 100.0;
    let base: f64 = match len {
        0..=2 => 42.0,
        3 => 34.0,
        4 => 28.0,
        _ => 22.0,
    };
    (base * scale).round() as i32
}

fn float_pill(len: usize, text_scale: i32) -> (i32, i32, i32, i32, i32) {
    let scale = text_scale as f64 / 100.0;
    let font_size = float_font(len, text_scale);
    let char_width = (font_size as f64 * 0.6) as i32;
    let tw = char_width * len as i32;
    let th = font_size;
    let tx = (64 - tw) / 2;
    let ty = (64 - th) / 2;
    let pad_x = (4.0 * scale).round() as i32;
    let pad_y = (2.0 * scale).round() as i32;
    let radius = (8.0 * scale).round() as i32;
    (tx - pad_x, ty - pad_y, tx + tw + pad_x, ty + th + pad_y, radius)
}

fn reference_contains(px: i32, py: i32, left: i32, top: i32, right: i32, bottom: i32, radius: i32) -> bool {
    let r = radius;
    if px >= left + r && px < right - r {
        return py >= top && py < bottom;
    }
    if py >= top + r && py < bottom - r {
        return px >= left && px < right;
    }
    for (cx, cy) in [
        (left + r, top + r),
        (right - r - 1, top + r),
        (left + r, bottom - r - 1),
        (right - r - 1, bottom - r - 1),
    ] {
        if (px - cx) * (px - cx) + (py - cy) * (py - cy) <= r * r {
            return true;
        }
    }
    false
}

fn pseudo_random_pixels(seed: u32) -> Vec<u8> {
    let mut x = seed;
    (0..PIXEL_BYTES)
        .map(|_| {
            x = x.wrapping_mul(1_103_515_245).wrapping_add(12_345);
            let b = (x >> 16) as u8;
            if b % 3 == 0 { 0 } else { b }
        })
        .collect()
}

#[test]
fn font_size_matches_scaled_float_size() {
    for len in 0..8 {
        for t in -3_000..=3_000 {
            assert_eq!(font_size(len, t), float_font(len, t), "len {} scale {}", len, t);
        }
    }
    for t in [i32::MAX, i32::MIN, 1_000_000_025, -999_999_975] {
        assert_eq!(font_size(3, t), float_font(3, t));
    }
}

#[test]
fn menu_scales_give_expected_font_sizes() {
    // 75 %, 100 %, 125 %, 150 %, 200 % for a two-character label.
    let sizes: Vec<i32> = [75, 100, 125, 150, 200].iter().map(|&t| font_size(2, t)).collect();
    assert_eq!(sizes, vec![32, 42, 53, 63, 84]);
}

#[test]
fn pill_matches_float_layout() {
    for len in 0..8 {
        for t in -2_000..=2_000 {
            assert!(layout_in_range(len, t));
            let layout = icon_layout(len, [1, 2, 3, 4], true, t);
            let p = layout.pill.unwrap();
            assert_eq!((p.left, p.top, p.right, p.bottom, p.radius), float_pill(len, t), "len {} scale {}", len, t);
            assert_eq!(layout.font_size, float_font(len, t));
        }
    }
}

#[test]
fn no_pill_without_background() {
    let layout = icon_layout(2, [30, 210, 60, 255], false, 125);
    assert!(layout.pill.is_none());
    assert_eq!(layout.font_size, 53);
}

#[test]
fn text_color_is_bgr_colorref() {
    assert_eq!(text_color([30, 210, 60, 255]), 0x003C_D21E);
    assert_eq!(text_color([0xAA, 0xBB, 0xCC, 0]), 0x00CC_BBAA);
}

#[test]
fn layout_out_of_range_for_huge_labels() {
    assert!(!layout_in_range(3_000_000_000, 100));
    assert!(!layout_in_range(100_000_000, 2_000_000_000));
    assert!(layout_in_range(4, 200));
}

#[test]
fn contains_matches_reference() {
    let rects = [(10, 20, 54, 44, 8), (0, 0, 64, 64, 0), (-5, -3, 70, 40, 12), (30, 30, 34, 34, 3), (5, 5, 20, 60, 1)];
    for &(l, t, r, b, rad) in &rects {
        for y in -2..66 {
            for x in -2..66 {
                assert_eq!(rounded_rect_contains(x, y, l, t, r, b, rad), reference_contains(x, y, l, t, r, b, rad));
            }
        }
    }
}

#[test]
fn rounded_corners_are_cut() {
    // The outer corner pixel of a rectangle with radius 8 is not painted; the
    // middle of each side is.
    assert!(!rounded_rect_contains(10, 20, 10, 20, 54, 44, 8));
    assert!(rounded_rect_contains(32, 20, 10, 20, 54, 44, 8));
    assert!(rounded_rect_contains(10, 32, 10, 20, 54, 44, 8));
    assert!(!rounded_rect_contains(54, 32, 10, 20, 54, 44, 8));
}

#[test]
fn fill_matches_reference_drawing() {
    for &(l, t, r, b, rad) in &[(3, 4, 61, 50, 10), (-10, -10, 100, 100, 5), (20, 20, 10, 10, 2)] {
        assert!(pill_in_range(l, t, r, b, rad));
        let mut pixels = pseudo_random_pixels(7);
        let mut expected = pixels.clone();
        for y in t.max(0)..b.min(64) {
            for x in l.max(0)..r.min(64) {
                if reference_contains(x, y, l, t, r, b, rad) {
                    let idx = (y as usize * 64 + x as usize) * 4;
                    expected[idx..idx + 4].copy_from_slice(&PILL_COLOR);
                }
            }
        }
        fill_rounded_rect(&mut pixels, l, t, r, b, rad, PILL_COLOR);
        assert_eq!(pixels, expected);
    }
}

#[test]
fn pill_range_check_rejects_overflowing_radius() {
    assert!(!pill_in_range(0, 0, 64, 64, 2_000_000_000));
    assert!(pill_in_range(0, 0, 64, 64, 16));
}

#[test]
fn alpha_pass_matches_reference() {
    let mut pixels = pseudo_random_pixels(42);
    let mut expected = pixels.clone();
    for px in expected.chunks_exact_mut(4) {
        if px[3] == 0 && (px[2] != 0 || px[1] != 0 || px[0] != 0) {
            px[3] = 255;
        }
    }
    opaque_alpha(&mut pixels);
    assert_eq!(pixels, expected);
}

#[test]
fn alpha_pass_keeps_black_transparent() {
    let mut pixels = vec![0u8, 0, 0, 0, 0, 0, 9, 0, 1, 1, 1, 7];
    opaque_alpha(&mut pixels);
    assert_eq!(pixels, vec![0, 0, 0, 0, 0, 0, 9, 255, 1, 1, 1, 7]);
}

#[test]
fn mask_matches_reference() {
    let pixels = pseudo_random_pixels(5);
    let mut expected = vec![0u8; MASK_BYTES];
    for y in 0..64usize {
        for x in 0..64usize {
            let idx = y * 64 + x;
            if pixels[idx * 4 + 3] > 0 {
                expected[idx / 8] |= 1u8 << (7 - (idx % 8));
            }
        }
    }
    assert_eq!(mask_bits(&pixels), expected);
}

#[test]
fn mask_of_single_pixel() {
    let mut pixels = vec![0u8; PIXEL_BYTES];
    pixels[9 * 4 + 3] = 1; // pixel 9: byte 1, bit 6
    let mask = mask_bits(&pixels);
    assert_eq!(mask[1], 0b0100_0000);
    assert_eq!(mask.iter().filter(|&&b| b != 0).count(), 1);
}

#[test]
fn layout_without_pill_needs_no_range_check() {
    // The text box is only computed for the pill.
    assert!(!layout_in_range(100_000_000, 2_000_000_000));
    let layout = icon_layout(100_000_000, [1, 2, 3, 4], false, 2_000_000_000);
    assert!(layout.pill.is_none());
    assert_eq!(layout.font_size, 440_000_000);
}
