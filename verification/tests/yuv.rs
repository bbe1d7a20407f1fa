use touchhle_core::yuv::yuv_to_rgb;

/// The conversion formulas evaluated in `f32` arithmetic.
fn reference_pixel(y: u8, u: u8, v: u8) -> (u8, u8, u8) {
    let y = y as f32;
    let u = u as f32 - 128.0;
    let v = v as f32 - 128.0;
    let r = (y + 1.402 * v).round().clamp(0.0, 255.0) as u8;
    let g = (y - 0.344136 * u - 0.714136 * v).round().clamp(0.0, 255.0) as u8;
    let b = (y + 1.772 * u).round().clamp(0.0, 255.0) as u8;
    (r, g, b)
}

fn convert_pixel(y: u8, u: u8, v: u8) -> (u8, u8, u8) {
    let mut rgb = [0u8; 3];
    yuv_to_rgb(&[y], &[u], &[v], 1, 1, &mut rgb);
    (rgb[0], rgb[1], rgb[2])
}

#[test]
fn grey_stays_grey() {
    assert_eq!(convert_pixel(128, 128, 128), (128, 128, 128));
    assert_eq!(convert_pixel(0, 128, 128), (0, 0, 0));
    assert_eq!(convert_pixel(255, 128, 128), (255, 255, 255));
}

#[test]
fn exact_values() {
    // R = 0 + 1.402 * -128 < 0, G = 135.458, B = 1.772 * -128 < 0
    assert_eq!(convert_pixel(0, 0, 0), (0, 135, 0));
    // R = 100 + 1.402 * 50 = 170.1, G = 100 - 0.344136 * -28 - 0.714136 * 50 = 73.929..,
    // B = 100 + 1.772 * -28 = 50.384
    assert_eq!(convert_pixel(100, 100, 178), (170, 74, 50));
}

#[test]
fn red_and_blue_match_float_reference_everywhere() {
    for y in 0..=255u8 {
        for c in 0..=255u8 {
            let (r, _, _) = convert_pixel(y, 128, c);
            assert_eq!(r, reference_pixel(y, 128, c).0, "y={y} v={c}");
            let (_, _, b) = convert_pixel(y, c, 128);
            assert_eq!(b, reference_pixel(y, c, 128).2, "y={y} u={c}");
        }
    }
}

#[test]
fn green_matches_float_reference() {
    for y in (0..=255u8).step_by(3) {
        for u in 0..=255u8 {
            for v in (0..=255u8).step_by(7) {
                assert_eq!(convert_pixel(y, u, v).1, reference_pixel(y, u, v).1, "{y} {u} {v}");
            }
        }
    }
}

#[test]
fn exact_halves_round_as_single_precision() {
    // Green is y + 18.5 exactly at (u, v) = (178, 78) and y - 18.5 at (78, 178).
    assert_eq!(convert_pixel(0, 178, 78).1, 18);
    assert_eq!(convert_pixel(13, 178, 78).1, 31);
    assert_eq!(convert_pixel(14, 178, 78).1, 33);
    assert_eq!(convert_pixel(238, 78, 178).1, 220);
    assert_eq!(convert_pixel(239, 78, 178).1, 220);
    for y in 0..=255u8 {
        for (u, v) in [(178u8, 78u8), (78, 178)] {
            assert_eq!(convert_pixel(y, u, v), reference_pixel(y, u, v), "{y} {u} {v}");
        }
    }
}

#[test]
fn chroma_is_shared_by_2x2_blocks() {
    let w = 4;
    let h = 2;
    let y_plane = [10u8, 20, 30, 40, 50, 60, 70, 80];
    let u_plane = [128u8, 0];
    let v_plane = [128u8, 255];
    let mut rgb = vec![0xaau8; w * h * 3 + 2];
    yuv_to_rgb(&y_plane, &u_plane, &v_plane, w, h, &mut rgb);
    for p in 0..w * h {
        let row = p / w;
        let col = p % w;
        let c = (row / 2) * (w / 2) + col / 2;
        let (r, g, b) = convert_pixel(y_plane[p], u_plane[c], v_plane[c]);
        assert_eq!(&rgb[p * 3..p * 3 + 3], &[r, g, b]);
    }
    // bytes past the image are untouched
    assert_eq!(&rgb[w * h * 3..], &[0xaa, 0xaa]);
}

#[test]
fn odd_width_uses_truncated_chroma_stride() {
    let w = 3;
    let h = 1;
    let y_plane = [50u8, 60, 70];
    let u_plane = [10u8, 240];
    let v_plane = [20u8, 230];
    let mut rgb = vec![0u8; 9];
    yuv_to_rgb(&y_plane, &u_plane, &v_plane, w, h, &mut rgb);
    // stride 1: columns 0,1 use sample 0, column 2 uses sample 1
    assert_eq!(&rgb[0..3], {
        let (r, g, b) = convert_pixel(50, 10, 20);
        &[r, g, b]
    });
    let (r, g, b) = convert_pixel(70, 240, 230);
    assert_eq!(&rgb[6..9], &[r, g, b]);
}

/// Converts, for every (u, v), the 2x2 luma block `base..base + 4`, and
/// compares each pixel with the `f32` evaluation.
fn check_every_chroma_for_luma(bases: std::ops::Range<u16>) {
    let w = 512;
    let h = 512;
    let mut u_plane = vec![0u8; 256 * 256];
    let mut v_plane = vec![0u8; 256 * 256];
    for by in 0..256 {
        for bx in 0..256 {
            u_plane[by * 256 + bx] = bx as u8;
            v_plane[by * 256 + bx] = by as u8;
        }
    }
    let mut rgb = vec![0u8; w * h * 3];
    for base in bases.step_by(4) {
        let mut y_plane = vec![0u8; w * h];
        for row in 0..h {
            for col in 0..w {
                y_plane[row * w + col] = (base as usize + (row % 2) * 2 + col % 2) as u8;
            }
        }
        yuv_to_rgb(&y_plane, &u_plane, &v_plane, w, h, &mut rgb);
        for row in 0..h {
            for col in 0..w {
                let p = row * w + col;
                let (y, u, v) = (y_plane[p], (col / 2) as u8, (row / 2) as u8);
                let (r, g, b) = reference_pixel(y, u, v);
                assert_eq!(&rgb[p * 3..p * 3 + 3], &[r, g, b], "y={y} u={u} v={v}");
            }
        }
    }
}

#[test]
fn every_input_matches_float_reference_luma_0_to_63() {
    check_every_chroma_for_luma(0..64);
}

#[test]
fn every_input_matches_float_reference_luma_64_to_127() {
    check_every_chroma_for_luma(64..128);
}

#[test]
fn every_input_matches_float_reference_luma_128_to_191() {
    check_every_chroma_for_luma(128..192);
}

#[test]
fn every_input_matches_float_reference_luma_192_to_255() {
    check_every_chroma_for_luma(192..256);
}
