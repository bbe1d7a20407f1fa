//! YUV (4:2:0 planar) to RGB conversion.
//!
//! The conversion is the BT.601 full-range one,
//!   R = Y + 1.402 (V - 128)
//!   G = Y - 0.344136 (U - 128) - 0.714136 (V - 128)
//!   B = Y + 1.772 (U - 128)
//! each rounded to the nearest integer (halves away from zero) and clamped
//! to 0..=255, with the results that single-precision evaluation of these
//! formulas gives. The coefficients are exact decimals, so the arithmetic is
//! done on integers scaled by a power of ten; single precision differs from
//! the exact value only in the roundings described at `green_rounds_down`.

use vstd::prelude::*;

verus! {

/// `num / den` rounded to the nearest integer, halves away from zero.
pub open spec fn round_div(num: int, den: int) -> int
    recommends
        den > 0,
{
    if num >= 0 {
        (2 * num + den) / (2 * den)
    } else {
        -((-2 * num + den) / (2 * den))
    }
}

/// `x` clamped to the range of a byte.
pub open spec fn clamp_u8(x: int) -> u8 {
    if x < 0 {
        0
    } else if x > 255 {
        255
    } else {
        x as u8
    }
}

pub open spec fn spec_red(y: u8, v: u8) -> u8 {
    clamp_u8(round_div(1000 * y + 1402 * (v - 128), 1000))
}

/// Whether single precision rounds G down from an exact half. G is exactly
/// halfway between two integers only for (U, V) = (78, 178), where it is
/// Y - 18.5, and (178, 78), where it is Y + 18.5. Evaluated in `f32` as
/// (Y - 0.344136 (U - 128)) - 0.714136 (V - 128), the sum falls just below
/// the half for Y >= 239 in the first case and Y <= 13 in the second.
pub open spec fn green_rounds_down(y: u8, u: u8, v: u8) -> bool {
    ||| u == 78 && v == 178 && y >= 239
    ||| u == 178 && v == 78 && y <= 13
}

pub open spec fn spec_green(y: u8, u: u8, v: u8) -> u8 {
    let nearest = round_div(1000000 * y - 344136 * (u - 128) - 714136 * (v - 128), 1000000);
    clamp_u8(if green_rounds_down(y, u, v) { nearest - 1 } else { nearest })
}

pub open spec fn spec_blue(y: u8, u: u8) -> u8 {
    clamp_u8(round_div(1000 * y + 1772 * (u - 128), 1000))
}

/// Index into a chroma plane (half the width, half the height, stride
/// `width / 2`) of the sample for pixel `p` of a `width`-wide image.
pub open spec fn chroma_index(width: int, p: int) -> int {
    ((p / width) / 2) * (width / 2) + (p % width) / 2
}

/// How many chroma samples a `width` x `height` image reads.
pub open spec fn chroma_len_needed(width: int, height: int) -> int {
    if width == 0 || height == 0 {
        0
    } else {
        ((height - 1) / 2) * (width / 2) + (width - 1) / 2 + 1
    }
}

/// Channel `k` (0 red, 1 green, 2 blue) of pixel `p` (row-major).
pub open spec fn spec_channel(
    y_plane: Seq<u8>,
    u_plane: Seq<u8>,
    v_plane: Seq<u8>,
    width: int,
    p: int,
    k: int,
) -> u8 {
    let yy = y_plane[p];
    let uu = u_plane[chroma_index(width, p)];
    let vv = v_plane[chroma_index(width, p)];
    if k == 0 {
        spec_red(yy, vv)
    } else if k == 1 {
        spec_green(yy, uu, vv)
    } else {
        spec_blue(yy, uu)
    }
}

/// The packed RGB bytes of a `width` x `height` image.
pub open spec fn spec_rgb(
    y_plane: Seq<u8>,
    u_plane: Seq<u8>,
    v_plane: Seq<u8>,
    width: int,
    height: int,
) -> Seq<u8> {
    Seq::new(
        (width * height * 3) as nat,
        |i: int| spec_channel(y_plane, u_plane, v_plane, width, i / 3, i % 3),
    )
}

/// Rounds `num / den` to nearest, halves away from zero.
fn round_div_exec(num: i64, den: i64) -> (r: i64)
    requires
        den > 0,
        -1_000_000_000_000 <= num <= 1_000_000_000_000,
        den <= 1_000_000_000,
    ensures
        r == round_div(num as int, den as int),
{
    if num >= 0 {
        (2 * num + den) / (2 * den)
    } else {
        let m: i64 = -num;
        -((2 * m + den) / (2 * den))
    }
}

fn clamp_u8_exec(x: i64) -> (r: u8)
    ensures
        r == clamp_u8(x as int),
{
    if x < 0 {
        0
    } else if x > 255 {
        255
    } else {
        x as u8
    }
}

proof fn lemma_chroma_index_bound(width: int, height: int, p: int)
    requires
        width > 0,
        height > 0,
        0 <= p < width * height,
    ensures
        0 <= chroma_index(width, p) < chroma_len_needed(width, height),
        p / width < height,
{
    let row = p / width;
    let col = p % width;
    assert(p == width * row + col && 0 <= col < width) by (nonlinear_arith)
        requires
            width > 0,
            row == p / width,
            col == p % width,
    ;
    assert(0 <= row < height) by (nonlinear_arith)
        requires
            p == width * row + col,
            0 <= col < width,
            0 <= p < width * height,
            width > 0,
    ;
    assert(0 <= (row / 2) * (width / 2) <= ((height - 1) / 2) * (width / 2)) by (nonlinear_arith)
        requires
            0 <= row < height,
            width > 0,
    ;
}

/// Converts a planar YUV 4:2:0 image (`width` x `height` luma samples,
/// chroma planes with stride `width / 2`) into packed RGB in `rgb`.
/// Bytes of `rgb` past the image are left as they were.
// This is a simple and not very efficient implementation.
// It could be optimized with SIMD or by using a shader on the GPU.
pub fn yuv_to_rgb(
    y_plane: &[u8],
    u_plane: &[u8],
    v_plane: &[u8],
    width: usize,
    height: usize,
    rgb: &mut [u8],
)
    requires
        width * height * 3 <= usize::MAX,
        y_plane@.len() >= width * height,
        u_plane@.len() >= chroma_len_needed(width as int, height as int),
        v_plane@.len() >= chroma_len_needed(width as int, height as int),
        old(rgb)@.len() >= width * height * 3,
    ensures
        final(rgb)@.len() == old(rgb)@.len(),
        final(rgb)@.subrange(0, width * height * 3) == spec_rgb(
            y_plane@,
            u_plane@,
            v_plane@,
            width as int,
            height as int,
        ),
        final(rgb)@.subrange(width * height * 3, old(rgb)@.len() as int) == old(rgb)@.subrange(
            width * height * 3,
            old(rgb)@.len() as int,
        ),
{
    let ghost expected = spec_rgb(y_plane@, u_plane@, v_plane@, width as int, height as int);
    let n: usize = width * height;
    let u_stride = width / 2;
    let mut p: usize = 0;
    while p < n
        invariant
            n == width * height,
            n * 3 <= usize::MAX,
            u_stride == width / 2,
            p <= n,
            y_plane@.len() >= n,
            u_plane@.len() >= chroma_len_needed(width as int, height as int),
            v_plane@.len() >= chroma_len_needed(width as int, height as int),
            rgb@.len() == old(rgb)@.len(),
            rgb@.len() >= n * 3,
            expected == spec_rgb(y_plane@, u_plane@, v_plane@, width as int, height as int),
            expected.len() == n * 3,
            forall|i: int| 0 <= i < p * 3 ==> #[trigger] rgb@[i] == expected[i],
            forall|i: int| n * 3 <= i < rgb@.len() ==> #[trigger] rgb@[i] == old(rgb)@[i],
        decreases n - p,
    {
        proof {
            assert(width > 0 && height > 0) by (nonlinear_arith)
                requires
                    p < n,
                    n == width * height,
            ;
            lemma_chroma_index_bound(width as int, height as int, p as int);
        }
        let row = p / width;
        let col = p % width;
        proof {
            assert((row as int / 2) * (u_stride as int) + (col as int / 2) == chroma_index(
                width as int,
                p as int,
            ));
            assert(0 <= (row as int / 2) * (u_stride as int) <= chroma_index(width as int, p as int))
                by (nonlinear_arith)
                requires
                    (row as int / 2) * (u_stride as int) + (col as int / 2) == chroma_index(
                        width as int,
                        p as int,
                    ),
                    col >= 0,
                    row >= 0,
                    u_stride >= 0,
            ;
        }
        let u_len = u_plane.len();
        assert(chroma_index(width as int, p as int) < u_len);
        let c_idx = (row / 2) * u_stride + (col / 2);

        let yb = y_plane[p];
        let ub = u_plane[c_idx];
        let vb = v_plane[c_idx];
        let y = yb as i64;
        let u = ub as i64 - 128;
        let v = vb as i64 - 128;

        let r = clamp_u8_exec(round_div_exec(1000 * y + 1402 * v, 1000));
        let nearest_g = round_div_exec(1000000 * y - 344136 * u - 714136 * v, 1000000);
        let rounds_down = (ub == 78 && vb == 178 && yb >= 239) || (ub == 178 && vb == 78 && yb <= 13);
        let g = clamp_u8_exec(if rounds_down { nearest_g - 1 } else { nearest_g });
        let b = clamp_u8_exec(round_div_exec(1000 * y + 1772 * u, 1000));

        let rgb_idx = p * 3;
        rgb[rgb_idx] = r;
        rgb[rgb_idx + 1] = g;
        rgb[rgb_idx + 2] = b;
        proof {
            let pi = p as int;
            assert((3 * pi) / 3 == pi && (3 * pi) % 3 == 0);
            assert((3 * pi + 1) / 3 == pi && (3 * pi + 1) % 3 == 1);
            assert((3 * pi + 2) / 3 == pi && (3 * pi + 2) % 3 == 2);
            assert(expected[3 * pi] == r);
            assert(expected[3 * pi + 1] == g);
            assert(expected[3 * pi + 2] == b);
        }
        p = p + 1;
    }
    proof {
        assert(rgb@.subrange(0, n * 3) =~= expected);
        assert(rgb@.subrange(n * 3, old(rgb)@.len() as int) =~= old(rgb)@.subrange(
            n * 3,
            old(rgb)@.len() as int,
        ));
    }
}

} // verus!
