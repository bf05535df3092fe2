//! Conversion of a packed luma/chroma camera frame into RGB pixels.
//!
//! A frame of `w x h` pixels is laid out as a full-resolution luma plane of
//! `w * h` bytes followed by two quarter-resolution chroma planes of
//! `(w/2) * (h/2)` bytes each; every 2x2 block of luma samples shares one
//! chroma pair.  Each channel comes from the standard linear transform with
//! offsets `y - 16`, `u - 128`, `v - 128` and coefficients 1.164, 1.596,
//! 0.392, 0.813 and 2.017, carried out here in thousandths so the result is
//! exact: the quotient is truncated (not rounded) and clamped to the 8-bit
//! range, matching a narrowing cast.

use vstd::prelude::*;

verus! {

/// Largest image extent the sampling and conversion math accepts; keeps
/// every byte index inside `usize` on all targets.
pub const MAX_IMAGE_DIM: u32 = 16384;

/// Width of one camera frame in pixels.
pub const FRAME_WIDTH: u32 = 640;

/// Height of one camera frame in pixels.
pub const FRAME_HEIGHT: u32 = 480;

/// Red numerator in thousandths: `1.164 (y - 16) + 1.596 (v - 128)`.
pub open spec fn yuv_num_r(y: int, u: int, v: int) -> int {
    1164 * (y - 16) + 1596 * (v - 128)
}

/// Green numerator in thousandths: `1.164 (y - 16) - 0.392 (u - 128) - 0.813 (v - 128)`.
pub open spec fn yuv_num_g(y: int, u: int, v: int) -> int {
    1164 * (y - 16) - 392 * (u - 128) - 813 * (v - 128)
}

/// Blue numerator in thousandths: `1.164 (y - 16) + 2.017 (u - 128)`.
pub open spec fn yuv_num_b(y: int, u: int, v: int) -> int {
    1164 * (y - 16) + 2017 * (u - 128)
}

/// Divides a numerator in thousandths by 1000, truncating toward zero, and
/// clamps the quotient to the 8-bit range.
pub open spec fn clamp_channel(num: int) -> int {
    if num < 0 {
        0
    } else if num / 1000 > 255 {
        255
    } else {
        num / 1000
    }
}

/// Red channel of the converted pixel.
pub open spec fn yuv_r(y: u8, u: u8, v: u8) -> int {
    clamp_channel(yuv_num_r(y as int, u as int, v as int))
}

/// Green channel of the converted pixel.
pub open spec fn yuv_g(y: u8, u: u8, v: u8) -> int {
    clamp_channel(yuv_num_g(y as int, u as int, v as int))
}

/// Blue channel of the converted pixel.
pub open spec fn yuv_b(y: u8, u: u8, v: u8) -> int {
    clamp_channel(yuv_num_b(y as int, u as int, v as int))
}

fn clamp_channel_exec(num: i64) -> (c: u8)
    requires
        -100_000_000 <= num <= 100_000_000,
    ensures
        c as int == clamp_channel(num as int),
{
    if num < 0 {
        0
    } else {
        let q: u64 = (num as u64) / 1000;
        if q > 255 {
            255
        } else {
            q as u8
        }
    }
}

/// Converts one luma/chroma sample triple to an RGB triple, exactly as the
/// linear formula with truncation prescribes.  A pure function of its
/// arguments, so fixed inputs always reproduce the same output.
pub fn rgb_from_yuv(y: u8, u: u8, v: u8) -> (rgb: (u8, u8, u8))
    ensures
        rgb.0 as int == yuv_r(y, u, v),
        rgb.1 as int == yuv_g(y, u, v),
        rgb.2 as int == yuv_b(y, u, v),
{
    let yd: i64 = y as i64 - 16;
    let ud: i64 = u as i64 - 128;
    let vd: i64 = v as i64 - 128;
    let r = clamp_channel_exec(1164 * yd + 1596 * vd);
    let g = clamp_channel_exec(1164 * yd - 392 * ud - 813 * vd);
    let b = clamp_channel_exec(1164 * yd + 2017 * ud);
    (r, g, b)
}

/// An RGB image as a flat byte buffer, three bytes per pixel in row-major
/// order starting at the top-left corner.
pub struct RgbImage {
    pub width: u32,
    pub height: u32,
    pub pixels: Vec<u8>,
}

impl RgbImage {
    /// Positive extents within the supported bound, and exactly three bytes
    /// per pixel.
    pub open spec fn wf(self) -> bool {
        &&& 1 <= self.width <= MAX_IMAGE_DIM
        &&& 1 <= self.height <= MAX_IMAGE_DIM
        &&& self.pixels@.len() == 3 * self.width * self.height
    }

    /// Channel `c` (0 red, 1 green, 2 blue) of the pixel at `(x, y)`.
    pub open spec fn channel_at(self, x: int, y: int, c: int) -> u8 {
        self.pixels@[3 * (y * self.width + x) + c]
    }
}

/// Number of bytes in one packed frame of `w x h` pixels.
pub open spec fn frame_len(w: int, h: int) -> int {
    w * h + 2 * ((w / 2) * (h / 2))
}

/// Luma sample of pixel `(x, y)`.
pub open spec fn frame_luma(buf: Seq<u8>, w: int, x: int, y: int) -> u8 {
    buf[y * w + x]
}

/// Offset of the chroma sample shared by the 2x2 block around `(x, y)`
/// within one chroma plane.
pub open spec fn chroma_offset(w: int, x: int, y: int) -> int {
    (y / 2) * (w / 2) + x / 2
}

/// First chroma sample of pixel `(x, y)`.
pub open spec fn frame_chroma_u(buf: Seq<u8>, w: int, h: int, x: int, y: int) -> u8 {
    buf[w * h + chroma_offset(w, x, y)]
}

/// Second chroma sample of pixel `(x, y)`.
pub open spec fn frame_chroma_v(buf: Seq<u8>, w: int, h: int, x: int, y: int) -> u8 {
    buf[w * h + (w / 2) * (h / 2) + chroma_offset(w, x, y)]
}

/// Red channel of the converted pixel at `(x, y)`.
pub open spec fn converted_r(buf: Seq<u8>, w: int, h: int, x: int, y: int) -> int {
    yuv_r(frame_luma(buf, w, x, y), frame_chroma_u(buf, w, h, x, y),
        frame_chroma_v(buf, w, h, x, y))
}

/// Green channel of the converted pixel at `(x, y)`.
pub open spec fn converted_g(buf: Seq<u8>, w: int, h: int, x: int, y: int) -> int {
    yuv_g(frame_luma(buf, w, x, y), frame_chroma_u(buf, w, h, x, y),
        frame_chroma_v(buf, w, h, x, y))
}

/// Blue channel of the converted pixel at `(x, y)`.
pub open spec fn converted_b(buf: Seq<u8>, w: int, h: int, x: int, y: int) -> int {
    yuv_b(frame_luma(buf, w, x, y), frame_chroma_u(buf, w, h, x, y),
        frame_chroma_v(buf, w, h, x, y))
}

/// Converts one packed camera frame of `w x h` pixels into an RGB image of
/// the same resolution.  The caller must hand over a buffer of exactly the
/// packed size; an undersized buffer is a precondition violation, never
/// silently wrapped or clamped.
#[verifier::loop_isolation(false)]
#[verifier::rlimit(60)]
pub fn convert_frame(buf: &Vec<u8>, w: u32, h: u32) -> (img: RgbImage)
    requires
        2 <= w <= MAX_IMAGE_DIM,
        2 <= h <= MAX_IMAGE_DIM,
        w % 2 == 0,
        h % 2 == 0,
        buf@.len() == frame_len(w as int, h as int),
    ensures
        img.wf(),
        img.width == w,
        img.height == h,
        forall|x: int, y: int| #![trigger img.channel_at(x, y, 0)]
            0 <= x < w && 0 <= y < h
            ==> pixel_converted(img.pixels@, buf@, w as int, h as int, x, y),
{
    proof {
        assert((h as int) * (w as int) <= 16384 * 16384) by (nonlinear_arith)
            requires h <= 16384, w <= 16384;
        assert(((h as int) / 2) * ((w as int) / 2) <= 16384 * 16384) by (nonlinear_arith)
            requires h <= 16384, w <= 16384;
    }
    let base: usize = (w as usize) * (h as usize);
    let quarter: usize = ((w / 2) as usize) * ((h / 2) as usize);
    let mut pixels: Vec<u8> = Vec::new();
    for y in 0..h
        invariant
            pixels@.len() == 3 * ((y as int) * (w as int)),
            rows_converted(pixels@, buf@, w as int, h as int, y as int),
    {
        for x in 0..w
            invariant
                pixels@.len() == 3 * ((y as int) * (w as int)) + 3 * (x as int),
                rows_converted(pixels@, buf@, w as int, h as int, y as int),
                row_prefix_converted(pixels@, buf@, w as int, h as int, y as int, x as int),
        {
            proof {
                assert((y as int) * (w as int) + x < (h as int) * (w as int)) by (nonlinear_arith)
                    requires 0 <= y < h, 0 <= x < w;
                assert(((y as int) / 2) * ((w as int) / 2) + (x as int) / 2
                    < ((h as int) / 2) * ((w as int) / 2)) by (nonlinear_arith)
                    requires 0 <= y < h, 0 <= x < w, h % 2 == 0, w % 2 == 0;
                assert((w as int) * (h as int) == (h as int) * (w as int)) by (nonlinear_arith);
            }
            let li: usize = (y as usize) * (w as usize) + (x as usize);
            let coff: usize = ((y / 2) as usize) * ((w / 2) as usize) + ((x / 2) as usize);
            let ys: u8 = buf[li];
            let us: u8 = buf[base + coff];
            let vs: u8 = buf[base + quarter + coff];
            let (r, g, b) = rgb_from_yuv(ys, us, vs);
            let ghost prev = pixels@;
            pixels.push(r);
            pixels.push(g);
            pixels.push(b);
            proof {
                assert forall|py: int, px: int| #![trigger py * (w as int) + px]
                    0 <= py < y && 0 <= px < w
                    implies pixel_converted(pixels@, buf@, w as int, h as int, px, py) by {
                    lemma_below_row_index(py, px, y as int, x as int, w as int);
                    assert(pixel_converted(prev, buf@, w as int, h as int, px, py));
                }
                assert forall|px: int| #![trigger pixels@[3 * ((y as int) * (w as int) + px)]]
                    0 <= px < x + 1
                    implies pixel_converted(pixels@, buf@, w as int, h as int, px, y as int) by {
                    if px < x {
                        assert(pixel_converted(prev, buf@, w as int, h as int, px, y as int));
                    }
                }
            }
        }
        proof {
            assert forall|py: int, px: int| #![trigger py * (w as int) + px]
                0 <= py < y + 1 && 0 <= px < w
                implies pixel_converted(pixels@, buf@, w as int, h as int, px, py) by {
                if py == y {
                    assert(row_prefix_converted(pixels@, buf@, w as int, h as int,
                        y as int, w as int));
                }
            }
            assert(3 * ((y as int) * (w as int)) + 3 * (w as int)
                == 3 * (((y as int) + 1) * (w as int))) by (nonlinear_arith);
        }
    }
    proof {
        assert(3 * ((h as int) * (w as int)) == 3 * (w as int) * (h as int)) by (nonlinear_arith);
    }
    RgbImage { width: w, height: h, pixels }
}

/// Pixel `(x, y)` of `pixels` holds the converted value of frame pixel `(x, y)`.
pub open spec fn pixel_converted(pixels: Seq<u8>, buf: Seq<u8>, w: int, h: int, x: int, y: int)
    -> bool {
    &&& pixels[3 * (y * w + x) + 0] as int == converted_r(buf, w, h, x, y)
    &&& pixels[3 * (y * w + x) + 1] as int == converted_g(buf, w, h, x, y)
    &&& pixels[3 * (y * w + x) + 2] as int == converted_b(buf, w, h, x, y)
}

/// All rows strictly below `y` have been converted.
pub open spec fn rows_converted(pixels: Seq<u8>, buf: Seq<u8>, w: int, h: int, y: int) -> bool {
    forall|py: int, px: int| #![trigger py * w + px]
        0 <= py < y && 0 <= px < w ==> pixel_converted(pixels, buf, w, h, px, py)
}

/// The first `x` pixels of row `y` have been converted.
pub open spec fn row_prefix_converted(pixels: Seq<u8>, buf: Seq<u8>, w: int, h: int, y: int, x: int)
    -> bool {
    forall|px: int| #![trigger pixels[3 * (y * w + px)]]
        0 <= px < x ==> pixel_converted(pixels, buf, w, h, px, y)
}

proof fn lemma_below_row_index(py: int, px: int, y: int, x: int, w: int)
    requires
        0 <= py < y,
        0 <= px < w,
        0 <= x,
    ensures
        py * w + px < y * w + x,
{
    assert(py * w + px < y * w) by (nonlinear_arith)
        requires py <= y - 1, 0 <= px < w;
}

} // verus!
