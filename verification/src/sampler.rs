//! Per-frame sampling of the source image into the grid.
//!
//! The source image is first downsampled to exactly `dims.x * dims.y` pixels
//! with a Gaussian area filter (done by the `image` crate behind a trusted
//! wrapper), then each cell reads the pixel at `(gx, dims.y - 1 - gy)` — the
//! vertical axis is inverted because image row 0 is the top while grid row 0
//! is the bottom.  A cell's brightness is the sum of its three channels; the
//! radius is the cell half-extent scaled by brightness normalized against
//! the frame-wide maximum, floored at `MIN_RADIUS_X2`, and defined as the
//! bare floor when the whole frame is black.

use vstd::prelude::*;
use crate::color::{MAX_IMAGE_DIM, RgbImage};
use crate::grid::{MIN_RADIUS_X2, Particle, ParticleGrid};
use crate::layout::{GridSize, Viewport};

verus! {

/// Pixel buffer produced by the Gaussian downsampling of `image::imageops::resize`,
/// as a function of the source pixels and the two resolutions alone.
pub uninterp spec fn gaussian_resized(
    pixels: Seq<u8>,
    src_w: int,
    src_h: int,
    dst_w: int,
    dst_h: int,
) -> Seq<u8>;

/// Relies on `image::imageops::resize` with `FilterType::Gaussian`: it
/// returns an image of exactly the requested dimensions (three bytes per
/// pixel here), computed from the source pixels alone, and
/// `ImageBuffer::from_raw` accepts any buffer of exactly `3 * w * h` bytes.
#[verifier::external_body]
fn resize_gaussian(img: &RgbImage, dst_w: u32, dst_h: u32) -> (r: Vec<u8>)
    requires
        img.wf(),
        1 <= dst_w <= MAX_IMAGE_DIM,
        1 <= dst_h <= MAX_IMAGE_DIM,
    ensures
        r@ == gaussian_resized(img.pixels@, img.width as int, img.height as int,
            dst_w as int, dst_h as int),
        r@.len() == 3 * dst_w * dst_h,
{
    let buffer: image::RgbImage =
        image::RgbImage::from_raw(img.width, img.height, img.pixels.clone()).unwrap();
    let resized = image::imageops::resize(&buffer, dst_w, dst_h,
        image::imageops::FilterType::Gaussian);
    resized.into_raw()
}

/// Downsamples the source image to one pixel per grid cell.
pub fn resize_to_grid(img: &RgbImage, dims: &GridSize) -> (r: RgbImage)
    requires
        img.wf(),
        dims.wf(),
    ensures
        r.wf(),
        r.width == dims.x,
        r.height == dims.y,
        r.pixels@ == gaussian_resized(img.pixels@, img.width as int, img.height as int,
            dims.x as int, dims.y as int),
{
    let pixels = resize_gaussian(img, dims.x, dims.y);
    RgbImage { width: dims.x, height: dims.y, pixels }
}

/// Channel `c` sampled for cell `(gx, gy)` from a buffer at grid resolution:
/// the pixel at `(gx, dims.y - 1 - gy)`.
pub open spec fn sampled_channel(pix: Seq<u8>, dims: GridSize, gx: int, gy: int, c: int) -> u8 {
    pix[3 * ((dims.y - 1 - gy) * dims.x + gx) + c]
}

/// Brightness of cell `(gx, gy)`: the sum of its three sampled channels.
pub open spec fn cell_brightness(pix: Seq<u8>, dims: GridSize, gx: int, gy: int) -> int {
    sampled_channel(pix, dims, gx, gy, 0) + sampled_channel(pix, dims, gx, gy, 1)
        + sampled_channel(pix, dims, gx, gy, 2)
}

/// Brightness of the cell at row-major index `i`.
pub open spec fn cell_brightness_at(pix: Seq<u8>, dims: GridSize, i: int) -> int {
    cell_brightness(pix, dims, i % (dims.x as int), i / (dims.x as int))
}

/// Largest brightness among the first `n` cells (0 for an empty prefix).
pub open spec fn max_brightness_upto(pix: Seq<u8>, dims: GridSize, n: int) -> int
    decreases n,
{
    if n <= 0 {
        0
    } else if cell_brightness_at(pix, dims, n - 1) > max_brightness_upto(pix, dims, n - 1) {
        cell_brightness_at(pix, dims, n - 1)
    } else {
        max_brightness_upto(pix, dims, n - 1)
    }
}

/// Largest brightness across the whole grid.
pub open spec fn grid_max_brightness(pix: Seq<u8>, dims: GridSize) -> int {
    max_brightness_upto(pix, dims, dims.cell_count())
}

/// Brightness normalized against the frame maximum, in thousandths; defined
/// as zero when the maximum is zero, so an all-black frame never divides by
/// zero.
pub open spec fn normalized_milli(b: int, maxb: int) -> int {
    if maxb == 0 {
        0
    } else {
        1000 * b / maxb
    }
}

/// Radius (in half-units) of a cell with brightness `b` in a frame whose
/// maximum is `maxb`: the cell half-extent along the tighter axis, scaled by
/// `b / maxb`, truncated, floored at `MIN_RADIUS_X2`; the bare floor when
/// `maxb` is zero.
pub open spec fn radius_x2_for(vp: Viewport, dims: GridSize, b: int, maxb: int) -> int {
    if maxb == 0 {
        MIN_RADIUS_X2 as int
    } else {
        let rx = (vp.width * b) / ((dims.x * maxb) as int);
        let ry = (vp.height * b) / ((dims.y * maxb) as int);
        let m = if rx <= ry { rx } else { ry };
        if m < MIN_RADIUS_X2 {
            MIN_RADIUS_X2 as int
        } else {
            m
        }
    }
}

fn radius_x2_exec(vp: &Viewport, dims: &GridSize, b: u32, maxb: u32) -> (r: u64)
    requires
        vp.wf(),
        dims.wf(),
        b <= 765,
        maxb <= 765,
    ensures
        r == radius_x2_for(*vp, *dims, b as int, maxb as int),
        r >= MIN_RADIUS_X2,
{
    if maxb == 0 {
        MIN_RADIUS_X2
    } else {
        proof {
            assert((vp.width as int) * (b as int) <= 1_000_000 * 765) by (nonlinear_arith)
                requires vp.width <= 1_000_000, b <= 765;
            assert((vp.height as int) * (b as int) <= 1_000_000 * 765) by (nonlinear_arith)
                requires vp.height <= 1_000_000, b <= 765;
            assert((dims.x as int) * (maxb as int) >= 1 && (dims.x as int) * (maxb as int)
                <= 4096 * 765) by (nonlinear_arith)
                requires 1 <= dims.x <= 4096, 1 <= maxb <= 765;
            assert((dims.y as int) * (maxb as int) >= 1 && (dims.y as int) * (maxb as int)
                <= 4096 * 765) by (nonlinear_arith)
                requires 1 <= dims.y <= 4096, 1 <= maxb <= 765;
        }
        let rx: u64 = ((vp.width as u64) * (b as u64)) / ((dims.x as u64) * (maxb as u64));
        let ry: u64 = ((vp.height as u64) * (b as u64)) / ((dims.y as u64) * (maxb as u64));
        let m: u64 = if rx <= ry { rx } else { ry };
        if m < MIN_RADIUS_X2 {
            MIN_RADIUS_X2
        } else {
            m
        }
    }
}

/// `g` is `old_g` with color, brightness and radius refreshed from the
/// grid-resolution buffer `pix` under viewport `vp`; everything else — grid
/// coordinates, mode, position, velocity — is untouched, and the recorded
/// frame maximum matches the same buffer, so the whole refresh is consistent
/// with one source snapshot.
pub open spec fn refreshed(old_g: ParticleGrid, g: ParticleGrid, pix: Seq<u8>, vp: Viewport)
    -> bool {
    &&& g.dims == old_g.dims
    &&& g.max_brightness == grid_max_brightness(pix, g.dims)
    &&& g.cells@.len() == old_g.cells@.len()
    &&& forall|i: int| #![trigger g.cells@[i]] 0 <= i < g.cells@.len() ==> {
        let oc = old_g.cells@[i];
        let c = g.cells@[i];
        &&& c.x == oc.x
        &&& c.y == oc.y
        &&& c.mode == oc.mode
        &&& c.pos_x2 == oc.pos_x2
        &&& c.pos_y2 == oc.pos_y2
        &&& c.vel_x == oc.vel_x
        &&& c.vel_y == oc.vel_y
        &&& c.red == sampled_channel(pix, g.dims, oc.x as int, oc.y as int, 0)
        &&& c.green == sampled_channel(pix, g.dims, oc.x as int, oc.y as int, 1)
        &&& c.blue == sampled_channel(pix, g.dims, oc.x as int, oc.y as int, 2)
        &&& c.brightness == cell_brightness(pix, g.dims, oc.x as int, oc.y as int)
        &&& c.radius_x2 == radius_x2_for(vp, g.dims, c.brightness as int,
            g.max_brightness as int)
    }
}

fn sample_cell(img: &RgbImage, dims: &GridSize, gx: u32, gy: u32) -> (rgb: (u8, u8, u8))
    requires
        img.wf(),
        dims.wf(),
        img.width == dims.x,
        img.height == dims.y,
        gx < dims.x,
        gy < dims.y,
    ensures
        rgb.0 == sampled_channel(img.pixels@, *dims, gx as int, gy as int, 0),
        rgb.1 == sampled_channel(img.pixels@, *dims, gx as int, gy as int, 1),
        rgb.2 == sampled_channel(img.pixels@, *dims, gx as int, gy as int, 2),
{
    let py: u32 = dims.y - 1 - gy;
    proof {
        assert((py as int) * (dims.x as int) + gx < (dims.y as int) * (dims.x as int))
            by (nonlinear_arith)
            requires 0 <= py < dims.y, 0 <= gx < dims.x;
        assert((dims.y as int) * (dims.x as int) <= 4096 * 4096) by (nonlinear_arith)
            requires dims.y <= 4096, dims.x <= 4096;
        assert(3 * (dims.x as int) * (dims.y as int)
            == 3 * ((dims.y as int) * (dims.x as int))) by (nonlinear_arith);
    }
    let idx: usize = 3 * ((py as usize) * (dims.x as usize) + (gx as usize));
    (img.pixels[idx], img.pixels[idx + 1], img.pixels[idx + 2])
}

/// Refreshes every cell's color, brightness and radius from a buffer already
/// at grid resolution, in one batch: after the call the whole grid is
/// consistent with the same source snapshot, and no other field changes.
#[verifier::loop_isolation(false)]
pub fn apply_sampled_image(grid: &mut ParticleGrid, img: &RgbImage, vp: &Viewport)
    requires
        old(grid).wf(),
        img.wf(),
        vp.wf(),
        img.width == old(grid).dims.x,
        img.height == old(grid).dims.y,
    ensures
        final(grid).wf(),
        refreshed(*old(grid), *final(grid), img.pixels@, *vp),
{
    let n: usize = grid.cells.len();
    let dims: GridSize = grid.dims;
    let mut maxb: u32 = 0;
    for i in 0..n
        invariant
            maxb == max_brightness_upto(img.pixels@, dims, i as int),
            maxb <= 765,
            grid.cells@.len() == n,
            grid.dims == dims,
            grid.max_brightness == old(grid).max_brightness,
            forall|j: int| #![trigger grid.cells@[j]] 0 <= j < n ==> {
                let oc = old(grid).cells@[j];
                let c = grid.cells@[j];
                &&& c.x == oc.x
                &&& c.y == oc.y
                &&& c.mode == oc.mode
                &&& c.pos_x2 == oc.pos_x2
                &&& c.pos_y2 == oc.pos_y2
                &&& c.vel_x == oc.vel_x
                &&& c.vel_y == oc.vel_y
                &&& c.radius_x2 == oc.radius_x2
            },
            forall|j: int| #![trigger grid.cells@[j]] 0 <= j < i ==> {
                let oc = old(grid).cells@[j];
                let c = grid.cells@[j];
                &&& c.red == sampled_channel(img.pixels@, dims, oc.x as int, oc.y as int, 0)
                &&& c.green == sampled_channel(img.pixels@, dims, oc.x as int, oc.y as int, 1)
                &&& c.blue == sampled_channel(img.pixels@, dims, oc.x as int, oc.y as int, 2)
                &&& c.brightness == cell_brightness(img.pixels@, dims, oc.x as int, oc.y as int)
            },
            forall|j: int| #![trigger grid.cells@[j]] i <= j < n
                ==> grid.cells@[j] == old(grid).cells@[j],
    {
        proof {
            vstd::arithmetic::div_mod::lemma_mod_division_less_than_divisor(
                i as int, dims.x as int);
            vstd::arithmetic::div_mod::lemma_multiply_divide_lt(
                i as int, dims.x as int, dims.y as int);
        }
        let mut c = grid.cells[i];
        let (r, g, b) = sample_cell(img, &dims, c.x, c.y);
        c.red = r;
        c.green = g;
        c.blue = b;
        c.brightness = (r as u32) + (g as u32) + (b as u32);
        if c.brightness > maxb {
            maxb = c.brightness;
        }
        grid.cells.set(i, c);
    }
    grid.max_brightness = maxb;
    let ghost mid = *grid;
    for i in 0..n
        invariant
            grid.cells@.len() == n,
            grid.dims == dims,
            grid.max_brightness == maxb,
            forall|j: int| #![trigger grid.cells@[j]] 0 <= j < i ==> {
                let mc = mid.cells@[j];
                let c = grid.cells@[j];
                &&& c == Particle { radius_x2: c.radius_x2, ..mc }
                &&& c.radius_x2 == radius_x2_for(*vp, dims, mc.brightness as int, maxb as int)
                &&& c.radius_x2 >= MIN_RADIUS_X2
            },
            forall|j: int| #![trigger grid.cells@[j]] i <= j < n
                ==> grid.cells@[j] == mid.cells@[j],
    {
        let mut c = grid.cells[i];
        let rad = radius_x2_exec(vp, &dims, c.brightness, maxb);
        c.radius_x2 = rad;
        grid.cells.set(i, c);
    }
    proof {
        assert forall|i: int| 0 <= i < n
            implies #[trigger] grid.cells@[i].brightness <= maxb by {
            lemma_max_upto_ge(img.pixels@, dims, i, n as int);
        }
    }
}

/// Every cell's brightness is bounded by the prefix maximum that covers it.
proof fn lemma_max_upto_ge(pix: Seq<u8>, dims: GridSize, i: int, n: int)
    requires
        0 <= i < n,
    ensures
        cell_brightness_at(pix, dims, i) <= max_brightness_upto(pix, dims, n),
    decreases n,
{
    if i < n - 1 {
        lemma_max_upto_ge(pix, dims, i, n - 1);
    }
}

/// Normalized brightness always lies in the unit interval (here scaled to
/// thousandths): it is never negative, never exceeds one, and is zero by
/// definition when the frame maximum is zero.
pub proof fn lemma_normalized_bounds(b: int, maxb: int)
    requires
        0 <= b <= maxb,
    ensures
        0 <= normalized_milli(b, maxb) <= 1000,
{
    if maxb > 0 {
        vstd::arithmetic::div_mod::lemma_div_pos_is_pos(1000 * b, maxb);
        vstd::arithmetic::div_mod::lemma_div_is_ordered(1000 * b, 1000 * maxb, maxb);
        vstd::arithmetic::div_mod::lemma_div_multiples_vanish(1000, maxb);
        assert(1000 * b <= 1000 * maxb) by (nonlinear_arith)
            requires b <= maxb;
        assert(1000 * maxb == maxb * 1000) by (nonlinear_arith);
    }
}

/// In any well-formed grid, every cell's normalized brightness lies in the
/// unit interval, and an all-black frame (maximum zero) normalizes to zero
/// for every cell.
pub proof fn lemma_grid_normalized_bounds(g: ParticleGrid)
    requires
        g.wf(),
    ensures
        forall|i: int| #![trigger g.cells@[i]] 0 <= i < g.cells@.len()
            ==> 0 <= normalized_milli(g.cells@[i].brightness as int, g.max_brightness as int)
                <= 1000,
{
    assert forall|i: int| 0 <= i < g.cells@.len()
        implies 0 <= normalized_milli(#[trigger] g.cells@[i].brightness as int,
            g.max_brightness as int) <= 1000 by {
        lemma_normalized_bounds(g.cells@[i].brightness as int, g.max_brightness as int);
    }
}

/// Refreshes the grid from a source image of arbitrary resolution: the image
/// is Gaussian-downsampled to grid resolution and every cell is updated from
/// the result in one batch.  While the trigger is held the grid is left
/// exactly as it is — the dynamic simulation owns the visual state then.
pub fn draw_particles(grid: &mut ParticleGrid, img: &RgbImage, vp: &Viewport, trigger_held: bool)
    requires
        old(grid).wf(),
        img.wf(),
        vp.wf(),
    ensures
        final(grid).wf(),
        trigger_held ==> *final(grid) == *old(grid),
        !trigger_held ==> refreshed(*old(grid), *final(grid),
            gaussian_resized(img.pixels@, img.width as int, img.height as int,
                old(grid).dims.x as int, old(grid).dims.y as int), *vp),
{
    if trigger_held {
        return;
    }
    let dims: GridSize = grid.dims;
    let resized = resize_to_grid(img, &dims);
    apply_sampled_image(grid, &resized, vp);
}

} // verus!
