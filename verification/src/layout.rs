//! Viewport and grid dimensions, and the map from grid coordinates to world
//! coordinates.
//!
//! World coordinates are measured in half-units (twice the viewport unit) so
//! that the center of every cell is an integer: the center of cell `g` on an
//! axis of `n` cells spanning `e` viewport units is `(2g + 1 - n) * e / (2n)`
//! viewport units from the middle of the axis, which is `(2g + 1 - n) * e / n`
//! half-units, truncated toward zero.

use vstd::prelude::*;

verus! {

/// Largest viewport extent (in viewport units) the layout math accepts; keeps
/// every intermediate product inside `u64`.
pub const MAX_VIEWPORT_DIM: u32 = 1_000_000;

/// Largest cell count along one grid axis; keeps the cell total and every
/// pixel index inside `usize` on all targets.
pub const MAX_GRID_DIM: u32 = 4096;

/// Cell counts of the particle grid, fixed at startup.
#[derive(Clone, Copy, PartialEq, Eq, Structural, Debug)]
pub struct GridSize {
    /// Number of cells along the horizontal axis.
    pub x: u32,
    /// Number of cells along the vertical axis.
    pub y: u32,
}

impl GridSize {
    /// Both axes hold at least one cell and stay within the supported bound.
    pub open spec fn wf(self) -> bool {
        1 <= self.x <= MAX_GRID_DIM && 1 <= self.y <= MAX_GRID_DIM
    }

    /// Total number of cells in a grid of these dimensions.
    pub open spec fn cell_count(self) -> int {
        self.x * self.y
    }

    pub fn new(x: u32, y: u32) -> (r: Option<GridSize>)
        ensures
            (1 <= x <= MAX_GRID_DIM && 1 <= y <= MAX_GRID_DIM) <==> r is Some,
            r is Some ==> (r->0 == GridSize { x, y } && r->0.wf()),
    {
        if 1 <= x && x <= MAX_GRID_DIM && 1 <= y && y <= MAX_GRID_DIM {
            Some(GridSize { x, y })
        } else {
            None
        }
    }
}

/// Current window size in viewport units, fixed by the windowing collaborator
/// and replaced on every resize event.
#[derive(Clone, Copy, PartialEq, Eq, Structural, Debug)]
pub struct Viewport {
    pub width: u32,
    pub height: u32,
}

impl Viewport {
    /// Both extents are positive and stay within the supported bound.
    pub open spec fn wf(self) -> bool {
        1 <= self.width <= MAX_VIEWPORT_DIM && 1 <= self.height <= MAX_VIEWPORT_DIM
    }

    /// Validates one resize event.  Events with a zero, negative or overlarge
    /// extent are rejected rather than propagated into the layout math.
    pub fn from_resize_event(width: i64, height: i64) -> (r: Option<Viewport>)
        ensures
            (1 <= width <= MAX_VIEWPORT_DIM && 1 <= height <= MAX_VIEWPORT_DIM) <==> r is Some,
            r is Some ==> (r->0 == (Viewport {
                width: width as u32,
                height: height as u32,
            }) && r->0.wf()),
    {
        if 1 <= width && width <= MAX_VIEWPORT_DIM as i64 && 1 <= height
            && height <= MAX_VIEWPORT_DIM as i64 {
            Some(Viewport { width: width as u32, height: height as u32 })
        } else {
            None
        }
    }
}

/// Center of cell `g` on an axis of `n` cells spanning `e` viewport units,
/// in half-units from the middle of the axis: `(2g + 1 - n) * e / n`,
/// truncated toward zero.
pub open spec fn axis_center_x2(e: int, n: int, g: int) -> int
    recommends
        1 <= n,
        0 <= g < n,
{
    if 2 * g + 1 >= n {
        ((2 * g + 1 - n) * e) / n
    } else {
        -(((n - 2 * g - 1) * e) / n)
    }
}

/// World x coordinate (half-units) of the center of grid column `gx`.
pub open spec fn world_x2(vp: Viewport, dims: GridSize, gx: int) -> int {
    axis_center_x2(vp.width as int, dims.x as int, gx)
}

/// World y coordinate (half-units) of the center of grid row `gy`.
pub open spec fn world_y2(vp: Viewport, dims: GridSize, gy: int) -> int {
    axis_center_x2(vp.height as int, dims.y as int, gy)
}

fn axis_center_x2_exec(e: u32, n: u32, g: u32) -> (r: i64)
    requires
        1 <= n <= MAX_GRID_DIM,
        e <= MAX_VIEWPORT_DIM,
        g < n,
    ensures
        r == axis_center_x2(e as int, n as int, g as int),
{
    let e64: u64 = e as u64;
    let n64: u64 = n as u64;
    let a: u64 = 2 * (g as u64) + 1;
    if a >= n64 {
        let d: u64 = a - n64;
        assert(d * e64 <= 2 * (MAX_GRID_DIM as int) * (MAX_VIEWPORT_DIM as int)) by (nonlinear_arith)
            requires
                d <= 2 * MAX_GRID_DIM,
                e64 <= MAX_VIEWPORT_DIM,
        ;
        let q: u64 = (d * e64) / n64;
        assert(q <= d * e64) by {
            vstd::arithmetic::div_mod::lemma_div_is_ordered_by_denominator(
                (d * e64) as int, 1, n64 as int);
        }
        q as i64
    } else {
        let d: u64 = n64 - a;
        assert(d * e64 <= 2 * (MAX_GRID_DIM as int) * (MAX_VIEWPORT_DIM as int)) by (nonlinear_arith)
            requires
                d <= 2 * MAX_GRID_DIM,
                e64 <= MAX_VIEWPORT_DIM,
        ;
        let q: u64 = (d * e64) / n64;
        assert(q <= d * e64) by {
            vstd::arithmetic::div_mod::lemma_div_is_ordered_by_denominator(
                (d * e64) as int, 1, n64 as int);
        }
        -(q as i64)
    }
}

/// Maps grid coordinates to the world-space center of that cell, centering
/// the whole grid in the viewport.  The result is a function of the
/// arguments alone, so identical inputs always give identical output.
pub fn cell_to_world(gx: u32, gy: u32, vp: &Viewport, dims: &GridSize) -> (r: (i64, i64))
    requires
        vp.wf(),
        dims.wf(),
        gx < dims.x,
        gy < dims.y,
    ensures
        r.0 == world_x2(*vp, *dims, gx as int),
        r.1 == world_y2(*vp, *dims, gy as int),
{
    (
        axis_center_x2_exec(vp.width, dims.x, gx),
        axis_center_x2_exec(vp.height, dims.y, gy),
    )
}

/// The first and last cells of an axis sit symmetrically about the middle of
/// the viewport: their half-unit offsets cancel exactly.
pub proof fn lemma_layout_symmetry(vp: Viewport, dims: GridSize)
    requires
        vp.wf(),
        dims.wf(),
    ensures
        world_x2(vp, dims, 0) + world_x2(vp, dims, dims.x - 1) == 0,
        world_y2(vp, dims, 0) + world_y2(vp, dims, dims.y - 1) == 0,
{
    lemma_axis_symmetry(vp.width as int, dims.x as int);
    lemma_axis_symmetry(vp.height as int, dims.y as int);
}

proof fn lemma_axis_symmetry(e: int, n: int)
    requires
        1 <= n,
        0 <= e,
    ensures
        axis_center_x2(e, n, 0) + axis_center_x2(e, n, n - 1) == 0,
{
    if n == 1 {
        assert(axis_center_x2(e, n, 0) == (0 * e) / n);
        assert(0 * e == 0) by (nonlinear_arith);
    } else {
        assert(2 * 0 + 1 < n);
        assert(2 * (n - 1) + 1 >= n);
        assert(2 * (n - 1) + 1 - n == n - 2 * 0 - 1);
        assert(axis_center_x2(e, n, n - 1) == ((n - 1) * e) / n);
        assert(axis_center_x2(e, n, 0) == -(((n - 1) * e) / n));
    }
}

} // verus!
