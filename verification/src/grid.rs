//! The particle grid: one record per cell, owned exclusively by the grid.
//!
//! The cells live in a `Vec` in row-major order, so the record for grid
//! position `(gx, gy)` sits at index `gy * width + gx`; the well-formedness
//! predicate pins the coordinates of every cell to its index, which makes
//! the `(gx, gy)` pairs unique and the cell count exactly `width * height`.

use vstd::prelude::*;
use crate::layout::{GridSize, Viewport, cell_to_world, world_x2, world_y2};

verus! {

/// Smallest radius a cell may have, in half-units (5 viewport units), so no
/// cell ever degenerates to an invisible or zero-size collision shape.
pub const MIN_RADIUS_X2: u64 = 10;

/// Whether a cell sits immobile on the grid or is handed to the physics
/// integrator.
#[derive(Clone, Copy, PartialEq, Eq, Structural, Debug)]
pub enum BodyMode {
    Static,
    Dynamic,
}

/// Full simulated state of one grid cell.
#[derive(Clone, Copy, PartialEq, Eq, Structural, Debug)]
pub struct Particle {
    /// Horizontal grid coordinate; immutable identity.
    pub x: u32,
    /// Vertical grid coordinate; immutable identity.
    pub y: u32,
    /// Red channel of the cell's current color.
    pub red: u8,
    /// Green channel of the cell's current color.
    pub green: u8,
    /// Blue channel of the cell's current color.
    pub blue: u8,
    /// Sum of the three color channels, sampled in the same frame as the color.
    pub brightness: u32,
    /// Visual and collision radius in half-units.
    pub radius_x2: u64,
    /// Which of the two modes the cell is in.
    pub mode: BodyMode,
    /// World x coordinate of the cell center, in half-units.
    pub pos_x2: i64,
    /// World y coordinate of the cell center, in half-units.
    pub pos_y2: i64,
    /// Horizontal velocity, in half-units per time step.
    pub vel_x: i64,
    /// Vertical velocity, in half-units per time step.
    pub vel_y: i64,
}

/// The fixed-size array of cells, created once at startup.
pub struct ParticleGrid {
    pub dims: GridSize,
    pub cells: Vec<Particle>,
    /// Largest per-cell brightness observed in the most recent sampled frame.
    pub max_brightness: u32,
}

impl ParticleGrid {
    /// One cell per grid position, in row-major order, each with in-range
    /// coordinates pinned to its index; radii never fall under the floor and
    /// no brightness exceeds the recorded frame maximum.
    pub open spec fn wf(self) -> bool {
        &&& self.dims.wf()
        &&& self.cells@.len() == self.dims.cell_count()
        &&& forall|i: int| #![trigger self.cells@[i]] 0 <= i < self.cells@.len() ==> {
            &&& self.cells@[i].x == i % (self.dims.x as int)
            &&& self.cells@[i].y == i / (self.dims.x as int)
            &&& self.cells@[i].radius_x2 >= MIN_RADIUS_X2
            &&& self.cells@[i].brightness <= self.max_brightness
        }
    }

    /// Every cell is in the same mode (the grid never shows mixed modes).
    pub open spec fn uniform_mode(self, m: BodyMode) -> bool {
        forall|i: int| #![trigger self.cells@[i]]
            0 <= i < self.cells@.len() ==> self.cells@[i].mode == m
    }

    /// Every cell sits exactly at the world position the layout assigns to
    /// its grid coordinates under viewport `vp`.
    pub open spec fn grid_aligned(self, vp: Viewport) -> bool {
        forall|i: int| #![trigger self.cells@[i]] 0 <= i < self.cells@.len() ==> {
            &&& self.cells@[i].pos_x2 == world_x2(vp, self.dims, self.cells@[i].x as int)
            &&& self.cells@[i].pos_y2 == world_y2(vp, self.dims, self.cells@[i].y as int)
        }
    }

    /// Builds the grid: one white, immobile cell per position, placed at its
    /// layout position for the given viewport, with zero velocity.
    pub fn new(dims: GridSize, vp: &Viewport) -> (g: ParticleGrid)
        requires
            dims.wf(),
            vp.wf(),
        ensures
            g.wf(),
            g.dims == dims,
            g.max_brightness == 0,
            g.uniform_mode(BodyMode::Static),
            g.grid_aligned(*vp),
            forall|i: int| #![trigger g.cells@[i]] 0 <= i < g.cells@.len() ==> {
                &&& g.cells@[i].vel_x == 0
                &&& g.cells@[i].vel_y == 0
                &&& g.cells@[i].brightness == 0
                &&& g.cells@[i].radius_x2 == MIN_RADIUS_X2
            },
    {
        proof {
            assert((dims.x as int) * (dims.y as int) <= 4096 * 4096) by (nonlinear_arith)
                requires dims.x <= 4096, dims.y <= 4096;
        }
        let count: usize = (dims.x as usize) * (dims.y as usize);
        let mut cells: Vec<Particle> = Vec::new();
        for i in 0..count
            invariant
                dims.wf(),
                vp.wf(),
                count == dims.cell_count(),
                cells@.len() == i,
                forall|j: int| #![trigger cells@[j]] 0 <= j < i ==> {
                    &&& cells@[j].x == j % (dims.x as int)
                    &&& cells@[j].y == j / (dims.x as int)
                    &&& cells@[j].radius_x2 == MIN_RADIUS_X2
                    &&& cells@[j].brightness == 0
                    &&& cells@[j].mode == BodyMode::Static
                    &&& cells@[j].pos_x2 == world_x2(*vp, dims, cells@[j].x as int)
                    &&& cells@[j].pos_y2 == world_y2(*vp, dims, cells@[j].y as int)
                    &&& cells@[j].vel_x == 0
                    &&& cells@[j].vel_y == 0
                },
        {
            proof {
                vstd::arithmetic::div_mod::lemma_mod_division_less_than_divisor(
                    i as int, dims.x as int);
                assert((i as int) < (dims.x as int) * (dims.y as int));
                vstd::arithmetic::div_mod::lemma_multiply_divide_lt(
                    i as int, dims.x as int, dims.y as int);
            }
            let gx: u32 = (i % (dims.x as usize)) as u32;
            let gy: u32 = (i / (dims.x as usize)) as u32;
            let (px, py) = cell_to_world(gx, gy, vp, &dims);
            cells.push(Particle {
                x: gx,
                y: gy,
                red: 255,
                green: 255,
                blue: 255,
                brightness: 0,
                radius_x2: MIN_RADIUS_X2,
                mode: BodyMode::Static,
                pos_x2: px,
                pos_y2: py,
                vel_x: 0,
                vel_y: 0,
            });
        }
        ParticleGrid { dims, cells, max_brightness: 0 }
    }

    /// Number of cells; equal to `dims.x * dims.y` for a well-formed grid.
    pub fn len(&self) -> (n: usize)
        ensures
            n == self.cells@.len(),
    {
        self.cells.len()
    }

    /// Recomputes every cell's position from its grid coordinates for the
    /// given viewport, touching nothing else; invoked whenever the viewport
    /// resizes, in any mode.
    #[verifier::loop_isolation(false)]
    pub fn realign(&mut self, vp: &Viewport)
        requires
            old(self).wf(),
            vp.wf(),
        ensures
            final(self).wf(),
            realigned(*old(self), *final(self), *vp),
    {
        let n: usize = self.cells.len();
        let dims = self.dims;
        for i in 0..n
            invariant
                self.cells@.len() == n,
                self.dims == dims,
                self.max_brightness == old(self).max_brightness,
                forall|j: int| #![trigger self.cells@[j]] 0 <= j < i ==> {
                    &&& self.cells@[j] == (Particle {
                        pos_x2: self.cells@[j].pos_x2,
                        pos_y2: self.cells@[j].pos_y2,
                        ..old(self).cells@[j]
                    })
                    &&& self.cells@[j].pos_x2 == world_x2(*vp, dims, self.cells@[j].x as int)
                    &&& self.cells@[j].pos_y2 == world_y2(*vp, dims, self.cells@[j].y as int)
                },
                forall|j: int| #![trigger self.cells@[j]] i <= j < n
                    ==> self.cells@[j] == old(self).cells@[j],
        {
            proof {
                vstd::arithmetic::div_mod::lemma_mod_division_less_than_divisor(
                    i as int, dims.x as int);
                vstd::arithmetic::div_mod::lemma_multiply_divide_lt(
                    i as int, dims.x as int, dims.y as int);
            }
            let mut c = self.cells[i];
            let (px, py) = cell_to_world(c.x, c.y, vp, &dims);
            c.pos_x2 = px;
            c.pos_y2 = py;
            self.cells.set(i, c);
        }
    }
}

/// `g` is `old_g` with every cell moved to its layout position for viewport
/// `vp` and nothing else touched.
pub open spec fn realigned(old_g: ParticleGrid, g: ParticleGrid, vp: Viewport) -> bool {
    &&& g.dims == old_g.dims
    &&& g.max_brightness == old_g.max_brightness
    &&& g.cells@.len() == old_g.cells@.len()
    &&& forall|i: int| #![trigger g.cells@[i]] 0 <= i < g.cells@.len()
        ==> g.cells@[i] == (Particle {
            pos_x2: g.cells@[i].pos_x2,
            pos_y2: g.cells@[i].pos_y2,
            ..old_g.cells@[i]
        })
    &&& g.grid_aligned(vp)
}

/// The grid holds exactly one cell per `(gx, gy)` pair: coordinates are in
/// range, and no two distinct cells share a pair.
pub proof fn lemma_cells_unique(g: ParticleGrid)
    requires
        g.wf(),
    ensures
        forall|i: int| #![trigger g.cells@[i]] 0 <= i < g.cells@.len() ==> {
            &&& g.cells@[i].x < g.dims.x
            &&& g.cells@[i].y < g.dims.y
        },
        forall|i: int, j: int| #![trigger g.cells@[i], g.cells@[j]]
            0 <= i < g.cells@.len() && 0 <= j < g.cells@.len() && i != j
            ==> !(g.cells@[i].x == g.cells@[j].x && g.cells@[i].y == g.cells@[j].y),
{
    let w = g.dims.x as int;
    let h = g.dims.y as int;
    assert forall|i: int| 0 <= i < g.cells@.len()
        implies #[trigger] g.cells@[i].x < g.dims.x && g.cells@[i].y < g.dims.y by {
        vstd::arithmetic::div_mod::lemma_mod_division_less_than_divisor(i, w);
        assert(i < w * h);
        vstd::arithmetic::div_mod::lemma_multiply_divide_lt(i, w, h);
    }
    assert forall|i: int, j: int|
        0 <= i < g.cells@.len() && 0 <= j < g.cells@.len() && i != j
        implies !(#[trigger] g.cells@[i].x == #[trigger] g.cells@[j].x
            && g.cells@[i].y == g.cells@[j].y) by {
        vstd::arithmetic::div_mod::lemma_fundamental_div_mod(i, w);
        vstd::arithmetic::div_mod::lemma_fundamental_div_mod(j, w);
        assert(i == w * (i / w) + i % w);
        assert(j == w * (j / w) + j % w);
        if g.cells@[i].x == g.cells@[j].x && g.cells@[i].y == g.cells@[j].y {
            assert(i % w == j % w);
            assert(i / w == j / w);
            assert(w * (i / w) == w * (j / w));
            assert(false);
        }
    }
}

} // verus!
