//! The two-state machine that toggles the whole grid between the static and
//! the dynamic mode, and the transition effects.
//!
//! The trigger is a single key sampled once per frame; its rising edge sends
//! every cell into dynamic mode and injects the entry velocity, its falling
//! edge snaps every cell back to its grid position, immobile and at rest.
//! Both transitions run over the whole grid in one call, so no frame ever
//! observes mixed modes.

use vstd::prelude::*;
use crate::grid::{BodyMode, Particle, ParticleGrid};
use crate::layout::{Viewport, cell_to_world};

verus! {

/// What the trigger did this frame, derived from its level in the previous
/// and the current frame.
#[derive(Clone, Copy, PartialEq, Eq, Structural, Debug)]
pub enum TriggerEdge {
    /// Down this frame, up the frame before (rising edge).
    Pressed,
    /// Down this frame and the frame before.
    Held,
    /// Up this frame, down the frame before (falling edge).
    Released,
    /// Up this frame and the frame before.
    Idle,
}

/// Edge classification of two consecutive trigger levels.
pub open spec fn edge_of(prev: bool, now: bool) -> TriggerEdge {
    if now && !prev {
        TriggerEdge::Pressed
    } else if now {
        TriggerEdge::Held
    } else if prev {
        TriggerEdge::Released
    } else {
        TriggerEdge::Idle
    }
}

/// The state machine driving the mode transitions: it remembers the trigger
/// level of the previous frame and classifies each new level into an edge.
#[derive(Clone, Copy, PartialEq, Eq, Structural, Debug)]
pub struct PhysicsToggleController {
    /// Trigger level observed in the previous frame.
    pub down: bool,
}

impl PhysicsToggleController {
    /// The trigger starts released, matching the grid's initial static mode.
    pub fn new() -> (c: PhysicsToggleController)
        ensures
            !c.down,
    {
        PhysicsToggleController { down: false }
    }

    /// Samples the trigger level for this frame and returns the edge it
    /// makes with the previous frame's level.
    pub fn observe(&mut self, now: bool) -> (e: TriggerEdge)
        ensures
            final(self).down == now,
            e == edge_of(old(self).down, now),
    {
        let e = if now && !self.down {
            TriggerEdge::Pressed
        } else if now {
            TriggerEdge::Held
        } else if self.down {
            TriggerEdge::Released
        } else {
            TriggerEdge::Idle
        };
        self.down = now;
        e
    }
}

/// The one fixed extreme horizontal speed (in half-units per time step) that
/// the default entry policy assigns.
pub const FIXED_HORIZONTAL_SPEED: i64 = 100_000_000_000;

/// Velocity assigned to every cell on entering dynamic mode.  The same
/// policy is applied uniformly to all cells of one transition; the fixed
/// push is the deterministic default.
#[derive(Clone, Copy, PartialEq, Eq, Structural, Debug)]
pub enum VelocityPolicy {
    /// Every cell gets the fixed extreme horizontal push.
    FixedHorizontal,
    /// Every cell gets a horizontal speed drawn uniformly from `[lo, hi]`.
    RandomHorizontal { lo: i64, hi: i64 },
}

impl VelocityPolicy {
    /// A random range must be non-empty and strictly positive, so that every
    /// assigned velocity is non-zero.
    pub open spec fn wf(self) -> bool {
        match self {
            VelocityPolicy::FixedHorizontal => true,
            VelocityPolicy::RandomHorizontal { lo, hi } => 1 <= lo <= hi,
        }
    }

    /// Which velocities the policy may assign.
    pub open spec fn admits(self, vel_x: i64, vel_y: i64) -> bool {
        match self {
            VelocityPolicy::FixedHorizontal =>
                vel_x == FIXED_HORIZONTAL_SPEED && vel_y == 0,
            VelocityPolicy::RandomHorizontal { lo, hi } =>
                lo <= vel_x <= hi && vel_y == 0,
        }
    }
}

/// Whatever a well-formed policy assigns is never the zero vector: a freshly
/// triggered cell always starts moving.
pub proof fn lemma_assigned_velocity_nonzero(p: VelocityPolicy, vel_x: i64, vel_y: i64)
    requires
        p.wf(),
        p.admits(vel_x, vel_y),
    ensures
        vel_x != 0,
{
}

/// Relies on `rand::Rng::gen_range` over an inclusive range: it returns a
/// value inside the range, and panics only when the range is empty.
#[verifier::external_body]
fn random_in_range(lo: i64, hi: i64) -> (r: i64)
    requires
        lo <= hi,
    ensures
        lo <= r <= hi,
{
    rand::Rng::gen_range(&mut rand::thread_rng(), lo..=hi)
}

/// `g` is `old_g` with every cell's mode set to `m` and nothing else touched.
pub open spec fn modes_set(old_g: ParticleGrid, g: ParticleGrid, m: BodyMode) -> bool {
    &&& g.dims == old_g.dims
    &&& g.max_brightness == old_g.max_brightness
    &&& g.cells@.len() == old_g.cells@.len()
    &&& forall|i: int| #![trigger g.cells@[i]] 0 <= i < g.cells@.len()
        ==> g.cells@[i] == (Particle { mode: m, ..old_g.cells@[i] })
}

/// On the rising edge of the trigger, hands every cell to the physics
/// integrator in one batch; on any other edge the grid is untouched.  Either
/// way no frame can observe two cells in different modes because of this
/// call.
#[verifier::loop_isolation(false)]
pub fn make_particles_dynamic(grid: &mut ParticleGrid, edge: TriggerEdge)
    requires
        old(grid).wf(),
    ensures
        final(grid).wf(),
        edge != TriggerEdge::Pressed ==> *final(grid) == *old(grid),
        edge == TriggerEdge::Pressed ==> {
            &&& modes_set(*old(grid), *final(grid), BodyMode::Dynamic)
            &&& final(grid).uniform_mode(BodyMode::Dynamic)
        },
{
    if !matches!(edge, TriggerEdge::Pressed) {
        return;
    }
    let n: usize = grid.cells.len();
    for i in 0..n
        invariant
            grid.cells@.len() == n,
            grid.dims == old(grid).dims,
            grid.max_brightness == old(grid).max_brightness,
            forall|j: int| #![trigger grid.cells@[j]] 0 <= j < i
                ==> grid.cells@[j] == (Particle { mode: BodyMode::Dynamic, ..old(grid).cells@[j] }),
            forall|j: int| #![trigger grid.cells@[j]] i <= j < n
                ==> grid.cells@[j] == old(grid).cells@[j],
    {
        let mut c = grid.cells[i];
        c.mode = BodyMode::Dynamic;
        grid.cells.set(i, c);
    }
}

/// `g` is `old_g` with every cell's velocity replaced by one the policy
/// admits, and nothing else touched.
pub open spec fn velocities_assigned(old_g: ParticleGrid, g: ParticleGrid, p: VelocityPolicy)
    -> bool {
    &&& g.dims == old_g.dims
    &&& g.max_brightness == old_g.max_brightness
    &&& g.cells@.len() == old_g.cells@.len()
    &&& forall|i: int| #![trigger g.cells@[i]] 0 <= i < g.cells@.len() ==> {
        &&& g.cells@[i] == (Particle {
            vel_x: g.cells@[i].vel_x,
            vel_y: g.cells@[i].vel_y,
            ..old_g.cells@[i]
        })
        &&& p.admits(g.cells@[i].vel_x, g.cells@[i].vel_y)
    }
}

/// On the rising edge of the trigger, assigns every cell its entry velocity
/// under the given policy, uniformly across the grid; on any other edge the
/// grid is untouched.
#[verifier::loop_isolation(false)]
pub fn apply_random_velocity(grid: &mut ParticleGrid, edge: TriggerEdge, policy: VelocityPolicy)
    requires
        old(grid).wf(),
        policy.wf(),
    ensures
        final(grid).wf(),
        edge != TriggerEdge::Pressed ==> *final(grid) == *old(grid),
        edge == TriggerEdge::Pressed ==> velocities_assigned(*old(grid), *final(grid), policy),
{
    if !matches!(edge, TriggerEdge::Pressed) {
        return;
    }
    let n: usize = grid.cells.len();
    for i in 0..n
        invariant
            grid.cells@.len() == n,
            grid.dims == old(grid).dims,
            grid.max_brightness == old(grid).max_brightness,
            forall|j: int| #![trigger grid.cells@[j]] 0 <= j < i ==> {
                &&& grid.cells@[j] == (Particle {
                    vel_x: grid.cells@[j].vel_x,
                    vel_y: grid.cells@[j].vel_y,
                    ..old(grid).cells@[j]
                })
                &&& policy.admits(grid.cells@[j].vel_x, grid.cells@[j].vel_y)
            },
            forall|j: int| #![trigger grid.cells@[j]] i <= j < n
                ==> grid.cells@[j] == old(grid).cells@[j],
    {
        let mut c = grid.cells[i];
        let vx = match policy {
            VelocityPolicy::FixedHorizontal => FIXED_HORIZONTAL_SPEED,
            VelocityPolicy::RandomHorizontal { lo, hi } => random_in_range(lo, hi),
        };
        c.vel_x = vx;
        c.vel_y = 0;
        grid.cells.set(i, c);
    }
}

/// `g` is `old_g` with every cell snapped to its grid position for viewport
/// `vp`, at rest and immobile, and nothing else touched.
pub open spec fn snapped_to_grid(old_g: ParticleGrid, g: ParticleGrid, vp: Viewport) -> bool {
    &&& g.dims == old_g.dims
    &&& g.max_brightness == old_g.max_brightness
    &&& g.cells@.len() == old_g.cells@.len()
    &&& forall|i: int| #![trigger g.cells@[i]] 0 <= i < g.cells@.len()
        ==> g.cells@[i] == (Particle {
            mode: BodyMode::Static,
            pos_x2: g.cells@[i].pos_x2,
            pos_y2: g.cells@[i].pos_y2,
            vel_x: 0,
            vel_y: 0,
            ..old_g.cells@[i]
        })
    &&& g.grid_aligned(vp)
}

/// On the falling edge of the trigger, resets the whole grid in one atomic
/// batch: every cell's position becomes exactly its `cell_to_world` value
/// for the current viewport, its velocity becomes zero and its mode becomes
/// static.  On any other edge the grid is untouched.
#[verifier::loop_isolation(false)]
pub fn reset_particle_position(grid: &mut ParticleGrid, edge: TriggerEdge, vp: &Viewport)
    requires
        old(grid).wf(),
        vp.wf(),
    ensures
        final(grid).wf(),
        edge != TriggerEdge::Released ==> *final(grid) == *old(grid),
        edge == TriggerEdge::Released ==> {
            &&& snapped_to_grid(*old(grid), *final(grid), *vp)
            &&& final(grid).uniform_mode(BodyMode::Static)
        },
{
    if !matches!(edge, TriggerEdge::Released) {
        return;
    }
    let n: usize = grid.cells.len();
    let dims = grid.dims;
    for i in 0..n
        invariant
            grid.cells@.len() == n,
            grid.dims == dims,
            grid.max_brightness == old(grid).max_brightness,
            forall|j: int| #![trigger grid.cells@[j]] 0 <= j < i ==> {
                &&& grid.cells@[j] == (Particle {
                    mode: BodyMode::Static,
                    pos_x2: grid.cells@[j].pos_x2,
                    pos_y2: grid.cells@[j].pos_y2,
                    vel_x: 0,
                    vel_y: 0,
                    ..old(grid).cells@[j]
                })
                &&& grid.cells@[j].pos_x2
                    == crate::layout::world_x2(*vp, dims, grid.cells@[j].x as int)
                &&& grid.cells@[j].pos_y2
                    == crate::layout::world_y2(*vp, dims, grid.cells@[j].y as int)
            },
            forall|j: int| #![trigger grid.cells@[j]] i <= j < n
                ==> grid.cells@[j] == old(grid).cells@[j],
    {
        proof {
            vstd::arithmetic::div_mod::lemma_mod_division_less_than_divisor(
                i as int, dims.x as int);
            vstd::arithmetic::div_mod::lemma_multiply_divide_lt(
                i as int, dims.x as int, dims.y as int);
        }
        let mut c = grid.cells[i];
        let (px, py) = cell_to_world(c.x, c.y, vp, &dims);
        c.pos_x2 = px;
        c.pos_y2 = py;
        c.vel_x = 0;
        c.vel_y = 0;
        c.mode = BodyMode::Static;
        grid.cells.set(i, c);
    }
}

/// No two cells of a grid in a uniform mode ever report different modes:
/// transitions are atomic with respect to one frame.
pub proof fn lemma_no_mixed_modes(g: ParticleGrid, m: BodyMode)
    requires
        g.uniform_mode(m),
    ensures
        forall|i: int, j: int| #![trigger g.cells@[i].mode, g.cells@[j].mode]
            0 <= i < g.cells@.len() && 0 <= j < g.cells@.len()
            ==> g.cells@[i].mode == g.cells@[j].mode,
{
}

} // verus!
