//! The per-frame pipeline tying the components together.
//!
//! Each frame samples its inputs once — an optional resize event, the
//! trigger level, and an optional source image — and applies them in a fixed
//! order: boundaries and layout are recomputed on resize, then the trigger
//! edge is classified, then either the whole grid changes mode (on an edge)
//! or, in static mode, the visual state is refreshed from the image.  While
//! the trigger is held nothing is refreshed: the grid stays frozen wherever
//! the external physics integrator left it.

use vstd::prelude::*;
use crate::boundary::{Boundaries, boundaries_for};
use crate::color::RgbImage;
use crate::grid::{BodyMode, ParticleGrid};
use crate::layout::{GridSize, MAX_VIEWPORT_DIM, Viewport, world_x2, world_y2};
use crate::physics::{PhysicsToggleController, TriggerEdge, VelocityPolicy, edge_of,
    apply_random_velocity, make_particles_dynamic, reset_particle_position};
use crate::sampler::{cell_brightness, draw_particles, gaussian_resized, grid_max_brightness,
    radius_x2_for, sampled_channel};

verus! {

/// The whole simulated state: viewport, grid, barriers, the trigger state
/// machine and the entry-velocity policy.
pub struct Simulation {
    pub viewport: Viewport,
    pub grid: ParticleGrid,
    pub boundaries: Boundaries,
    pub controller: PhysicsToggleController,
    pub policy: VelocityPolicy,
}

impl Simulation {
    /// The mode every cell is in: dynamic exactly while the trigger is down.
    pub open spec fn mode(self) -> BodyMode {
        if self.controller.down {
            BodyMode::Dynamic
        } else {
            BodyMode::Static
        }
    }

    /// All components are well formed and consistent with each other: the
    /// barriers match the viewport, every cell is in the mode the trigger
    /// level dictates, and in static mode every cell sits exactly on its
    /// grid position.
    pub open spec fn wf(self) -> bool {
        &&& self.viewport.wf()
        &&& self.grid.wf()
        &&& self.policy.wf()
        &&& self.boundaries == boundaries_for(self.viewport)
        &&& self.grid.uniform_mode(self.mode())
        &&& !self.controller.down ==> self.grid.grid_aligned(self.viewport)
    }

    /// Builds the initial state: a freshly laid-out static grid, barriers
    /// for the starting viewport, and a released trigger.
    pub fn new(dims: GridSize, vp: Viewport, policy: VelocityPolicy) -> (s: Simulation)
        requires
            dims.wf(),
            vp.wf(),
            policy.wf(),
        ensures
            s.wf(),
            s.viewport == vp,
            s.grid.dims == dims,
            s.policy == policy,
            !s.controller.down,
            s.mode() == BodyMode::Static,
    {
        let grid = ParticleGrid::new(dims, &vp);
        let boundaries = Boundaries::recompute(&vp);
        let controller = PhysicsToggleController::new();
        Simulation { viewport: vp, grid, boundaries, controller, policy }
    }

    /// Lets the external physics integrator write back the position of one
    /// cell; only meaningful — and only allowed — while the grid is dynamic.
    pub fn set_cell_motion(&mut self, i: usize, pos_x2: i64, pos_y2: i64, vel_x: i64, vel_y: i64)
        requires
            old(self).wf(),
            old(self).controller.down,
            i < old(self).grid.cells@.len(),
        ensures
            final(self).wf(),
            final(self).viewport == old(self).viewport,
            final(self).boundaries == old(self).boundaries,
            final(self).controller == old(self).controller,
            final(self).policy == old(self).policy,
            final(self).grid.dims == old(self).grid.dims,
            final(self).grid.max_brightness == old(self).grid.max_brightness,
            final(self).grid.cells@ == old(self).grid.cells@.update(i as int,
                (crate::grid::Particle {
                    pos_x2,
                    pos_y2,
                    vel_x,
                    vel_y,
                    ..old(self).grid.cells@[i as int]
                })),
    {
        let mut c = self.grid.cells[i];
        c.pos_x2 = pos_x2;
        c.pos_y2 = pos_y2;
        c.vel_x = vel_x;
        c.vel_y = vel_y;
        self.grid.cells.set(i, c);
        proof {
            assert forall|j: int| 0 <= j < self.grid.cells@.len()
                implies #[trigger] self.grid.cells@[j].x == j % (self.grid.dims.x as int)
                    && self.grid.cells@[j].y == j / (self.grid.dims.x as int)
                    && self.grid.cells@[j].radius_x2 >= crate::grid::MIN_RADIUS_X2
                    && self.grid.cells@[j].brightness <= self.grid.max_brightness
                    && self.grid.cells@[j].mode == old(self).mode() by {
                assert(old(self).grid.cells@[j].mode == old(self).mode());
            }
        }
    }
}

/// The viewport a frame ends with: a valid resize event replaces it, an
/// invalid or absent one leaves it alone.
pub open spec fn resized_viewport(vp: Viewport, resize: Option<(i64, i64)>) -> Viewport {
    match resize {
        Some((w, h)) => {
            if 1 <= w <= MAX_VIEWPORT_DIM && 1 <= h <= MAX_VIEWPORT_DIM {
                Viewport { width: w as u32, height: h as u32 }
            } else {
                vp
            }
        },
        None => vp,
    }
}

/// Whether a resize event is present and valid, so the layout was recomputed.
pub open spec fn resize_applied(resize: Option<(i64, i64)>) -> bool {
    match resize {
        Some((w, h)) => 1 <= w <= MAX_VIEWPORT_DIM && 1 <= h <= MAX_VIEWPORT_DIM,
        None => false,
    }
}

/// Pointwise outcome of one frame for every cell: identity never changes;
/// the mode follows the trigger edge; velocity is assigned on the rising
/// edge and zeroed on the falling edge; the position is recomputed from the
/// layout on the falling edge and on a resize; color, brightness and radius
/// are refreshed from the sampled buffer `pix` exactly when the frame
/// refreshed, and frozen otherwise.
pub open spec fn frame_cells(
    old_g: ParticleGrid,
    g: ParticleGrid,
    edge: TriggerEdge,
    resized: bool,
    refresh: bool,
    pix: Seq<u8>,
    vp: Viewport,
    policy: VelocityPolicy,
) -> bool {
    &&& g.dims == old_g.dims
    &&& g.cells@.len() == old_g.cells@.len()
    &&& g.max_brightness == if refresh {
        grid_max_brightness(pix, g.dims)
    } else {
        old_g.max_brightness as int
    }
    &&& forall|i: int| #![trigger g.cells@[i]] 0 <= i < g.cells@.len() ==> {
        let oc = old_g.cells@[i];
        let c = g.cells@[i];
        &&& c.x == oc.x
        &&& c.y == oc.y
        &&& c.mode == (match edge {
            TriggerEdge::Pressed => BodyMode::Dynamic,
            TriggerEdge::Released => BodyMode::Static,
            _ => oc.mode,
        })
        &&& (edge == TriggerEdge::Pressed ==> policy.admits(c.vel_x, c.vel_y))
        &&& (edge == TriggerEdge::Released ==> c.vel_x == 0 && c.vel_y == 0)
        &&& (edge != TriggerEdge::Pressed && edge != TriggerEdge::Released
            ==> c.vel_x == oc.vel_x && c.vel_y == oc.vel_y)
        &&& ((edge == TriggerEdge::Released || resized) ==> {
            &&& c.pos_x2 == world_x2(vp, g.dims, c.x as int)
            &&& c.pos_y2 == world_y2(vp, g.dims, c.y as int)
        })
        &&& (edge != TriggerEdge::Released && !resized
            ==> c.pos_x2 == oc.pos_x2 && c.pos_y2 == oc.pos_y2)
        &&& (refresh ==> {
            &&& c.red == sampled_channel(pix, g.dims, c.x as int, c.y as int, 0)
            &&& c.green == sampled_channel(pix, g.dims, c.x as int, c.y as int, 1)
            &&& c.blue == sampled_channel(pix, g.dims, c.x as int, c.y as int, 2)
            &&& c.brightness == cell_brightness(pix, g.dims, c.x as int, c.y as int)
            &&& c.radius_x2 == radius_x2_for(vp, g.dims, c.brightness as int,
                g.max_brightness as int)
        })
        &&& (!refresh ==> {
            &&& c.red == oc.red
            &&& c.green == oc.green
            &&& c.blue == oc.blue
            &&& c.brightness == oc.brightness
            &&& c.radius_x2 == oc.radius_x2
        })
    }
}

/// A frame refreshes the visual state exactly when the trigger is not down
/// this frame and a source image is present.
pub open spec fn frame_refreshes(edge: TriggerEdge, img: Option<&RgbImage>) -> bool {
    (edge == TriggerEdge::Released || edge == TriggerEdge::Idle) && img is Some
}

/// The grid-resolution buffer a frame samples from: the Gaussian
/// downsampling of the source image.
pub open spec fn frame_pix(img: Option<&RgbImage>, dims: GridSize) -> Seq<u8> {
    match img {
        Some(im) => gaussian_resized(im.pixels@, im.width as int, im.height as int,
            dims.x as int, dims.y as int),
        None => Seq::empty(),
    }
}

impl Simulation {
    /// Advances the simulation by one frame, in the fixed order: apply a
    /// valid resize (barriers and layout), classify the trigger edge, run
    /// the mode transition the edge calls for, and refresh the visual state
    /// from the image unless the trigger is down.
    pub fn frame(&mut self, resize: Option<(i64, i64)>, trigger_down: bool,
        img: Option<&RgbImage>)
        requires
            old(self).wf(),
            match img {
                Some(im) => im.wf(),
                None => true,
            },
        ensures
            final(self).wf(),
            final(self).policy == old(self).policy,
            final(self).controller.down == trigger_down,
            final(self).viewport == resized_viewport(old(self).viewport, resize),
            final(self).boundaries == boundaries_for(final(self).viewport),
            ({
                let edge = edge_of(old(self).controller.down, trigger_down);
                frame_cells(old(self).grid, final(self).grid, edge, resize_applied(resize),
                    frame_refreshes(edge, img), frame_pix(img, old(self).grid.dims),
                    final(self).viewport, old(self).policy)
            }),
    {
        if let Some((w, h)) = resize {
            if let Some(vp) = Viewport::from_resize_event(w, h) {
                self.viewport = vp;
                self.boundaries = Boundaries::recompute(&vp);
                self.grid.realign(&vp);
            }
        }
        let edge = self.controller.observe(trigger_down);
        match edge {
            TriggerEdge::Pressed => {
                make_particles_dynamic(&mut self.grid, edge);
                apply_random_velocity(&mut self.grid, edge, self.policy);
            },
            TriggerEdge::Released => {
                reset_particle_position(&mut self.grid, edge, &self.viewport);
                if let Some(im) = img {
                    draw_particles(&mut self.grid, im, &self.viewport, false);
                }
            },
            TriggerEdge::Held => {},
            TriggerEdge::Idle => {
                if let Some(im) = img {
                    draw_particles(&mut self.grid, im, &self.viewport, false);
                }
            },
        }
    }
}

} // verus!
