use particle_grid::grid::{BodyMode, ParticleGrid};
use particle_grid::layout::{cell_to_world, GridSize, Viewport};
use particle_grid::physics::{
    apply_random_velocity, make_particles_dynamic, reset_particle_position,
    PhysicsToggleController, TriggerEdge, VelocityPolicy, FIXED_HORIZONTAL_SPEED,
};

fn test_grid() -> (ParticleGrid, Viewport, GridSize) {
    let dims = GridSize { x: 4, y: 4 };
    let vp = Viewport {
        width: 640,
        height: 480,
    };
    (ParticleGrid::new(dims, &vp), vp, dims)
}

#[test]
fn controller_classifies_edges() {
    let mut c = PhysicsToggleController::new();
    assert_eq!(c.observe(true), TriggerEdge::Pressed);
    assert_eq!(c.observe(true), TriggerEdge::Held);
    assert_eq!(c.observe(false), TriggerEdge::Released);
    assert_eq!(c.observe(false), TriggerEdge::Idle);
    assert_eq!(c.observe(true), TriggerEdge::Pressed);
}

#[test]
fn pressed_trigger_makes_every_cell_dynamic_with_nonzero_velocity() {
    let (mut g, _, _) = test_grid();
    make_particles_dynamic(&mut g, TriggerEdge::Pressed);
    apply_random_velocity(&mut g, TriggerEdge::Pressed, VelocityPolicy::FixedHorizontal);
    assert_eq!(g.cells.len(), 16);
    for c in &g.cells {
        assert_eq!(c.mode, BodyMode::Dynamic);
        assert_eq!(c.vel_x, FIXED_HORIZONTAL_SPEED);
        assert_ne!(c.vel_x, 0);
        assert_eq!(c.vel_y, 0);
    }
}

#[test]
fn released_trigger_snaps_every_cell_back_to_the_grid() {
    let (mut g, vp, dims) = test_grid();
    make_particles_dynamic(&mut g, TriggerEdge::Pressed);
    apply_random_velocity(&mut g, TriggerEdge::Pressed, VelocityPolicy::FixedHorizontal);
    reset_particle_position(&mut g, TriggerEdge::Released, &vp);
    for c in &g.cells {
        assert_eq!(c.mode, BodyMode::Static);
        assert_eq!((c.vel_x, c.vel_y), (0, 0));
        assert_eq!((c.pos_x2, c.pos_y2), cell_to_world(c.x, c.y, &vp, &dims));
    }
}

#[test]
fn transitions_are_atomic_per_grid() {
    // After either whole-grid transition, no two cells disagree on the mode.
    let (mut g, vp, _) = test_grid();
    make_particles_dynamic(&mut g, TriggerEdge::Pressed);
    let first = g.cells[0].mode;
    assert!(g.cells.iter().all(|c| c.mode == first));
    reset_particle_position(&mut g, TriggerEdge::Released, &vp);
    let first = g.cells[0].mode;
    assert!(g.cells.iter().all(|c| c.mode == first));
}

#[test]
fn other_edges_leave_the_grid_alone() {
    let (mut g, vp, _) = test_grid();
    let before: Vec<_> = g.cells.clone();
    make_particles_dynamic(&mut g, TriggerEdge::Held);
    apply_random_velocity(&mut g, TriggerEdge::Idle, VelocityPolicy::FixedHorizontal);
    reset_particle_position(&mut g, TriggerEdge::Pressed, &vp);
    assert_eq!(g.cells, before);
}

#[test]
fn random_policy_stays_inside_its_range() {
    let (mut g, _, _) = test_grid();
    make_particles_dynamic(&mut g, TriggerEdge::Pressed);
    apply_random_velocity(
        &mut g,
        TriggerEdge::Pressed,
        VelocityPolicy::RandomHorizontal { lo: 5, hi: 10 },
    );
    for c in &g.cells {
        assert!((5..=10).contains(&c.vel_x));
        assert_ne!(c.vel_x, 0);
        assert_eq!(c.vel_y, 0);
    }
}
