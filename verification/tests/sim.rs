use particle_grid::color::RgbImage;
use particle_grid::grid::BodyMode;
use particle_grid::layout::{cell_to_world, GridSize, Viewport};
use particle_grid::physics::{VelocityPolicy, FIXED_HORIZONTAL_SPEED};
use particle_grid::sim::Simulation;

fn new_sim() -> Simulation {
    Simulation::new(
        GridSize { x: 4, y: 4 },
        Viewport {
            width: 640,
            height: 480,
        },
        VelocityPolicy::FixedHorizontal,
    )
}

#[test]
fn resize_recomputes_boundaries_and_layout() {
    let mut sim = new_sim();
    // A floor half-extent in half-units is the full span in viewport units.
    assert_eq!(sim.boundaries.floor.half_w_x2, 640);
    assert_eq!(sim.boundaries.floor.center_y2, -520);
    assert_eq!(sim.boundaries.left_wall.center_x2, -680);
    assert_eq!(sim.boundaries.right_wall.center_x2, 680);

    sim.frame(Some((800, 600)), false, None);

    assert_eq!(
        sim.viewport,
        Viewport {
            width: 800,
            height: 600,
        }
    );
    assert_eq!(sim.boundaries.floor.half_w_x2, 800);
    assert_eq!(sim.boundaries.floor.center_y2, -640);
    assert_eq!(sim.boundaries.left_wall.center_x2, -840);
    assert_eq!(sim.boundaries.right_wall.center_x2, 840);
    let dims = sim.grid.dims;
    let vp = sim.viewport;
    for c in &sim.grid.cells {
        // Positions follow the new layout; no cell changed mode.
        assert_eq!((c.pos_x2, c.pos_y2), cell_to_world(c.x, c.y, &vp, &dims));
        assert_eq!(c.mode, BodyMode::Static);
    }
}

#[test]
fn invalid_resize_is_rejected() {
    let mut sim = new_sim();
    sim.frame(Some((0, -3)), false, None);
    assert_eq!(
        sim.viewport,
        Viewport {
            width: 640,
            height: 480,
        }
    );
    assert_eq!(sim.boundaries.floor.half_w_x2, 640);
}

#[test]
fn press_and_release_cycle() {
    let mut sim = new_sim();

    sim.frame(None, true, None);
    for c in &sim.grid.cells {
        assert_eq!(c.mode, BodyMode::Dynamic);
        assert_eq!(c.vel_x, FIXED_HORIZONTAL_SPEED);
    }

    // Held: the grid freezes wherever the integrator left it.
    sim.set_cell_motion(3, 111, -222, 5, -5);
    sim.frame(None, true, None);
    assert_eq!(sim.grid.cells[3].pos_x2, 111);
    assert_eq!(sim.grid.cells[3].pos_y2, -222);
    assert_eq!(sim.grid.cells[3].mode, BodyMode::Dynamic);

    sim.frame(None, false, None);
    let dims = sim.grid.dims;
    let vp = sim.viewport;
    for c in &sim.grid.cells {
        assert_eq!(c.mode, BodyMode::Static);
        assert_eq!((c.vel_x, c.vel_y), (0, 0));
        assert_eq!((c.pos_x2, c.pos_y2), cell_to_world(c.x, c.y, &vp, &dims));
    }
}

#[test]
fn static_frames_refresh_from_the_image() {
    let mut sim = new_sim();
    // Source already at grid resolution: the downsample leaves it untouched.
    let mut pixels = Vec::new();
    for _ in 0..16 {
        pixels.extend_from_slice(&[128, 128, 128]);
    }
    let img = RgbImage {
        width: 4,
        height: 4,
        pixels,
    };
    sim.frame(None, false, Some(&img));
    assert_eq!(sim.grid.max_brightness, 384);
    for c in &sim.grid.cells {
        assert_eq!((c.red, c.green, c.blue), (128, 128, 128));
        assert_eq!(c.radius_x2, 120);
    }
}

#[test]
fn held_frames_do_not_refresh() {
    let mut sim = new_sim();
    let mut pixels = Vec::new();
    for _ in 0..16 {
        pixels.extend_from_slice(&[128, 128, 128]);
    }
    let img = RgbImage {
        width: 4,
        height: 4,
        pixels,
    };
    sim.frame(None, true, Some(&img));
    for c in &sim.grid.cells {
        assert_eq!(c.brightness, 0);
    }
}
