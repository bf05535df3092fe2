use particle_grid::color::RgbImage;
use particle_grid::grid::{ParticleGrid, MIN_RADIUS_X2};
use particle_grid::layout::{GridSize, Viewport};
use particle_grid::sampler::{apply_sampled_image, draw_particles, resize_to_grid};

fn uniform_image(w: u32, h: u32, rgb: (u8, u8, u8)) -> RgbImage {
    let mut pixels = Vec::new();
    for _ in 0..w * h {
        pixels.push(rgb.0);
        pixels.push(rgb.1);
        pixels.push(rgb.2);
    }
    RgbImage {
        width: w,
        height: h,
        pixels,
    }
}

#[test]
fn uniform_gray_gives_every_cell_the_maximum_radius() {
    // Every cell's brightness equals the frame maximum, so every radius is
    // the full cell half-extent of the tighter axis: 480/4 = 120 half-units.
    let dims = GridSize { x: 4, y: 4 };
    let vp = Viewport {
        width: 640,
        height: 480,
    };
    let mut g = ParticleGrid::new(dims, &vp);
    let img = uniform_image(4, 4, (128, 128, 128));
    apply_sampled_image(&mut g, &img, &vp);
    assert_eq!(g.max_brightness, 384);
    for c in &g.cells {
        assert_eq!((c.red, c.green, c.blue), (128, 128, 128));
        assert_eq!(c.brightness, 384);
        assert_eq!(c.radius_x2, 120);
    }
}

#[test]
fn all_black_frame_normalizes_to_zero() {
    // A zero frame maximum must not divide by zero: every radius is the floor.
    let dims = GridSize { x: 4, y: 4 };
    let vp = Viewport {
        width: 640,
        height: 480,
    };
    let mut g = ParticleGrid::new(dims, &vp);
    let img = uniform_image(4, 4, (0, 0, 0));
    apply_sampled_image(&mut g, &img, &vp);
    assert_eq!(g.max_brightness, 0);
    for c in &g.cells {
        assert_eq!(c.brightness, 0);
        assert_eq!(c.radius_x2, MIN_RADIUS_X2);
    }
}

#[test]
fn sampling_inverts_the_vertical_axis() {
    // 2x2 image: top row red, bottom row blue.  Grid row 0 is the bottom,
    // so cells with y == 0 must pick up the blue image row.
    let dims = GridSize { x: 2, y: 2 };
    let vp = Viewport {
        width: 640,
        height: 480,
    };
    let mut g = ParticleGrid::new(dims, &vp);
    let img = RgbImage {
        width: 2,
        height: 2,
        pixels: vec![200, 0, 0, 200, 0, 0, 0, 0, 200, 0, 0, 200],
    };
    apply_sampled_image(&mut g, &img, &vp);
    for c in &g.cells {
        if c.y == 0 {
            assert_eq!((c.red, c.green, c.blue), (0, 0, 200));
        } else {
            assert_eq!((c.red, c.green, c.blue), (200, 0, 0));
        }
    }
}

#[test]
fn brightness_never_exceeds_the_frame_maximum() {
    let dims = GridSize { x: 2, y: 2 };
    let vp = Viewport {
        width: 640,
        height: 480,
    };
    let mut g = ParticleGrid::new(dims, &vp);
    let img = RgbImage {
        width: 2,
        height: 2,
        pixels: vec![10, 20, 30, 200, 200, 200, 0, 0, 0, 50, 60, 70],
    };
    apply_sampled_image(&mut g, &img, &vp);
    assert_eq!(g.max_brightness, 600);
    for c in &g.cells {
        assert!(c.brightness <= g.max_brightness);
        assert!(c.radius_x2 >= MIN_RADIUS_X2);
    }
}

#[test]
fn resize_really_downsamples() {
    // 8x8 all-white source except one black pixel in the top-left corner.
    // The 2x2 downsample must average it away; a resize that handed the
    // source buffer back unchanged would leave the sampled corner black.
    let mut img = uniform_image(8, 8, (255, 255, 255));
    img.pixels[0] = 0;
    img.pixels[1] = 0;
    img.pixels[2] = 0;
    let dims = GridSize { x: 2, y: 2 };
    let small = resize_to_grid(&img, &dims);
    assert_eq!(small.width, 2);
    assert_eq!(small.height, 2);
    assert_eq!(small.pixels.len(), 12);
    // Top-left output pixel: overwhelmingly white neighbourhood.
    assert!(small.pixels[0] > 0);
}

#[test]
fn draw_refreshes_unless_the_trigger_is_held() {
    let dims = GridSize { x: 2, y: 2 };
    let vp = Viewport {
        width: 640,
        height: 480,
    };
    let mut g = ParticleGrid::new(dims, &vp);
    // Already at grid resolution, so the downsample leaves it untouched.
    let img = uniform_image(2, 2, (90, 90, 90));

    draw_particles(&mut g, &img, &vp, true);
    for c in &g.cells {
        assert_eq!(c.brightness, 0);
    }

    draw_particles(&mut g, &img, &vp, false);
    assert_eq!(g.max_brightness, 270);
    for c in &g.cells {
        assert_eq!((c.red, c.green, c.blue), (90, 90, 90));
        assert_eq!(c.brightness, 270);
    }
}
