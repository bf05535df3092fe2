use particle_grid::layout::{cell_to_world, GridSize, Viewport, MAX_VIEWPORT_DIM};

#[test]
fn cell_to_world_is_deterministic() {
    let vp = Viewport {
        width: 640,
        height: 480,
    };
    let dims = GridSize { x: 4, y: 4 };
    let first = cell_to_world(2, 1, &vp, &dims);
    let second = cell_to_world(2, 1, &vp, &dims);
    assert_eq!(first, second);
}

#[test]
fn corner_cells_are_symmetric_about_center() {
    let vp = Viewport {
        width: 640,
        height: 480,
    };
    let dims = GridSize { x: 4, y: 4 };
    // Cell (0,0): -3/8 of the width and height from the center, in half-units.
    assert_eq!(cell_to_world(0, 0, &vp, &dims), (-480, -360));
    assert_eq!(cell_to_world(3, 3, &vp, &dims), (480, 360));
    // An axis with an odd cell count has an exactly centered middle cell.
    let odd = GridSize { x: 5, y: 3 };
    let mid = cell_to_world(2, 1, &vp, &odd);
    assert_eq!(mid, (0, 0));
    let (x0, y0) = cell_to_world(0, 0, &vp, &odd);
    let (x4, y2) = cell_to_world(4, 2, &vp, &odd);
    assert_eq!(x0 + x4, 0);
    assert_eq!(y0 + y2, 0);
}

#[test]
fn layout_follows_cell_counts_that_do_not_divide() {
    // 112 cells across 640 units: positions still sum to zero pairwise.
    let vp = Viewport {
        width: 640,
        height: 480,
    };
    let dims = GridSize { x: 112, y: 60 };
    let (x0, y0) = cell_to_world(0, 0, &vp, &dims);
    let (x1, y1) = cell_to_world(111, 59, &vp, &dims);
    assert_eq!(x0 + x1, 0);
    assert_eq!(y0 + y1, 0);
    // (2*0+1-112)*640/112 = -634 (truncated toward zero).
    assert_eq!(x0, -634);
}

#[test]
fn resize_events_are_validated() {
    assert_eq!(
        Viewport::from_resize_event(800, 600),
        Some(Viewport {
            width: 800,
            height: 600,
        })
    );
    assert_eq!(Viewport::from_resize_event(0, 600), None);
    assert_eq!(Viewport::from_resize_event(800, -5), None);
    assert_eq!(
        Viewport::from_resize_event(MAX_VIEWPORT_DIM as i64 + 1, 600),
        None
    );
}

#[test]
fn grid_size_is_validated() {
    assert_eq!(GridSize::new(80, 60), Some(GridSize { x: 80, y: 60 }));
    assert_eq!(GridSize::new(0, 60), None);
    assert_eq!(GridSize::new(80, 5000), None);
}
