//! The three immobile barriers that fence the dynamic simulation: a floor
//! just below the bottom edge of the viewport and a wall just outside each
//! vertical edge, all sized to the current viewport and recomputed on every
//! resize.

use vstd::prelude::*;
use crate::layout::Viewport;

verus! {

/// Thickness margin of the barriers: 20 viewport units, in half-units.
pub const WALL_MARGIN_X2: i64 = 40;

/// One axis-aligned immobile barrier, described by the world coordinates of
/// its center and its half-extents, all in half-units.  A half-extent in
/// half-units is numerically the full extent in viewport units.
#[derive(Clone, Copy, PartialEq, Eq, Structural, Debug)]
pub struct Boundary {
    pub center_x2: i64,
    pub center_y2: i64,
    pub half_w_x2: i64,
    pub half_h_x2: i64,
}

/// The floor and the two walls for one viewport.
#[derive(Clone, Copy, PartialEq, Eq, Structural, Debug)]
pub struct Boundaries {
    pub floor: Boundary,
    pub left_wall: Boundary,
    pub right_wall: Boundary,
}

/// The barriers a viewport calls for: the floor spans the full viewport
/// width and sits with its top edge on the bottom edge of the viewport; each
/// wall spans the full viewport height and sits with its inner edge on a
/// vertical edge of the viewport.
pub open spec fn boundaries_for(vp: Viewport) -> Boundaries {
    Boundaries {
        floor: Boundary {
            center_x2: 0,
            center_y2: (-(vp.height + WALL_MARGIN_X2)) as i64,
            half_w_x2: vp.width as i64,
            half_h_x2: WALL_MARGIN_X2,
        },
        left_wall: Boundary {
            center_x2: (-(vp.width + WALL_MARGIN_X2)) as i64,
            center_y2: 0,
            half_w_x2: WALL_MARGIN_X2,
            half_h_x2: vp.height as i64,
        },
        right_wall: Boundary {
            center_x2: (vp.width + WALL_MARGIN_X2) as i64,
            center_y2: 0,
            half_w_x2: WALL_MARGIN_X2,
            half_h_x2: vp.height as i64,
        },
    }
}

impl Boundaries {
    /// Computes the barriers for the given viewport; called at startup and
    /// again on every resize, and a pure function of the viewport alone.
    pub fn recompute(vp: &Viewport) -> (b: Boundaries)
        requires
            vp.wf(),
        ensures
            b == boundaries_for(*vp),
    {
        let w: i64 = vp.width as i64;
        let h: i64 = vp.height as i64;
        Boundaries {
            floor: Boundary {
                center_x2: 0,
                center_y2: -(h + WALL_MARGIN_X2),
                half_w_x2: w,
                half_h_x2: WALL_MARGIN_X2,
            },
            left_wall: Boundary {
                center_x2: -(w + WALL_MARGIN_X2),
                center_y2: 0,
                half_w_x2: WALL_MARGIN_X2,
                half_h_x2: h,
            },
            right_wall: Boundary {
                center_x2: w + WALL_MARGIN_X2,
                center_y2: 0,
                half_w_x2: WALL_MARGIN_X2,
                half_h_x2: h,
            },
        }
    }
}

} // verus!
