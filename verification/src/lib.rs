//! A grid of image-driven particles.
//!
//! The library models a rectangular grid of cells whose color and size track
//! an input image, and which can be toggled between a static, grid-aligned
//! layout and a dynamic, physics-driven mode.  It covers the per-cell
//! sampling of image brightness, the layout math that centers the grid in a
//! viewport, the two-state machine that switches every cell between the two
//! modes at once, the rigid boundaries that fence the dynamic simulation,
//! and the conversion of a packed luma/chroma camera frame into RGB pixels.
//!
//! World coordinates are kept in *half-units*: an `i64` coordinate stands
//! for twice the value in viewport units, so that cell centers and boundary
//! positions stay integral.

pub mod boundary;
pub mod color;
pub mod grid;
pub mod layout;
pub mod physics;
pub mod sampler;
pub mod sim;
