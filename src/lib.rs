//! Soft rectangular shadows turned into triangle meshes.
//!
//! All geometry is held in integer units: a position is a pair of `i64`
//! coordinates (y grows downward), a shadow's extrusion and a corner radius are
//! unsigned lengths in the same units, and a color is premultiplied RGBA with
//! one byte per channel.
use vstd::prelude::*;

pub mod color;
pub mod geometry;
pub mod mesh;
pub mod shadow;
pub mod tessellator;

pub use color::Color32;
pub use geometry::{Pos2, Rect, COORD_LIMIT};
pub use mesh::{Mesh, Vertex};
pub use shadow::Shadow;
pub use tessellator::fill_rounded_rect;

verus! {

} // verus!
