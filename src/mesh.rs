use vstd::prelude::*;

use crate::color::Color32;
use crate::geometry::{Pos2, Rect};

verus! {

/// A mesh vertex: a position and the color at it.
#[derive(Clone, Copy, Debug, PartialEq, Eq, Structural)]
pub struct Vertex {
    pub pos: Pos2,
    pub color: Color32,
}

/// Triangles over a vertex buffer: each consecutive three indices form one.
#[derive(Clone, Debug, PartialEq, Eq)]
pub struct Mesh {
    pub indices: Vec<u32>,
    pub vertices: Vec<Vertex>,
}

/// The bounding box of the positions in `vs` is exactly `rect`: every one
/// lies in it, and each of its four sides is reached.
pub open spec fn bounds_are(vs: Seq<Vertex>, rect: Rect) -> bool {
    &&& forall|t: int| 0 <= t < vs.len() ==> rect.spec_contains(#[trigger] vs[t].pos)
    &&& exists|t: int| 0 <= t < vs.len() && (#[trigger] vs[t]).pos.x == rect.min.x
    &&& exists|t: int| 0 <= t < vs.len() && (#[trigger] vs[t]).pos.y == rect.min.y
    &&& exists|t: int| 0 <= t < vs.len() && (#[trigger] vs[t]).pos.x == rect.max.x
    &&& exists|t: int| 0 <= t < vs.len() && (#[trigger] vs[t]).pos.y == rect.max.y
}

impl Mesh {
    /// Every index names a vertex, and the indices come in whole triangles.
    pub open spec fn wf(&self) -> bool {
        &&& self.indices@.len() % 3 == 0
        &&& forall|t: int|
            0 <= t < self.indices@.len() ==> (#[trigger] self.indices@[t] as int) < self.vertices@.len()
    }

    pub open spec fn spec_triangle_count(&self) -> int {
        self.indices@.len() as int / 3
    }

    /// An empty mesh.
    pub fn new() -> (m: Mesh)
        ensures
            m.indices@.len() == 0,
            m.vertices@.len() == 0,
            m.wf(),
    {
        Mesh { indices: Vec::new(), vertices: Vec::new() }
    }

    pub fn is_empty(&self) -> (b: bool)
        ensures
            b == (self.indices@.len() == 0 && self.vertices@.len() == 0),
    {
        self.indices.len() == 0 && self.vertices.len() == 0
    }

    /// Number of whole triangles.
    pub fn triangle_count(&self) -> (n: usize)
        ensures
            n == self.spec_triangle_count(),
    {
        self.indices.len() / 3
    }
}

impl Default for Mesh {
    fn default() -> (m: Mesh)
        ensures
            m.indices@.len() == 0,
            m.vertices@.len() == 0,
    {
        Mesh::new()
    }
}

} // verus!
