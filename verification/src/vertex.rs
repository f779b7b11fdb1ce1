//! One mesh vertex, before and after transformation.
//!
//! The local attributes come from the mesh source; the transformed fields
//! are filled in afresh each frame by the vertex transform stage and read
//! by the rasterizer.

use vstd::prelude::*;
use crate::geom::{V2, V3, V4, v2_ok, v3_ok, v4_ok};

verus! {

/// A mesh vertex: local position, normal and texture coordinate, plus the
/// per-frame clip-space position and transformed normal.
#[derive(Clone, Copy, PartialEq, Eq, Structural, Debug)]
pub struct Vertex {
    pub position: V3,
    pub normal: V3,
    pub tex_coords: V2,
    pub transformed_position: V4,
    pub transformed_normal: V3,
}

/// Every component of every field is a representable fixed-point value.
pub open spec fn vertex_ok(v: Vertex) -> bool {
    &&& v3_ok(v.position)
    &&& v3_ok(v.normal)
    &&& v2_ok(v.tex_coords)
    &&& v4_ok(v.transformed_position)
    &&& v3_ok(v.transformed_normal)
}

impl Vertex {
    /// A fresh vertex with its local attributes; the transformed fields
    /// start at zero and are populated by the vertex transform stage.
    pub fn new(position: V3, normal: V3, tex_coords: V2) -> (r: Vertex)
        ensures
            r.position == position,
            r.normal == normal,
            r.tex_coords == tex_coords,
            r.transformed_position == (V4 { x: 0i64, y: 0i64, z: 0i64, w: 0i64 }),
            r.transformed_normal == (V3 { x: 0i64, y: 0i64, z: 0i64 }),
    {
        Vertex {
            position,
            normal,
            tex_coords,
            transformed_position: V4 { x: 0, y: 0, z: 0, w: 0 },
            transformed_normal: V3 { x: 0, y: 0, z: 0 },
        }
    }
}

} // verus!
