//! The per-draw-call transform and state bundle.
//!
//! A `Uniforms` value is built by the caller before each `render_model`
//! call and stays immutable for its duration: the model, view, projection
//! and viewport matrices, the elapsed time, and the material tag that
//! selects the surface shader.

use vstd::prelude::*;
use crate::fx::FX_MIN;
use crate::geom::{M4, m4_ok};

verus! {

/// The closed set of surface materials; shading dispatches on this tag
/// exhaustively, one shader per variant.
#[derive(Clone, Copy, PartialEq, Eq, Structural, Debug)]
pub enum Material {
    Star,
    Rocky,
    GasGiant,
    Spaceship,
    Ice,
    Desert,
    Volcanic,
    Ocean,
    Purple,
    Ringed,
}

/// Per-draw-call transforms, elapsed time and material tag.
#[derive(Clone, Copy, PartialEq, Eq, Structural, Debug)]
pub struct Uniforms {
    pub model_matrix: M4,
    pub view_matrix: M4,
    pub projection_matrix: M4,
    pub viewport_matrix: M4,
    pub time: i64,
    pub material: Material,
}

/// Every matrix entry and the time are representable fixed-point values.
pub open spec fn uniforms_ok(u: Uniforms) -> bool {
    &&& m4_ok(u.model_matrix)
    &&& m4_ok(u.view_matrix)
    &&& m4_ok(u.projection_matrix)
    &&& m4_ok(u.viewport_matrix)
    &&& FX_MIN <= u.time
}

} // verus!
