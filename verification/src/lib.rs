//! A software 3D rendering pipeline over fixed-point arithmetic.
//!
//! Every stage from vertex transform to per-pixel color runs on the host:
//! vertex transformation, triangle rasterization with perspective-correct
//! interpolation and depth testing, and a procedural surface-shading layer
//! (value noise, fractal Brownian motion, per-material color functions).
//!
//! All scalar quantities are Q32.32 fixed-point numbers held in `i64`
//! (see [`fx`]), so the whole pipeline is deterministic integer
//! arithmetic: no operation overflows, divides by zero, or produces a NaN.

pub mod framebuffer;
pub mod fx;
pub mod geom;
pub mod noise;
pub mod pipeline;
pub mod raster;
pub mod shaders;
pub mod uniforms;
pub mod vertex;
