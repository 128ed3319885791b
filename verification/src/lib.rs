//! A software rasterizer for triangulated 3D meshes.
//!
//! The pipeline transforms mesh vertices through view, projection and
//! viewport matrices, fills each projected triangle with perspective-correct
//! barycentric interpolation and a depth test, and shades the covered pixels
//! with one of three shading models (flat, cel, Gouraud). All arithmetic is
//! saturating fixed point, so every stage is a total function whose result is
//! pinned exactly by its contract.

pub mod buffer;
pub mod fx;
pub mod matrix;
pub mod render;
pub mod shader;
pub mod vector;
pub mod wavefront;
