//! The path-to-mesh core of a 2D drawing pipeline.
//!
//! - `mesh`: composable multi-channel meshes whose vertex channels always stay the same length.
//! - `vertex`: vertex types that attach a color, texture coordinates or a normal to a point.
//! - `events`: the canonical path event model, and the conversion of raw curve segments into it.
//! - `draw_mesh`: the drawing mesh and the builder that tessellators drive to extend it.
//! - `path`: path primitives buffered per frame and resolved for tessellation at render time.
//!
//! Points, colors and texture coordinates are generic: the library moves them around without
//! computing on them, so it works with any plain `Copy` representation.

pub mod draw_mesh;
pub mod events;
pub mod mesh;
pub mod path;
pub mod vertex;
