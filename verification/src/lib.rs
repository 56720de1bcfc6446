//! Surface geometry for a voxel world.
//!
//! A world is a sparse grid of solid unit cubes, partitioned into fixed-size
//! chunks. For every solid cell the library decides which of its six faces
//! border empty space, and emits only those faces as triangulated geometry.
//! The host renderer is expected to upload each emitted mesh fragment at the
//! world-space placement that comes with it.

pub mod chunk;
pub mod mesh;
pub mod world;
