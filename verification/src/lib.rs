//! A small voxel-rendering core: cube geometry, mesh batching with
//! index offsets, name-keyed asset stores, and the pure decision logic
//! of a first-person game loop.
//!
//! Coordinates, normals and texture coordinates are exact fixed-point
//! numbers: an `i64` counts units of 1/256 (see [`fixed`]). The windowing,
//! GPU and floating-point camera code lives outside this crate and converts
//! at the boundary.

pub mod blockbuilder;
pub mod cube;
pub mod fixed;
pub mod game;
pub mod meshbuilder;
pub mod models;
pub mod scene;
pub mod shaders;
pub mod store;
pub mod textures;

pub use fixed::FIX_ONE;
