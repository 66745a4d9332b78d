//! Level geometry and collision toolkit for a 2D grid dungeon.
//!
//! The crate turns a rectangular grid of wall/free/void cells into solid
//! axis-aligned collision rectangles, tests axis-aligned boxes against each
//! other with a separating-axis contact test that yields a minimum-translation
//! vector, and classifies every grid cell into a decorative tile variant for
//! rendering.
//!
//! World coordinates are exact fixed-point numbers: `i64` counts of
//! `1 / geometry::SCALE` of a world unit, so every geometric statement in the
//! contracts is exact integer arithmetic.

pub mod camera;
pub mod collision;
pub mod dungeon_tiles;
pub mod geometry;
pub mod input;
pub mod level;
pub mod player;
pub mod scene;
pub mod textures;
