//! A small Pong-style simulation core: exact integer geometry, an entity
//! store, and the per-frame pipeline of motion, collision detection,
//! velocity resolution and projection.
//!
//! Positions, velocities and shapes are whole pixels. Collision tests run on
//! the half-pixel grid (every coordinate doubled), so that half a shape is
//! always an exact extent and no rounding enters a comparison.
pub mod collision;
pub mod entity;
pub mod geometry;
pub mod world;
