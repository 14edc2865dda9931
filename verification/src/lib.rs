//! A grid-based raycasting renderer for character-cell terminals.
//!
//! World geometry is carried in saturating fixed-point coordinates
//! (millionths of a world unit), so every computation here is exact
//! integer arithmetic with a stated contract: closed-form per-cell ray
//! casting, angle normalization, a digital line rasterizer, and a
//! double-buffered renderer that diffs two frames and hands back only
//! the changed byte runs for the output device to write.

pub mod fixed;
pub mod geometry;
pub mod game;
pub mod grid;
pub mod renderer;
