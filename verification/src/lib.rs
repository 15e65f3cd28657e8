//! A 2D tile-grid autotiling core.
//!
//! Given a grid of terrain-typed cells, the library computes, for each cell,
//! which visual tile variant to render, from the terrain types of its eight
//! neighbors. Neighborhoods are encoded as nine-flag masks (eight compass
//! directions plus the center cell), rules pair a mask pattern with a tile
//! variant, and an ordered rule table is resolved with first-match-wins.

pub mod blob;
pub mod dirt_rules;
pub mod engine;
pub mod grass_rules;
pub mod ruleflag;
pub mod rules;
pub mod slots;
pub mod terrain_rules;
pub mod water_rules;
