//! The rules of a dungeon crawler on a hexagonal map.
//!
//! The heart of the crate is the generation of the map from a seed:
//!
//! - `position`: hex coordinates, distances and directions;
//! - `domain`: the six colors and the domain of a cell;
//! - `grid`: the hexagonal grid of cells;
//! - `seed` and `rng`: the pseudo-random stream that every draw comes
//!   from, and the state it starts in for a seed;
//! - `collapse`: the engine that colors the grid;
//! - `pillars`: the entrance and the four pillars;
//! - `walk` and `paths`: the walks to the pillars and the rooms carved
//!   along them;
//! - `room`: what a room holds;
//! - `generate`: the whole pipeline, and what holds of its result.
//!
//! Around it stand the rules that the rest of the game needs: `actor` and
//! `combat` for the health of the actors and the teams of a fight,
//! `animation` for the frames of a sprite, and `database` for the versions
//! of the save file.

pub mod actor;
pub mod animation;
pub mod collapse;
pub mod combat;
pub mod database;
pub mod domain;
pub mod generate;
pub mod grid;
pub mod paths;
pub mod pillars;
pub mod position;
pub mod rng;
pub mod room;
pub mod seed;
pub mod walk;
