//! A generator of planetary terrain.
//!
//! A world is a grid of cells on a cylinder. From a seed the generator draws
//! the layout of the continents and the centres of the octaves of a noise
//! field, and from these it gives every cell an altitude, a rainfall, a
//! temperature and the biomes that go with them. The same seed gives the same
//! world.
//!
//! All quantities are fixed-point numbers: integers that count millionths.
//! Every function states what it computes, and the statements are proved,
//! but for those of the few operations that call the `rand` and `bevy`
//! crates: what `random` says of a draw and what `neighbors` says of its hash
//! map is stated as their documentation has it, and trusted.

pub mod altitude;
pub mod biome;
pub mod continents;
pub mod elementary;
pub mod extrema;
pub mod fixed;
pub mod generation;
pub mod human_group;
pub mod math_util;
pub mod neighbors;
pub mod noise;
pub mod rainfall;
pub mod random;
pub mod restore;
pub mod save;
pub mod temperature;
pub mod terrain_cell;
pub mod topology;
pub mod vector;
pub mod view_state;
pub mod world;

pub use crate::biome::{BiomeStats, BiomeType};
pub use crate::continents::Continent;
pub use crate::fixed::{mix_values, ONE};
pub use crate::human_group::HumanGroup;
pub use crate::math_util::{
    cartesian_coordinates, random_point_in_sphere, CartesianError, RepeatNum,
};
pub use crate::neighbors::{CompassDirection, Neighbors};
pub use crate::terrain_cell::TerrainCell;
pub use crate::vector::{Vec2, Vec3};
pub use crate::world::{Recipe, World, WorldGenError};
