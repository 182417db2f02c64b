//! Deterministic world-generation and redstone core for a voxel game server.
//!
//! The crate provides the seeded pseudo-random generators that drive terrain
//! noise, the permutation tables of the Perlin samplers, the biome parameter
//! search tree, and the redstone signal-propagation engine, together with the
//! text-component and registry value types that the surrounding server shares
//! with its protocol layer.

pub mod biome;
pub mod blocks;
pub mod command;
pub mod digest;
pub mod item;
pub mod nbt;
pub mod octave;
pub mod perlin;
pub mod redstone;
pub mod registry;
pub mod rng;
pub mod strutil;
pub mod text;
pub mod wire;
pub mod world;
