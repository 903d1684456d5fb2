//! Core data model of a voxel-crafting game: a fixed-size voxel chunk with
//! bounds-checked access, a deterministic per-biome chunk generator, a block
//! catalog of behavioural flags, a multi-block recipe matcher, the
//! block-breaking state machine, and the player inventory.
//!
//! Presentation (rendering, physics, audio, input) is out of scope: the
//! functions here compute decisions over plain values, and a host application
//! performs the effects.

pub mod actions;
pub mod blocks;
pub mod breaking;
pub mod catalog;
pub mod chunk;
pub mod direction;
pub mod hex;
pub mod inventory;
pub mod matcher;
pub mod recipes;
pub mod rng;
pub mod session;
pub mod seed;
pub mod worldgen;
