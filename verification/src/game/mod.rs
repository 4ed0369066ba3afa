//! The world, its map, and the stages that resolve a turn.

pub mod action_log;
pub mod ai;
pub mod components;
pub mod entities;
pub mod map;
pub mod player;
pub mod rng;
pub mod state;
pub mod systems;
pub mod turn;
pub mod world;
