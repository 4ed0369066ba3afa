//! Turn resolution engine of a terminal dungeon crawl.
//!
//! The world is a store of positioned actors, one player and several
//! enemies, on a static grid of tiles. A turn is resolved by a fixed pipeline
//! of stages, and every stage carries a contract over the views of the data
//! it reads and writes.

pub mod app;
pub mod errors;
pub mod game;
pub mod input;
pub mod ui;
