//! What the screens need from the engine, computed and left undrawn.

pub mod app_log;
pub mod map;
pub mod style;
pub mod text;
