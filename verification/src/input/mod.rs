//! What the player asks for: keys, and the actions they stand for.

pub mod events;
pub mod handlers;
