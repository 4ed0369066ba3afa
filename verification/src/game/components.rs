//! What an actor of the world is made of.

use crate::input::handlers::Direction;
use crate::ui::style::Color;
use vstd::prelude::*;

verus! {

/// A place on the grid: column `x`, row `y`.
#[derive(Clone, Copy, PartialEq, Eq, Debug, Structural)]
pub struct Position {
    pub x: usize,
    pub y: usize,
}

/// How an actor is drawn.
#[derive(PartialEq, Eq, Debug)]
pub struct Renderable {
    pub symbol: String,
    pub fg: Color,
    pub bg: Color,
}

#[derive(PartialEq, Eq, Debug)]
pub struct Name(pub String);

impl Clone for Renderable {
    fn clone(&self) -> (copy: Self)
        ensures
            copy == *self,
    {
        Renderable { symbol: self.symbol.clone(), fg: self.fg, bg: self.bg }
    }
}

impl Clone for Name {
    fn clone(&self) -> (copy: Self)
        ensures
            copy == *self,
    {
        Name(self.0.clone())
    }
}

#[derive(Clone, Copy, PartialEq, Eq, Debug, Structural)]
pub struct Health {
    pub hp: usize,
    pub max_hp: usize,
}

impl Health {
    /// Full health of `hp` points.
    pub fn new(hp: usize) -> (health: Self)
        ensures
            health == (Health { hp, max_hp: hp }),
    {
        Self { hp, max_hp: hp }
    }
}

#[derive(Clone, Copy, PartialEq, Eq, Debug, Structural)]
pub struct Stats {
    pub health: Health,
    pub attack: u32,
    pub defense: u32,
}

/// The mark of an actor that keeps its tile to itself.
#[derive(Clone, Copy, PartialEq, Eq, Debug, Structural)]
pub struct BlocksTile;

/// The identity of an actor: its place in the world's order of insertion.
#[derive(Clone, Copy, PartialEq, Eq, Debug, Structural)]
pub struct ActorId(pub usize);

#[derive(Clone, Copy, PartialEq, Eq, Debug, Structural)]
pub enum AiState {
    Idle,
    Chasing,
}

/// What an enemy remembers from one turn to the next.
#[derive(Clone, Copy, PartialEq, Eq, Debug, Structural)]
pub struct BasicAi {
    pub state: AiState,
    /// Whether the player was in view when the enemy last looked.
    pub target_visible: bool,
    pub last_known_player_pos: Option<Position>,
    pub fov_radius: u32,
}

/// The wish to take one step. It lives for one turn.
#[derive(Clone, Copy, PartialEq, Eq, Debug, Structural)]
pub struct WantsToMove {
    pub direction: Direction,
}

/// The wish to strike another actor. It lives for one turn.
#[derive(Clone, Copy, PartialEq, Eq, Debug, Structural)]
pub struct WantsToAttack {
    pub target: ActorId,
}

} // verus!
