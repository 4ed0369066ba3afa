//! Plain records of things on the grid, as the journal and the standalone
//! actors use them.

use crate::game::ai::BasicMonsterAI;
use vstd::prelude::*;

verus! {

/// A place on the grid: column `x`, row `y`.
#[derive(Clone, Copy, PartialEq, Eq, Debug, Structural)]
pub struct EntityPosition {
    pub x: usize,
    pub y: usize,
}

impl EntityPosition {
    pub fn new(x: usize, y: usize) -> (position: Self)
        ensures
            position == (EntityPosition { x, y }),
    {
        Self { x, y }
    }
}

/// Something that stands on the grid and is drawn with a glyph.
#[derive(PartialEq, Eq, Debug)]
pub struct Entity {
    pub position: EntityPosition,
    pub symbol: String,
    pub name: String,
}

impl Clone for Entity {
    fn clone(&self) -> (copy: Self)
        ensures
            copy == *self,
    {
        Entity { position: self.position, symbol: self.symbol.clone(), name: self.name.clone() }
    }
}

/// The moods of a standalone enemy.
#[derive(Clone, Copy, PartialEq, Eq, Debug, Structural)]
pub enum AiState {
    Idle,
    Chasing,
    Attacking,
}

/// An enemy that carries its own behaviour with it.
#[derive(PartialEq, Eq, Debug)]
pub struct Enemy {
    pub position: EntityPosition,
    pub symbol: String,
    pub name: String,
    pub hp: i32,
    pub max_hp: i32,
    pub attack: i32,
    pub defense: i32,
    pub ai_behavior: BasicMonsterAI,
}

impl Clone for Enemy {
    fn clone(&self) -> (copy: Self)
        ensures
            copy == *self,
    {
        Self {
            position: self.position,
            symbol: self.symbol.clone(),
            name: self.name.clone(),
            hp: self.hp,
            max_hp: self.max_hp,
            attack: self.attack,
            defense: self.defense,
            ai_behavior: self.ai_behavior,
        }
    }
}

impl Enemy {
    /// An enemy at full health whose behaviour starts idle, with nothing
    /// seen yet.
    pub fn new(
        position: EntityPosition,
        name: &str,
        symbol: &str,
        hp: i32,
        attack: i32,
        defense: i32,
        fov_radius: i32,
    ) -> (enemy: Self)
        ensures
            enemy.position == position,
            enemy.name@ == name@,
            enemy.symbol@ == symbol@,
            enemy.hp == hp,
            enemy.max_hp == hp,
            enemy.attack == attack,
            enemy.defense == defense,
            enemy.ai_behavior == BasicMonsterAI::new_spec(fov_radius),
    {
        Self {
            position,
            name: name.to_owned(),
            symbol: symbol.to_owned(),
            hp,
            max_hp: hp,
            attack,
            defense,
            ai_behavior: BasicMonsterAI::new(fov_radius),
        }
    }
}

} // verus!
