//! The standalone player, who walks the map on its own.

use crate::game::entities::EntityPosition;
use crate::game::map::{GameMap, GameMapView};
use crate::input::handlers::Direction;
use vstd::prelude::*;

verus! {

#[derive(PartialEq, Eq, Debug)]
pub struct Player {
    pub name: String,
    pub position: EntityPosition,
    pub hp: u32,
    pub max_hp: u32,
    pub attack: u32,
    pub defense: u32,
    pub level: u32,
    pub exp: u32,
}

impl Clone for Player {
    fn clone(&self) -> (copy: Self)
        ensures
            copy == *self,
    {
        Player {
            name: self.name.clone(),
            position: self.position,
            hp: self.hp,
            max_hp: self.max_hp,
            attack: self.attack,
            defense: self.defense,
            level: self.level,
            exp: self.exp,
        }
    }
}

/// The tile one step from `from`, as a pair of column and row. It may lie
/// off the grid, below 0 too.
pub open spec fn neighbour(from: EntityPosition, direction: Direction) -> (int, int) {
    match direction {
        Direction::Up => (from.x as int, from.y - 1),
        Direction::Down => (from.x as int, from.y + 1),
        Direction::Left => (from.x - 1, from.y as int),
        Direction::Right => (from.x + 1, from.y as int),
    }
}

impl Player {
    /// A player of the first level at full health, at column 10 of row 10.
    pub fn new(name: &str, hp: u32, attack: u32, defense: u32) -> (player: Self)
        ensures
            player.name@ == name@,
            player.position == (EntityPosition { x: 10, y: 10 }),
            player.hp == hp,
            player.max_hp == hp,
            player.attack == attack,
            player.defense == defense,
            player.level == 1,
            player.exp == 0,
    {
        Self {
            name: name.to_owned(),
            position: EntityPosition::new(10, 10),
            hp,
            max_hp: hp,
            attack,
            defense,
            level: 1,
            exp: 0,
        }
    }

    /// Whether a step in `direction` can be taken on `map`: the tile it
    /// leads to lies inside the grid and is no wall.
    pub open spec fn can_step(self, map: GameMapView, direction: Direction) -> bool {
        map.passable(neighbour(self.position, direction).0, neighbour(self.position, direction).1)
    }

    /// The player after a try to step in `direction`: one tile on where the
    /// step can be taken, and unchanged where it cannot.
    pub open spec fn stepped(self, map: GameMapView, direction: Direction) -> Self {
        if self.can_step(map, direction) {
            Player {
                position: EntityPosition {
                    x: neighbour(self.position, direction).0 as usize,
                    y: neighbour(self.position, direction).1 as usize,
                },
                ..self
            }
        } else {
            self
        }
    }

    pub fn move_up(&mut self, map: &GameMap) -> (moved: bool)
        requires
            map.wf(),
        ensures
            moved == old(self).can_step(map@, Direction::Up),
            *final(self) == old(self).stepped(map@, Direction::Up),
    {
        if self.position.y > 0 && !map.is_wall(self.position.x, self.position.y - 1) {
            self.position.y -= 1;
            true
        } else {
            false
        }
    }

    pub fn move_down(&mut self, map: &GameMap) -> (moved: bool)
        requires
            map.wf(),
        ensures
            moved == old(self).can_step(map@, Direction::Down),
            *final(self) == old(self).stepped(map@, Direction::Down),
    {
        if self.position.y < usize::MAX && !map.is_wall(self.position.x, self.position.y + 1) {
            self.position.y += 1;
            true
        } else {
            false
        }
    }

    pub fn move_left(&mut self, map: &GameMap) -> (moved: bool)
        requires
            map.wf(),
        ensures
            moved == old(self).can_step(map@, Direction::Left),
            *final(self) == old(self).stepped(map@, Direction::Left),
    {
        if self.position.x > 0 && !map.is_wall(self.position.x - 1, self.position.y) {
            self.position.x -= 1;
            true
        } else {
            false
        }
    }

    pub fn move_right(&mut self, map: &GameMap) -> (moved: bool)
        requires
            map.wf(),
        ensures
            moved == old(self).can_step(map@, Direction::Right),
            *final(self) == old(self).stepped(map@, Direction::Right),
    {
        if self.position.x < usize::MAX && !map.is_wall(self.position.x + 1, self.position.y) {
            self.position.x += 1;
            true
        } else {
            false
        }
    }
}

} // verus!
