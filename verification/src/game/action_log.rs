//! The records that the journal keeps.

use crate::game::entities::EntityPosition;
use vstd::prelude::*;

verus! {

/// One resolved event and the turn it belongs to.
#[derive(PartialEq, Eq, Debug)]
pub struct ActionLog {
    pub turn: u32,
    pub action_type: ActionType,
}

#[derive(PartialEq, Eq, Debug)]
pub enum ActionType {
    /// An actor moved onto this tile.
    Movement { position: EntityPosition },
    MonsterAttack { attacker_name: String, target_name: String, damage: usize },
}

impl Clone for ActionType {
    fn clone(&self) -> (copy: Self)
        ensures
            copy == *self,
    {
        match self {
            ActionType::Movement { position } => ActionType::Movement { position: *position },
            ActionType::MonsterAttack { attacker_name, target_name, damage } => {
                ActionType::MonsterAttack {
                    attacker_name: attacker_name.clone(),
                    target_name: target_name.clone(),
                    damage: *damage,
                }
            },
        }
    }
}

impl Clone for ActionLog {
    fn clone(&self) -> (copy: Self)
        ensures
            copy == *self,
    {
        ActionLog { turn: self.turn, action_type: self.action_type.clone() }
    }
}

impl ActionLog {
    pub fn new(turn: u32, action: ActionType) -> (log: Self)
        ensures
            log == (ActionLog { turn, action_type: action }),
    {
        Self { turn, action_type: action }
    }
}

} // verus!
