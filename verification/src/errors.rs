//! What can go wrong around the game.

use crate::game::turn::TurnError;
use crate::game::world::QueryError;
use crate::ui::text::{decimal, push_decimal};
use vstd::prelude::*;
use vstd::string::StringExecFns;

verus! {

/// `std::io::Error`, carried through as it came. Nothing is known of what
/// it holds.
#[verifier::external_type_specification]
#[verifier::external_body]
pub struct ExIoError(std::io::Error);

#[derive(Debug)]
pub enum AppError {
    /// The terminal could not be read or written.
    Io(std::io::Error),
    /// The event source failed, with what it said.
    EventError(String),
    /// The world is in a state that no turn can start from.
    StateError(String),
}

/// What a fault that stops a turn says of itself.
pub open spec fn turn_error_text(error: TurnError) -> Seq<char> {
    match error {
        TurnError::Player(QueryError::NotFound) => "the world has no player"@,
        TurnError::Player(QueryError::Ambiguous) => "the world has more than one player"@,
        TurnError::MindlessEnemy(enemy) => "enemy "@ + decimal(enemy.0 as nat) + " has no memory"@,
    }
}

impl AppError {
    /// What the error says of itself.
    pub open spec fn text(self) -> Seq<char> {
        match self {
            AppError::Io(_) => "I/O Error"@,
            AppError::EventError(what) => "Event Handling Error: "@ + what@,
            AppError::StateError(what) => "Game State Error: "@ + what@,
        }
    }

    /// See [`AppError::text`].
    pub fn message(&self) -> (message: String)
        ensures
            message@ == self.text(),
    {
        let mut message = String::new();
        match self {
            AppError::Io(_) => {
                message.append("I/O Error");
            },
            AppError::EventError(what) => {
                message.append("Event Handling Error: ");
                message.append(what.as_str());
            },
            AppError::StateError(what) => {
                message.append("Game State Error: ");
                message.append(what.as_str());
            },
        }
        assert(message@ =~= self.text());
        message
    }

    /// The state error for a fault that stops a turn.
    pub fn from_turn_error(error: TurnError) -> (wrapped: Self)
        ensures
            wrapped matches AppError::StateError(what) && what@ == turn_error_text(error),
    {
        let mut what = String::new();
        match error {
            TurnError::Player(QueryError::NotFound) => {
                what.append("the world has no player");
            },
            TurnError::Player(QueryError::Ambiguous) => {
                what.append("the world has more than one player");
            },
            TurnError::MindlessEnemy(enemy) => {
                what.append("enemy ");
                push_decimal(&mut what, enemy.0 as u64);
                what.append(" has no memory");
            },
        }
        assert(what@ =~= turn_error_text(error));
        AppError::StateError(what)
    }
}

impl From<std::io::Error> for AppError {
    fn from(error: std::io::Error) -> (wrapped: Self) {
        AppError::Io(error)
    }
}

impl vstd::std_specs::convert::FromSpecImpl<std::io::Error> for AppError {
    open spec fn obeys_from_spec() -> bool {
        true
    }

    open spec fn from_spec(error: std::io::Error) -> Self {
        AppError::Io(error)
    }
}

} // verus!
