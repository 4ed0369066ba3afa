//! The lookup tables from a key to an action of the menu or of the game.

use vstd::prelude::*;

verus! {

/// What the main menu can be asked to do.
#[derive(Clone, Copy, PartialEq, Eq, Debug, Structural)]
pub enum MenuAction {
    NavigateUp,
    NavigateDown,
    Select,
    Quit,
}

/// What the game screen can be asked to do.
#[derive(Clone, Copy, PartialEq, Eq, Debug, Structural)]
pub enum GameAction {
    MovePlayer(Direction),
    OpenInventory,
    OpenMenu,
    Quit,
}

/// One of the four steps on the grid. `Up` is towards row 0, `Left` towards
/// column 0.
#[derive(Clone, Copy, PartialEq, Eq, Debug, Structural)]
pub enum Direction {
    Up,
    Down,
    Left,
    Right,
}

/// The keys that the tables know, and `Other` for the rest.
#[derive(Clone, Copy, PartialEq, Eq, Debug, Structural)]
pub enum KeyCode {
    Up,
    Down,
    Left,
    Right,
    Enter,
    Esc,
    Char(char),
    Other,
}

/// A key press, as the terminal layer hands it over.
#[derive(Clone, Copy, PartialEq, Eq, Debug, Structural)]
pub struct KeyEvent {
    pub code: KeyCode,
}

/// The menu's table: arrows navigate, Enter selects, `q` quits.
pub open spec fn menu_action_of(code: KeyCode) -> Option<MenuAction> {
    match code {
        KeyCode::Up => Some(MenuAction::NavigateUp),
        KeyCode::Down => Some(MenuAction::NavigateDown),
        KeyCode::Enter => Some(MenuAction::Select),
        KeyCode::Char(c) => if c == 'q' {
            Some(MenuAction::Quit)
        } else {
            None
        },
        _ => None,
    }
}

/// The direction that a key moves the player in, if it is a movement key:
/// the arrows, or `w`, `s`, `a`, `d`.
pub open spec fn direction_of(code: KeyCode) -> Option<Direction> {
    match code {
        KeyCode::Up => Some(Direction::Up),
        KeyCode::Down => Some(Direction::Down),
        KeyCode::Left => Some(Direction::Left),
        KeyCode::Right => Some(Direction::Right),
        KeyCode::Char(c) => if c == 'w' {
            Some(Direction::Up)
        } else if c == 's' {
            Some(Direction::Down)
        } else if c == 'a' {
            Some(Direction::Left)
        } else if c == 'd' {
            Some(Direction::Right)
        } else {
            None
        },
        _ => None,
    }
}

/// The game's table: Esc opens the menu, `q` quits, a movement key moves
/// the player, and no other key is an action.
pub open spec fn game_action_of(code: KeyCode) -> Option<GameAction> {
    if code == KeyCode::Esc {
        Some(GameAction::OpenMenu)
    } else if code == KeyCode::Char('q') {
        Some(GameAction::Quit)
    } else {
        match direction_of(code) {
            Some(direction) => Some(GameAction::MovePlayer(direction)),
            None => None,
        }
    }
}

pub fn handle_menu_input(key: KeyEvent) -> (action: Option<MenuAction>)
    ensures
        action == menu_action_of(key.code),
{
    match key.code {
        KeyCode::Up => Some(MenuAction::NavigateUp),
        KeyCode::Down => Some(MenuAction::NavigateDown),
        KeyCode::Enter => Some(MenuAction::Select),
        KeyCode::Char('q') => Some(MenuAction::Quit),
        _ => None,
    }
}

pub fn handle_game_input(key: KeyEvent) -> (action: Option<GameAction>)
    ensures
        action == game_action_of(key.code),
{
    match key.code {
        KeyCode::Esc => Some(GameAction::OpenMenu),
        KeyCode::Char('q') => Some(GameAction::Quit),
        KeyCode::Up | KeyCode::Char('w') => Some(GameAction::MovePlayer(Direction::Up)),
        KeyCode::Down | KeyCode::Char('s') => Some(GameAction::MovePlayer(Direction::Down)),
        KeyCode::Left | KeyCode::Char('a') => Some(GameAction::MovePlayer(Direction::Left)),
        KeyCode::Right | KeyCode::Char('d') => Some(GameAction::MovePlayer(Direction::Right)),
        _ => None,
    }
}

} // verus!
