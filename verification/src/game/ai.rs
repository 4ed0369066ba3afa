//! How an enemy decides what to do next.
//!
//! An enemy looks first: the player is in view when it stands no further
//! than the enemy's radius away along each axis. An enemy that sees the
//! player chases it, striking when adjacent and stepping closer otherwise;
//! one that does not is idle and wanders at random. Nothing is carried over
//! from a turn in which the player was seen to one in which it is not.

pub use crate::game::components::AiState;
use crate::game::components::{BasicAi, Position};
use crate::game::entities::EntityPosition;
use crate::game::rng::random_range;
use crate::input::handlers::Direction;
use vstd::prelude::*;

verus! {

/// How far apart two coordinates are.
pub open spec fn axis_distance(a: int, b: int) -> int {
    if a >= b {
        a - b
    } else {
        b - a
    }
}

/// The Chebyshev distance of `(ax, ay)` and `(bx, by)`: the larger of the
/// two axis distances.
pub open spec fn chebyshev_distance(ax: int, ay: int, bx: int, by: int) -> int {
    if axis_distance(ax, bx) >= axis_distance(ay, by) {
        axis_distance(ax, bx)
    } else {
        axis_distance(ay, by)
    }
}

/// Whether `(bx, by)` is in view from `(ax, ay)` with the given radius: both
/// axis distances are at most the radius. There is no occlusion.
pub open spec fn in_view(ax: int, ay: int, bx: int, by: int, radius: int) -> bool {
    axis_distance(ax, bx) <= radius && axis_distance(ay, by) <= radius
}

/// Whether the two places are the same or one of the eight neighbours of
/// each other.
pub open spec fn adjacent(ax: int, ay: int, bx: int, by: int) -> bool {
    in_view(ax, ay, bx, by, 1)
}

/// The step that brings `(cx, cy)` closer to `(tx, ty)`: along the axis with
/// the larger distance, the vertical one when both are equal, and none when
/// the two places are the same.
pub open spec fn chase_step(cx: int, cy: int, tx: int, ty: int) -> Option<Direction> {
    if axis_distance(tx, cx) > axis_distance(ty, cy) {
        if tx > cx {
            Some(Direction::Right)
        } else {
            Some(Direction::Left)
        }
    } else if ty > cy {
        Some(Direction::Down)
    } else if ty < cy {
        Some(Direction::Up)
    } else {
        None
    }
}

/// The number of outcomes of an idle enemy's roll.
pub const IDLE_CHOICES: usize = 5;

/// The step that an idle enemy takes on a roll: one of the four directions
/// for 0 to 3, and none for every other roll.
pub open spec fn idle_step(roll: int) -> Option<Direction> {
    if roll == 0 {
        Some(Direction::Left)
    } else if roll == 1 {
        Some(Direction::Right)
    } else if roll == 2 {
        Some(Direction::Up)
    } else if roll == 3 {
        Some(Direction::Down)
    } else {
        None
    }
}

/// What an enemy wants to do in a turn.
#[derive(Clone, Copy, PartialEq, Eq, Debug, Structural)]
pub enum Intent {
    Wait,
    Move(Direction),
    /// Strike the player.
    Attack,
}

pub open spec fn intent_of_step(step: Option<Direction>) -> Intent {
    match step {
        Some(direction) => Intent::Move(direction),
        None => Intent::Wait,
    }
}

/// What a chasing enemy at `(cx, cy)` wants when it knows the player to be
/// at `(tx, ty)`.
pub open spec fn chase_intent(cx: int, cy: int, tx: int, ty: int) -> Intent {
    if adjacent(cx, cy, tx, ty) {
        Intent::Attack
    } else {
        intent_of_step(chase_step(cx, cy, tx, ty))
    }
}

/// The view reaches exactly as far as the radius: a target at a Chebyshev
/// distance equal to the radius is seen, one a step further is not. Seeing
/// is also mutual for equal radii.
pub proof fn lemma_view_reaches_the_radius(ax: int, ay: int, bx: int, by: int, radius: int)
    ensures
        in_view(ax, ay, bx, by, radius) <==> chebyshev_distance(ax, ay, bx, by) <= radius,
        chebyshev_distance(ax, ay, bx, by) == radius ==> in_view(ax, ay, bx, by, radius),
        chebyshev_distance(ax, ay, bx, by) == radius + 1 ==> !in_view(ax, ay, bx, by, radius),
        in_view(ax, ay, bx, by, radius) == in_view(bx, by, ax, ay, radius),
{
}

/// An enemy sees the player exactly up to its radius, and chases exactly
/// when it sees: at a Chebyshev distance equal to the radius the player is
/// seen, one step further it is not.
pub proof fn lemma_enemy_sees_up_to_its_radius(ai: BasicAi, own: Position, player: Position)
    ensures
        ai.looked(own, player).target_visible <==> chebyshev_distance(
            own.x as int,
            own.y as int,
            player.x as int,
            player.y as int,
        ) <= ai.fov_radius,
        ai.looked(own, player).target_visible <==> ai.looked(own, player).state
            == AiState::Chasing,
        chebyshev_distance(own.x as int, own.y as int, player.x as int, player.y as int)
            == ai.fov_radius ==> ai.looked(own, player).target_visible,
        chebyshev_distance(own.x as int, own.y as int, player.x as int, player.y as int)
            == ai.fov_radius + 1 ==> !ai.looked(own, player).target_visible,
        ai.looked(own, player).fov_radius == ai.fov_radius,
{
}

/// A chasing step brings the chaser one closer along the axis it moves on,
/// and there is one whenever the target is elsewhere.
pub proof fn lemma_chase_step_closes_in(cx: int, cy: int, tx: int, ty: int)
    ensures
        chase_step(cx, cy, tx, ty) is None <==> (cx == tx && cy == ty),
        chase_step(cx, cy, tx, ty) == Some(Direction::Right) ==> axis_distance(tx, cx + 1)
            == axis_distance(tx, cx) - 1,
        chase_step(cx, cy, tx, ty) == Some(Direction::Left) ==> axis_distance(tx, cx - 1)
            == axis_distance(tx, cx) - 1,
        chase_step(cx, cy, tx, ty) == Some(Direction::Down) ==> axis_distance(ty, cy + 1)
            == axis_distance(ty, cy) - 1,
        chase_step(cx, cy, tx, ty) == Some(Direction::Up) ==> axis_distance(ty, cy - 1)
            == axis_distance(ty, cy) - 1,
{
}

/// See [`axis_distance`].
pub fn distance(a: usize, b: usize) -> (d: usize)
    ensures
        d == axis_distance(a as int, b as int),
{
    if a >= b {
        a - b
    } else {
        b - a
    }
}

/// See [`in_view`].
pub fn within_view(ax: usize, ay: usize, bx: usize, by: usize, radius: usize) -> (seen: bool)
    ensures
        seen == in_view(ax as int, ay as int, bx as int, by as int, radius as int),
{
    distance(ax, bx) <= radius && distance(ay, by) <= radius
}

/// See [`chase_step`].
pub fn chase_direction(cx: usize, cy: usize, tx: usize, ty: usize) -> (step: Option<Direction>)
    ensures
        step == chase_step(cx as int, cy as int, tx as int, ty as int),
{
    if distance(tx, cx) > distance(ty, cy) {
        if tx > cx {
            Some(Direction::Right)
        } else {
            Some(Direction::Left)
        }
    } else if ty > cy {
        Some(Direction::Down)
    } else if ty < cy {
        Some(Direction::Up)
    } else {
        None
    }
}

/// See [`idle_step`].
pub fn idle_direction(roll: usize) -> (step: Option<Direction>)
    ensures
        step == idle_step(roll as int),
{
    match roll {
        0 => Some(Direction::Left),
        1 => Some(Direction::Right),
        2 => Some(Direction::Up),
        3 => Some(Direction::Down),
        _ => None,
    }
}

impl BasicAi {
    /// An enemy's memory before its first look.
    pub open spec fn new_spec(fov_radius: u32) -> Self {
        BasicAi {
            state: AiState::Idle,
            target_visible: false,
            last_known_player_pos: None,
            fov_radius,
        }
    }

    pub fn new(fov_radius: u32) -> (ai: Self)
        ensures
            ai == Self::new_spec(fov_radius),
    {
        BasicAi {
            state: AiState::Idle,
            target_visible: false,
            last_known_player_pos: None,
            fov_radius,
        }
    }

    /// Whether an enemy with this memory, standing at `own`, sees `player`.
    pub open spec fn sees(self, own: Position, player: Position) -> bool {
        in_view(own.x as int, own.y as int, player.x as int, player.y as int, self.fov_radius as int)
    }

    /// The memory after a look from `own` at a player standing at `player`.
    /// Seeing the player records where it is and starts the chase; not
    /// seeing it ends the chase at once and leaves the recorded place alone.
    pub open spec fn looked(self, own: Position, player: Position) -> Self {
        if self.sees(own, player) {
            BasicAi {
                state: AiState::Chasing,
                target_visible: true,
                last_known_player_pos: Some(player),
                fov_radius: self.fov_radius,
            }
        } else {
            BasicAi { state: AiState::Idle, target_visible: false, ..self }
        }
    }

    /// What an enemy with this memory, standing at `own`, wants. `roll`
    /// counts only when the enemy is idle.
    pub open spec fn wish(self, own: Position, roll: int) -> Intent {
        match self.state {
            AiState::Idle => intent_of_step(idle_step(roll)),
            AiState::Chasing => match self.last_known_player_pos {
                Some(target) => chase_intent(
                    own.x as int,
                    own.y as int,
                    target.x as int,
                    target.y as int,
                ),
                None => Intent::Wait,
            },
        }
    }

    /// One decision: look, remember, and say what is wanted. `roll` is the
    /// number that an idle enemy wanders by.
    pub fn decide(&mut self, own: Position, player: Position, roll: usize) -> (intent: Intent)
        ensures
            *final(self) == old(self).looked(own, player),
            intent == final(self).wish(own, roll as int),
    {
        let seen = within_view(own.x, own.y, player.x, player.y, self.fov_radius as usize);
        if seen {
            self.state = AiState::Chasing;
            self.target_visible = true;
            self.last_known_player_pos = Some(player);
        } else {
            self.state = AiState::Idle;
            self.target_visible = false;
        }
        match self.state {
            AiState::Idle => match idle_direction(roll) {
                Some(direction) => Intent::Move(direction),
                None => Intent::Wait,
            },
            AiState::Chasing => match self.last_known_player_pos {
                Some(target) => {
                    if within_view(own.x, own.y, target.x, target.y, 1) {
                        Intent::Attack
                    } else {
                        match chase_direction(own.x, own.y, target.x, target.y) {
                            Some(direction) => Intent::Move(direction),
                            None => Intent::Wait,
                        }
                    }
                },
                None => Intent::Wait,
            },
        }
    }
}

/// What a standalone monster's behaviour can ask for.
#[derive(Clone, Copy, PartialEq, Eq, Debug, Structural)]
pub enum AiAction {
    Wait,
    MoveTo(EntityPosition),
    /// Strike the actor with this number; the player is number 0.
    Attack(usize),
}

/// A behaviour that a standalone enemy can carry.
pub trait AiBehavior {
    /// Decides what the enemy at `current_pos` does, given where the player
    /// stands. The position is not on the last column or row that a `usize`
    /// can name, so that a step away from it can be written down.
    fn decide_next_action(&mut self, current_pos: &EntityPosition, player_pos: &EntityPosition) -> (action:
        AiAction)
        requires
            current_pos.x < usize::MAX,
            current_pos.y < usize::MAX,
    ;
}

/// What a standalone monster remembers from one turn to the next.
#[derive(Clone, Copy, PartialEq, Eq, Debug, Structural)]
pub struct BasicMonsterAI {
    pub state: AiState,
    /// Whether the player was in view when the monster last looked.
    pub target_visible: bool,
    pub last_known_player_pos: Option<EntityPosition>,
    /// A negative radius sees nothing.
    pub fov_radius: i32,
}

/// The place one step from `(x, y)`. A step off the grid's low edge stays
/// where it is.
pub open spec fn stepped(x: int, y: int, direction: Direction) -> (int, int) {
    match direction {
        Direction::Left => (if x > 0 { x - 1 } else { 0 }, y),
        Direction::Right => (x + 1, y),
        Direction::Up => (x, if y > 0 { y - 1 } else { 0 }),
        Direction::Down => (x, y + 1),
    }
}

/// The place one step from `current`.
pub open spec fn step_target(current: EntityPosition, direction: Direction) -> EntityPosition {
    let to = stepped(current.x as int, current.y as int, direction);
    EntityPosition { x: to.0 as usize, y: to.1 as usize }
}

/// The place one step from `current` towards `target`, or `current` itself
/// when the two are the same.
pub open spec fn moved_towards(current: EntityPosition, target: EntityPosition) -> EntityPosition {
    match chase_step(current.x as int, current.y as int, target.x as int, target.y as int) {
        Some(direction) => step_target(current, direction),
        None => current,
    }
}

/// What an idle monster at `current` does on a roll: a step in one of the
/// four directions for 0 to 3, and nothing for every other roll.
pub open spec fn idle_action_spec(current: EntityPosition, roll: int) -> AiAction {
    match idle_step(roll) {
        Some(direction) => AiAction::MoveTo(step_target(current, direction)),
        None => AiAction::Wait,
    }
}

/// What a chasing monster at `current` does when it knows the player to be
/// at `target`: strike when adjacent, step closer otherwise.
pub open spec fn chase_action_spec(current: EntityPosition, target: EntityPosition) -> AiAction {
    if adjacent(current.x as int, current.y as int, target.x as int, target.y as int) {
        AiAction::Attack(0)
    } else {
        AiAction::MoveTo(moved_towards(current, target))
    }
}

/// The place one step from `current`, for a step that stays within what a
/// `usize` can name.
fn step_from(current: &EntityPosition, direction: Direction) -> (to: EntityPosition)
    requires
        direction == Direction::Right ==> current.x < usize::MAX,
        direction == Direction::Down ==> current.y < usize::MAX,
    ensures
        to == step_target(*current, direction),
{
    match direction {
        Direction::Left => EntityPosition::new(current.x.saturating_sub(1), current.y),
        Direction::Right => EntityPosition::new(current.x + 1, current.y),
        Direction::Up => EntityPosition::new(current.x, current.y.saturating_sub(1)),
        Direction::Down => EntityPosition::new(current.x, current.y + 1),
    }
}

/// See [`idle_action_spec`].
pub fn idle_action(current_pos: &EntityPosition, roll: usize) -> (action: AiAction)
    requires
        current_pos.x < usize::MAX,
        current_pos.y < usize::MAX,
    ensures
        action == idle_action_spec(*current_pos, roll as int),
{
    match idle_direction(roll) {
        Some(direction) => AiAction::MoveTo(step_from(current_pos, direction)),
        None => AiAction::Wait,
    }
}

impl BasicMonsterAI {
    pub open spec fn new_spec(fov_radius: i32) -> Self {
        BasicMonsterAI {
            state: AiState::Idle,
            target_visible: false,
            last_known_player_pos: None,
            fov_radius,
        }
    }

    pub fn new(fov_radius: i32) -> (ai: Self)
        ensures
            ai == Self::new_spec(fov_radius),
    {
        Self { state: AiState::Idle, target_visible: false, last_known_player_pos: None, fov_radius }
    }

    /// Whether a monster with this memory, standing at `own`, sees `player`.
    pub open spec fn sees(self, own: EntityPosition, player: EntityPosition) -> bool {
        in_view(own.x as int, own.y as int, player.x as int, player.y as int, self.fov_radius as int)
    }

    /// The memory after a look from `own` at a player standing at `player`.
    pub open spec fn looked(self, own: EntityPosition, player: EntityPosition) -> Self {
        if self.sees(own, player) {
            BasicMonsterAI {
                state: AiState::Chasing,
                target_visible: true,
                last_known_player_pos: Some(player),
                fov_radius: self.fov_radius,
            }
        } else {
            BasicMonsterAI { state: AiState::Idle, target_visible: false, ..self }
        }
    }

    pub fn is_player_in_fov(&self, self_pos: &EntityPosition, player_pos: &EntityPosition) -> (seen:
        bool)
        ensures
            seen == self.sees(*self_pos, *player_pos),
    {
        if self.fov_radius < 0 {
            return false;
        }
        within_view(self_pos.x, self_pos.y, player_pos.x, player_pos.y, self.fov_radius as usize)
    }

    /// One step from `current_pos` towards `target_pos`, or `current_pos`
    /// itself when the two are the same.
    pub fn move_towards(&self, current_pos: &EntityPosition, target_pos: &EntityPosition) -> (next:
        EntityPosition)
        ensures
            next == moved_towards(*current_pos, *target_pos),
    {
        match chase_direction(current_pos.x, current_pos.y, target_pos.x, target_pos.y) {
            Some(direction) => step_from(current_pos, direction),
            None => *current_pos,
        }
    }
}

impl AiBehavior for BasicMonsterAI {
    /// Looks, remembers, and decides. A monster that sees the player
    /// strikes or steps closer. One that does not draws a number below
    /// [`IDLE_CHOICES`] from the thread's random source and wanders by it:
    /// the action is what [`idle_action_spec`] gives for one such number.
    fn decide_next_action(&mut self, current_pos: &EntityPosition, player_pos: &EntityPosition) -> (action:
        AiAction)
        ensures
            *final(self) == old(self).looked(*current_pos, *player_pos),
            final(self).target_visible ==> action == chase_action_spec(*current_pos, *player_pos),
            !final(self).target_visible ==> exists|roll: int|
                0 <= roll < IDLE_CHOICES && action == #[trigger] idle_action_spec(*current_pos, roll),
    {
        self.target_visible = self.is_player_in_fov(current_pos, player_pos);
        if self.target_visible {
            self.state = AiState::Chasing;
            self.last_known_player_pos = Some(*player_pos);
        } else {
            self.state = AiState::Idle;
        }
        match self.state {
            AiState::Idle => {
                let mut generator = rand::rng();
                let roll = random_range(&mut generator, 0, IDLE_CHOICES);
                idle_action(current_pos, roll)
            },
            AiState::Chasing => {
                if within_view(current_pos.x, current_pos.y, player_pos.x, player_pos.y, 1) {
                    AiAction::Attack(0)
                } else {
                    AiAction::MoveTo(self.move_towards(current_pos, player_pos))
                }
            },
        }
    }
}

} // verus!
