//! The stages of a turn, each a function from the world to the world.

use crate::game::action_log::{ActionLog, ActionType};
use crate::game::ai::{Intent, IDLE_CHOICES};
use crate::game::components::{ActorId, Position, WantsToAttack, WantsToMove};
use crate::game::entities::EntityPosition;
use crate::game::map::GameMapView;
use crate::game::world::{lemma_matching, single, Actor, ActorKind, Command, World, WorldView};
use crate::input::handlers::{Direction, GameAction};
use vstd::prelude::*;

verus! {

/// The input stage as a function: where the pending action is a move and
/// the world has its one player, the wish to move is queued for that
/// player. Every other case queues nothing.
pub open spec fn input_stage(w: WorldView) -> WorldView {
    match (single(w.actors, ActorKind::Player), w.input) {
        (Ok(player), Some(GameAction::MovePlayer(direction))) => WorldView {
            commands: w.commands.push(Command::InsertMove(player, WantsToMove { direction })),
            ..w
        },
        _ => w,
    }
}

/// The roll that belongs to the actor at `index`. Where `rolls` is too
/// short to hold one, the roll is one that lets an idle enemy stay put.
pub open spec fn roll_for(rolls: Seq<usize>, index: int) -> int {
    if 0 <= index < rolls.len() {
        rolls[index] as int
    } else {
        IDLE_CHOICES - 1
    }
}

/// An actor after the decision stage has come by, with the player standing
/// at `player`: an enemy with a memory has looked, and every other actor is
/// as it was.
pub open spec fn thought(actor: Actor, player: Position) -> Actor {
    match (actor.kind, actor.ai) {
        (ActorKind::Enemy, Some(ai)) => Actor { ai: Some(ai.looked(actor.position, player)), ..actor },
        _ => actor,
    }
}

/// What an actor wants once it has looked. Only an enemy with a memory
/// wants anything.
pub open spec fn wish_of(actor: Actor, player: Position, roll: int) -> Intent {
    match (actor.kind, actor.ai) {
        (ActorKind::Enemy, Some(ai)) => ai.looked(actor.position, player).wish(actor.position, roll),
        _ => Intent::Wait,
    }
}

/// The command that carries a wish of the actor `index` into the queue, if
/// the wish is one to act. An attack is aimed at `player`.
pub open spec fn command_of(index: int, player: ActorId, wish: Intent) -> Option<Command> {
    match wish {
        Intent::Wait => None,
        Intent::Move(direction) => Some(
            Command::InsertMove(ActorId(index as usize), WantsToMove { direction }),
        ),
        Intent::Attack => Some(
            Command::InsertAttack(ActorId(index as usize), WantsToAttack { target: player }),
        ),
    }
}

/// The commands that the first `count` actors queue in the decision stage,
/// in the order of the actors.
pub open spec fn wishes(actors: Seq<Actor>, player: ActorId, rolls: Seq<usize>, count: nat) -> Seq<
    Command,
>
    decreases count,
{
    if count == 0 {
        Seq::empty()
    } else {
        let index = count - 1;
        let before = wishes(actors, player, rolls, index as nat);
        let wish = wish_of(actors[index], actors[player.0 as int].position, roll_for(rolls, index));
        match command_of(index, player, wish) {
            Some(command) => before.push(command),
            None => before,
        }
    }
}

/// The decision stage as a function. Every enemy decides on the world as it
/// stood when the stage began: the player where it was, the enemy where it
/// was, and nothing of what another enemy decided. An enemy's memory is
/// rewritten by its own decision alone. A world without its one player is
/// left as it is.
pub open spec fn ai_stage(w: WorldView, rolls: Seq<usize>) -> WorldView {
    match single(w.actors, ActorKind::Player) {
        Ok(player) => WorldView {
            actors: Seq::new(
                w.actors.len(),
                |i: int| thought(w.actors[i], w.actors[player.0 as int].position),
            ),
            commands: w.commands + wishes(w.actors, player, rolls, w.actors.len()),
            ..w
        },
        Err(_) => w,
    }
}

/// The actors once a command has been carried out. A command for an actor
/// that does not exist does nothing.
pub open spec fn attached(actors: Seq<Actor>, command: Command) -> Seq<Actor> {
    match command {
        Command::InsertMove(actor, wish) => if actor.0 < actors.len() {
            actors.update(
                actor.0 as int,
                Actor { wants_to_move: Some(wish), ..actors[actor.0 as int] },
            )
        } else {
            actors
        },
        Command::InsertAttack(actor, wish) => if actor.0 < actors.len() {
            actors.update(
                actor.0 as int,
                Actor { wants_to_attack: Some(wish), ..actors[actor.0 as int] },
            )
        } else {
            actors
        },
    }
}

/// The actors once the first `count` commands have been carried out, in
/// the order of the queue.
pub open spec fn applied(actors: Seq<Actor>, commands: Seq<Command>, count: nat) -> Seq<Actor>
    decreases count,
{
    if count == 0 {
        actors
    } else {
        attached(applied(actors, commands, (count - 1) as nat), commands[count - 1])
    }
}

/// The barrier as a function: every queued command is carried out, and the
/// queue is empty.
pub open spec fn apply_stage(w: WorldView) -> WorldView {
    WorldView {
        actors: applied(w.actors, w.commands, w.commands.len()),
        commands: Seq::empty(),
        ..w
    }
}

/// The tile one step from `from`, as a pair of column and row. It may lie
/// off the grid, below 0 too.
pub open spec fn destination(from: Position, direction: Direction) -> (int, int) {
    match direction {
        Direction::Up => (from.x as int, from.y - 1),
        Direction::Down => (from.x as int, from.y + 1),
        Direction::Left => (from.x - 1, from.y as int),
        Direction::Right => (from.x + 1, from.y as int),
    }
}

/// Whether an actor keeps others off its tile: one that blocks its tile
/// does, and so does the player.
pub open spec fn holds_tile(actor: Actor) -> bool {
    actor.blocks_tile is Some || actor.kind == ActorKind::Player
}

/// Whether an actor other than `mover` holds the tile `(x, y)`.
pub open spec fn taken(actors: Seq<Actor>, mover: int, x: int, y: int) -> bool {
    exists|j: int|
        0 <= j < actors.len() && j != mover && holds_tile(#[trigger] actors[j])
            && actors[j].position.x == x && actors[j].position.y == y
}

/// Whether `mover` may step onto `(x, y)`: the tile lies inside the grid,
/// is no wall, and no other actor holds it.
pub open spec fn may_enter(actors: Seq<Actor>, map: GameMapView, mover: int, x: int, y: int) -> bool {
    map.passable(x, y) && !taken(actors, mover, x, y)
}

/// What the resolution stage rewrites: the actors and the journal.
#[verifier::ext_equal]
pub struct Board {
    pub actors: Seq<Actor>,
    pub journal: Seq<ActionLog>,
}

/// The board once the actor `index` has had its wish to move resolved, in
/// the turn numbered `turn`. A step onto a tile that it may enter is taken
/// and recorded. Any other step is dropped without a trace. The wish is gone
/// either way.
pub open spec fn moved(board: Board, map: GameMapView, turn: nat, index: int) -> Board {
    let actor = board.actors[index];
    match actor.wants_to_move {
        None => board,
        Some(wish) => {
            let to = destination(actor.position, wish.direction);
            if may_enter(board.actors, map, index, to.0, to.1) {
                Board {
                    actors: board.actors.update(
                        index,
                        Actor {
                            position: Position { x: to.0 as usize, y: to.1 as usize },
                            wants_to_move: None,
                            ..actor
                        },
                    ),
                    journal: board.journal.push(
                        ActionLog {
                            turn: turn as u32,
                            action_type: ActionType::Movement {
                                position: EntityPosition { x: to.0 as usize, y: to.1 as usize },
                            },
                        },
                    ),
                }
            } else {
                Board {
                    actors: board.actors.update(index, Actor { wants_to_move: None, ..actor }),
                    journal: board.journal,
                }
            }
        },
    }
}

/// The board once the actor `index` has had its wish to attack resolved, in
/// the turn numbered `turn`. The strike does no damage: it is recorded, by
/// the names of the two actors, and that is all. A strike at an actor that
/// does not exist is dropped without a trace. The wish is gone either way.
pub open spec fn struck(board: Board, turn: nat, index: int) -> Board {
    let actor = board.actors[index];
    match actor.wants_to_attack {
        None => board,
        Some(wish) => Board {
            actors: board.actors.update(index, Actor { wants_to_attack: None, ..actor }),
            journal: if wish.target.0 < board.actors.len() {
                board.journal.push(
                    ActionLog {
                        turn: turn as u32,
                        action_type: ActionType::MonsterAttack {
                            attacker_name: actor.name.0,
                            target_name: board.actors[wish.target.0 as int].name.0,
                            damage: 0,
                        },
                    },
                )
            } else {
                board.journal
            },
        },
    }
}

/// The board once the actor `index` has acted: first its wish to move, then
/// its wish to attack.
pub open spec fn resolved(board: Board, map: GameMapView, turn: nat, index: int) -> Board {
    struck(moved(board, map, turn, index), turn, index)
}

/// The board once the enemies among the first `count` actors have acted,
/// one after the other in the order of insertion. Each acts on the board
/// as the ones before it have left it.
pub open spec fn enemies_resolved(board: Board, map: GameMapView, turn: nat, count: nat) -> Board
    decreases count,
{
    if count == 0 {
        board
    } else {
        let before = enemies_resolved(board, map, turn, (count - 1) as nat);
        if before.actors[count - 1].kind == ActorKind::Enemy {
            resolved(before, map, turn, count - 1)
        } else {
            before
        }
    }
}

/// The board once everybody has acted: the player first, where the world
/// has its one player, then the enemies.
pub open spec fn all_resolved(board: Board, map: GameMapView, turn: nat) -> Board {
    let first = match single(board.actors, ActorKind::Player) {
        Ok(player) => resolved(board, map, turn, player.0 as int),
        Err(_) => board,
    };
    enemies_resolved(first, map, turn, first.actors.len())
}

/// The resolution stage as a function. What it records carries the number
/// that the turn counter will show once the turn has ended.
pub open spec fn movement_stage(w: WorldView) -> WorldView {
    let board = all_resolved(Board { actors: w.actors, journal: w.journal }, w.map, w.turn + 1);
    WorldView { actors: board.actors, journal: board.journal, ..w }
}

/// The end of the turn as a function: the counter goes up by one.
pub open spec fn turn_end_stage(w: WorldView) -> WorldView {
    WorldView { turn: w.turn + 1, ..w }
}

/// Consumes the pending action for the player: a move becomes a queued wish
/// to move. Nothing is attached before the barrier.
pub fn player_input_system(world: &mut World)
    ensures
        final(world)@ == input_stage(old(world)@),
{
    match (world.get_single(ActorKind::Player), world.input.0) {
        (Ok(player), Some(GameAction::MovePlayer(direction))) => {
            world.commands.push(Command::InsertMove(player, WantsToMove { direction }));
        },
        _ => {},
    }
}

/// Lets every enemy decide. `rolls` holds, for each actor by its place in
/// the world, the number that it wanders by should it be idle.
pub fn ai_system(world: &mut World, rolls: &Vec<usize>)
    ensures
        final(world)@ == ai_stage(old(world)@, rolls@),
{
    let player = match world.get_single(ActorKind::Player) {
        Ok(player) => player,
        Err(_) => {
            return ;
        },
    };
    let count = world.actors.len();
    proof {
        lemma_matching(world.actors@, ActorKind::Player);
    }
    let player_position = world.actors[player.0].position;
    let mut i: usize = 0;
    while i < count
        invariant
            i <= count,
            count == old(world).actors@.len(),
            world.actors@.len() == count,
            player.0 < count,
            player_position == old(world).actors@[player.0 as int].position,
            world.map == old(world).map,
            world.journal == old(world).journal,
            world.turn == old(world).turn,
            world.input == old(world).input,
            forall|j: int| 0 <= j < i ==> world.actors@[j] == thought(old(world).actors@[j], player_position),
            forall|j: int| i <= j < count ==> world.actors@[j] == old(world).actors@[j],
            world.commands@ == old(world).commands@ + wishes(
                old(world).actors@,
                player,
                rolls@,
                i as nat,
            ),
        decreases count - i,
    {
        let roll = if i < rolls.len() {
            rolls[i]
        } else {
            IDLE_CHOICES - 1
        };
        let position = world.actors[i].position;
        let enemy = matches!(world.actors[i].kind, ActorKind::Enemy);
        if enemy {
            match world.actors[i].ai {
                Some(mut ai) => {
                    let wish = ai.decide(position, player_position, roll);
                    world.actors[i].ai = Some(ai);
                    match wish {
                        Intent::Wait => {},
                        Intent::Move(direction) => {
                            world.commands.push(
                                Command::InsertMove(ActorId(i), WantsToMove { direction }),
                            );
                        },
                        Intent::Attack => {
                            world.commands.push(
                                Command::InsertAttack(ActorId(i), WantsToAttack { target: player }),
                            );
                        },
                    }
                },
                None => {},
            }
        }
        i += 1;
    }
}

/// Carries out every queued command, in the order of the queue, and leaves
/// the queue empty.
pub fn apply_deferred(world: &mut World)
    ensures
        final(world)@ == apply_stage(old(world)@),
{
    let count = world.commands.len();
    let mut done: usize = 0;
    while done < count
        invariant
            done <= count,
            count == world.commands@.len(),
            world.commands == old(world).commands,
            world.map == old(world).map,
            world.journal == old(world).journal,
            world.turn == old(world).turn,
            world.input == old(world).input,
            world.actors@ == applied(old(world).actors@, old(world).commands@, done as nat),
        decreases count - done,
    {
        match world.commands[done] {
            Command::InsertMove(actor, wish) => {
                if actor.0 < world.actors.len() {
                    world.actors[actor.0].wants_to_move = Some(wish);
                }
            },
            Command::InsertAttack(actor, wish) => {
                if actor.0 < world.actors.len() {
                    world.actors[actor.0].wants_to_attack = Some(wish);
                }
            },
        }
        done += 1;
    }
    world.commands.clear();
}

/// The tile one step from `from`, where a `usize` can name it.
fn step(from: Position, direction: Direction) -> (to: Option<Position>)
    ensures
        match to {
            Some(to) => (to.x as int, to.y as int) == destination(from, direction),
            None => {
                let to = destination(from, direction);
                to.0 < 0 || to.1 < 0 || to.0 > usize::MAX || to.1 > usize::MAX
            },
        },
{
    match direction {
        Direction::Up => if from.y > 0 {
            Some(Position { x: from.x, y: from.y - 1 })
        } else {
            None
        },
        Direction::Down => if from.y < usize::MAX {
            Some(Position { x: from.x, y: from.y + 1 })
        } else {
            None
        },
        Direction::Left => if from.x > 0 {
            Some(Position { x: from.x - 1, y: from.y })
        } else {
            None
        },
        Direction::Right => if from.x < usize::MAX {
            Some(Position { x: from.x + 1, y: from.y })
        } else {
            None
        },
    }
}

/// See [`taken`].
fn is_taken(actors: &Vec<Actor>, mover: usize, at: Position) -> (held: bool)
    ensures
        held == taken(actors@, mover as int, at.x as int, at.y as int),
{
    let mut j: usize = 0;
    while j < actors.len()
        invariant
            j <= actors@.len(),
            forall|k: int|
                0 <= k < j ==> !(k != mover && holds_tile(#[trigger] actors@[k])
                    && actors@[k].position.x == at.x && actors@[k].position.y == at.y),
        decreases actors@.len() - j,
    {
        let other = &actors[j];
        if j != mover && (other.blocks_tile.is_some() || matches!(other.kind, ActorKind::Player))
            && other.position.x == at.x && other.position.y == at.y {
            return true;
        }
        j += 1;
    }
    false
}

/// Resolves what the actor `index` wants: see [`resolved`].
fn resolve_actor(world: &mut World, index: usize)
    requires
        old(world).map.wf(),
        old(world).turn.0 < u32::MAX,
        index < old(world).actors@.len(),
    ensures
        final(world).map == old(world).map,
        final(world).turn == old(world).turn,
        final(world).input == old(world).input,
        final(world).commands == old(world).commands,
        (Board { actors: final(world).actors@, journal: final(world).journal.entries@ }) == resolved(
            Board { actors: old(world).actors@, journal: old(world).journal.entries@ },
            old(world).map@,
            (old(world).turn.0 + 1) as nat,
            index as int,
        ),
{
    let turn = world.turn.0 + 1;
    match world.actors[index].wants_to_move {
        Some(wish) => {
            let mut entered = false;
            match step(world.actors[index].position, wish.direction) {
                Some(to) => {
                    if !world.map.is_wall(to.x, to.y) && !is_taken(&world.actors, index, to) {
                        world.actors[index].position = to;
                        world.journal.entries.push(
                            ActionLog::new(
                                turn,
                                ActionType::Movement { position: EntityPosition::new(to.x, to.y) },
                            ),
                        );
                    }
                },
                None => {},
            }
            world.actors[index].wants_to_move = None;
        },
        None => {},
    }
    match world.actors[index].wants_to_attack {
        Some(wish) => {
            if wish.target.0 < world.actors.len() {
                let attacker_name = world.actors[index].name.0.clone();
                let target_name = world.actors[wish.target.0].name.0.clone();
                world.journal.entries.push(
                    ActionLog::new(
                        turn,
                        ActionType::MonsterAttack { attacker_name, target_name, damage: 0 },
                    ),
                );
            }
            world.actors[index].wants_to_attack = None;
        },
        None => {},
    }
}

/// Resolves what every actor wants: the player first, then the enemies in
/// the order of insertion. Each step is judged against the world as the
/// actors before have left it, so the player has first claim on a tile,
/// and of two enemies the earlier one.
pub fn movement_system(world: &mut World)
    requires
        old(world).map.wf(),
        old(world).turn.0 < u32::MAX,
    ensures
        final(world)@ == movement_stage(old(world)@),
{
    match world.get_single(ActorKind::Player) {
        Ok(player) => {
            let count = world.actors.len();
            proof {
                lemma_matching(world.actors@, ActorKind::Player);
            }
            resolve_actor(world, player.0);
        },
        Err(_) => {},
    }
    let ghost first = Board { actors: world.actors@, journal: world.journal.entries@ };
    let ghost turn = (world.turn.0 + 1) as nat;
    let count = world.actors.len();
    let mut i: usize = 0;
    while i < count
        invariant
            i <= count,
            count == first.actors.len(),
            world.map == old(world).map,
            world.map.wf(),
            world.turn == old(world).turn,
            world.turn.0 < u32::MAX,
            turn == world.turn.0 + 1,
            world.input == old(world).input,
            world.commands == old(world).commands,
            world.actors@.len() == count,
            (Board { actors: world.actors@, journal: world.journal.entries@ }) == enemies_resolved(
                first,
                world.map@,
                turn,
                i as nat,
            ),
        decreases count - i,
    {
        if matches!(world.actors[i].kind, ActorKind::Enemy) {
            resolve_actor(world, i);
        }
        i += 1;
    }
}

/// Ends the turn: the counter goes up by one.
pub fn update_turn_system(world: &mut World)
    requires
        old(world).turn.0 < u32::MAX,
    ensures
        final(world)@ == turn_end_stage(old(world)@),
{
    world.turn.0 += 1;
}

} // verus!
