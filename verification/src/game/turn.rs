//! One whole turn: the stages in their fixed order, and what holds of every
//! turn.

use crate::app::{GameInputAction, GameSystemSet};
use crate::game::action_log::ActionLog;
use crate::game::ai::{within_view, IDLE_CHOICES};
use crate::game::components::ActorId;
use crate::game::map::GameMapView;
use crate::game::rng::random_range;
use crate::game::systems::{
    ai_stage, ai_system, all_resolved, applied, apply_deferred, apply_stage, attached,
    enemies_resolved, input_stage, moved, movement_stage, movement_system, player_input_system,
    resolved, struck, thought, turn_end_stage, update_turn_system, Board,
};
use crate::game::world::{
    lemma_matching, matching, on_open_ground, single, tiles_unshared, Actor, ActorKind, Command,
    QueryError, World, WorldView,
};
use crate::input::handlers::GameAction;
use vstd::prelude::*;

verus! {

/// Why a turn cannot be resolved. Each is a fault in how the world was put
/// together, and none can be mended from within a turn.
#[derive(Clone, Copy, PartialEq, Eq, Debug, Structural)]
pub enum TurnError {
    /// The world has no player, or more than one.
    Player(QueryError),
    /// This enemy has no memory to decide with.
    MindlessEnemy(ActorId),
}

/// An enemy without a memory.
pub open spec fn mindless(actor: Actor) -> bool {
    actor.kind == ActorKind::Enemy && actor.ai is None
}

/// A world whose turns can be resolved: it has its one player, and every
/// enemy has a memory.
pub open spec fn playable(actors: Seq<Actor>) -> bool {
    &&& single(actors, ActorKind::Player) is Ok
    &&& forall|i: int| 0 <= i < actors.len() ==> !mindless(#[trigger] actors[i])
}

/// Whether `error` is the fault that stops a turn in a world of these
/// actors. The player is looked for first; of several enemies without a
/// memory the first in the order of insertion is named. At most one error
/// fits a world, and none fits a playable one.
pub open spec fn refused(actors: Seq<Actor>, error: TurnError) -> bool {
    match error {
        TurnError::Player(fault) => single(actors, ActorKind::Player) == Err::<ActorId, QueryError>(
            fault,
        ),
        TurnError::MindlessEnemy(enemy) => {
            &&& single(actors, ActorKind::Player) is Ok
            &&& enemy.0 < actors.len()
            &&& mindless(actors[enemy.0 as int])
            &&& forall|j: int| 0 <= j < enemy.0 ==> !mindless(#[trigger] actors[j])
        },
    }
}

/// What one stage makes of the world. The combat stage has no work yet.
pub open spec fn stage(set: GameSystemSet, w: WorldView, rolls: Seq<usize>) -> WorldView {
    match set {
        GameSystemSet::Input => input_stage(w),
        GameSystemSet::AI => ai_stage(w, rolls),
        GameSystemSet::ApplyCommands => apply_stage(w),
        GameSystemSet::Movement => movement_stage(w),
        GameSystemSet::Combat => w,
        GameSystemSet::TurnEnd => turn_end_stage(w),
    }
}

/// The stages of a turn, in their order: input, decision, barrier,
/// resolution, combat, end of turn. The order is fixed, and no stage is
/// ever left out.
pub open spec fn stages(w: WorldView, rolls: Seq<usize>) -> WorldView {
    let asked = stage(GameSystemSet::Input, w, rolls);
    let decided = stage(GameSystemSet::AI, asked, rolls);
    let ready = stage(GameSystemSet::ApplyCommands, decided, rolls);
    let moved = stage(GameSystemSet::Movement, ready, rolls);
    let fought = stage(GameSystemSet::Combat, moved, rolls);
    stage(GameSystemSet::TurnEnd, fought, rolls)
}

/// A resolved turn as a function of the world and of the rolls that the
/// idle enemies wander by: the stages have run, and the pending action is
/// used up.
pub open spec fn resolved_turn(w: WorldView, rolls: Seq<usize>) -> WorldView {
    WorldView { input: None, ..stages(w, rolls) }
}

/// The world once the player has asked for an action.
pub open spec fn asked(w: WorldView, action: GameAction) -> WorldView {
    WorldView { input: Some(action), ..w }
}

/// What a call for the pending turn makes of a playable world: the turn is
/// resolved where an action is pending, and nothing happens where none
/// is. A world that is not playable is never changed by such a call.
pub open spec fn pending_turn(w: WorldView, rolls: Seq<usize>) -> WorldView {
    if w.input is Some {
        resolved_turn(w, rolls)
    } else {
        w
    }
}

/// The world after one turn for each of `actions`, in their order: the
/// player asks for the action, and the pending turn is resolved with the
/// rolls in the same place of `rolls`.
pub open spec fn after_turns(w: WorldView, actions: Seq<GameAction>, rolls: Seq<Seq<usize>>)
    -> WorldView
    decreases actions.len(),
{
    if actions.len() == 0 {
        w
    } else {
        pending_turn(
            asked(after_turns(w, actions.drop_last(), rolls), actions.last()),
            rolls[actions.len() - 1],
        )
    }
}

/// Looks for what would stop a turn.
pub fn check_playable(world: &World) -> (verdict: Result<ActorId, TurnError>)
    ensures
        match verdict {
            Ok(player) => playable(world.actors@) && single(world.actors@, ActorKind::Player) == Ok::<
                ActorId,
                QueryError,
            >(player),
            Err(error) => refused(world.actors@, error),
        },
{
    let player = match world.get_single(ActorKind::Player) {
        Ok(player) => player,
        Err(fault) => {
            return Err(TurnError::Player(fault));
        },
    };
    let mut i: usize = 0;
    while i < world.actors.len()
        invariant
            i <= world.actors@.len(),
            single(world.actors@, ActorKind::Player) == Ok::<ActorId, QueryError>(player),
            forall|j: int| 0 <= j < i ==> !mindless(#[trigger] world.actors@[j]),
        decreases world.actors@.len() - i,
    {
        let actor = &world.actors[i];
        if matches!(actor.kind, ActorKind::Enemy) && actor.ai.is_none() {
            return Err(TurnError::MindlessEnemy(ActorId(i)));
        }
        i += 1;
    }
    Ok(player)
}

/// Runs one stage on the world. Only the resolution stage reads the map,
/// and only that stage and the end of the turn need a counter that can
/// still go up.
pub fn run_stage(set: GameSystemSet, world: &mut World, rolls: &Vec<usize>)
    requires
        set == GameSystemSet::Movement ==> old(world).map.wf(),
        set == GameSystemSet::Movement || set == GameSystemSet::TurnEnd ==> old(world).turn.0
            < u32::MAX,
    ensures
        final(world)@ == stage(set, old(world)@, rolls@),
        set == GameSystemSet::Combat ==> *final(world) == *old(world),
{
    match set {
        GameSystemSet::Input => player_input_system(world),
        GameSystemSet::AI => ai_system(world, rolls),
        GameSystemSet::ApplyCommands => apply_deferred(world),
        GameSystemSet::Movement => movement_system(world),
        GameSystemSet::Combat => {},
        GameSystemSet::TurnEnd => update_turn_system(world),
    }
}

/// Resolves one turn, whatever the pending action is. A world that is not
/// playable is left untouched and the fault is handed back.
pub fn run_turn(world: &mut World, rolls: &Vec<usize>) -> (outcome: Result<(), TurnError>)
    requires
        old(world).map.wf(),
        old(world).turn.0 < u32::MAX,
    ensures
        match outcome {
            Ok(_) => playable(old(world).actors@) && final(world)@ == resolved_turn(
                old(world)@,
                rolls@,
            ),
            Err(error) => refused(old(world).actors@, error) && *final(world) == *old(world),
        },
        outcome is Ok ==> final(world).turn.0 == old(world).turn.0 + 1,
        old(world)@.wf() ==> final(world)@.wf(),
{
    proof {
        assert(world.actors@.len() == world.actors.len());
        if world@.wf() {
            lemma_turn_keeps_the_ground(world@, rolls@);
        }
    }
    match check_playable(world) {
        Ok(_) => {},
        Err(error) => {
            return Err(error);
        },
    }
    run_stage(GameSystemSet::Input, world, rolls);
    run_stage(GameSystemSet::AI, world, rolls);
    run_stage(GameSystemSet::ApplyCommands, world, rolls);
    run_stage(GameSystemSet::Movement, world, rolls);
    run_stage(GameSystemSet::Combat, world, rolls);
    run_stage(GameSystemSet::TurnEnd, world, rolls);
    world.input = GameInputAction(None);
    Ok(())
}

impl World {
    /// Takes note of what the player asks for. The action waits for the
    /// next call of [`World::run_turn_if_pending`], and a later action
    /// replaces one that still waits.
    pub fn apply_player_intent(&mut self, action: GameAction)
        ensures
            final(self)@ == asked(old(self)@, action),
    {
        self.input = GameInputAction(Some(action));
    }

    /// Resolves one turn if an action is pending, and says whether it did.
    /// `rolls` holds, for each actor by its place in the world, the number
    /// that it wanders by should it be idle. Without a pending action
    /// nothing at all changes, and a world that is not playable is left
    /// untouched too, with the fault handed back.
    pub fn run_turn_if_pending(&mut self, rolls: &Vec<usize>) -> (outcome: Result<bool, TurnError>)
        requires
            old(self).map.wf(),
            old(self).input.0 is Some ==> old(self).turn.0 < u32::MAX,
        ensures
            old(self).input.0 is None ==> outcome == Ok::<bool, TurnError>(false) && *final(self)
                == *old(self),
            old(self).input.0 is Some ==> match outcome {
                Ok(ran) => ran && playable(old(self).actors@) && final(self)@ == resolved_turn(
                    old(self)@,
                    rolls@,
                ),
                Err(error) => refused(old(self).actors@, error) && *final(self) == *old(self),
            },
            outcome is Ok ==> final(self)@ == pending_turn(old(self)@, rolls@),
            outcome == Ok::<bool, TurnError>(true) ==> final(self).turn.0 == old(self).turn.0 + 1,
            old(self)@.wf() ==> final(self)@.wf(),
    {
        if self.input.0.is_none() {
            return Ok(false);
        }
        match run_turn(self, rolls) {
            Ok(_) => Ok(true),
            Err(error) => Err(error),
        }
    }

    /// Draws the rolls for one turn from the thread's random source: one
    /// number below [`IDLE_CHOICES`] for every enemy that does not see the
    /// player from where the two stand now. No number is drawn for an actor
    /// that has no use for one; its roll is the one that stays put. A world
    /// without its one player draws nothing.
    pub fn idle_rolls(&self) -> (rolls: Vec<usize>)
        ensures
            rolls@.len() == self.actors@.len() || rolls@.len() == 0,
            single(self.actors@, ActorKind::Player) is Ok ==> rolls@.len() == self.actors@.len(),
            forall|i: int| 0 <= i < rolls@.len() ==> (#[trigger] rolls@[i]) < IDLE_CHOICES,
    {
        let mut rolls: Vec<usize> = Vec::new();
        let player = match self.get_single(ActorKind::Player) {
            Ok(player) => player,
            Err(_) => {
                return rolls;
            },
        };
        let count = self.actors.len();
        proof {
            lemma_matching(self.actors@, ActorKind::Player);
        }
        let at = self.actors[player.0].position;
        let mut generator = rand::rng();
        let mut i: usize = 0;
        while i < count
            invariant
                i <= count,
                count == self.actors@.len(),
                rolls@.len() == i,
                forall|k: int| 0 <= k < rolls@.len() ==> (#[trigger] rolls@[k]) < IDLE_CHOICES,
            decreases count - i,
        {
            let actor = &self.actors[i];
            let idle = match (actor.kind, actor.ai) {
                (ActorKind::Enemy, Some(ai)) => !within_view(
                    actor.position.x,
                    actor.position.y,
                    at.x,
                    at.y,
                    ai.fov_radius as usize,
                ),
                _ => false,
            };
            let roll = if idle {
                random_range(&mut generator, 0, IDLE_CHOICES)
            } else {
                IDLE_CHOICES - 1
            };
            rolls.push(roll);
            i += 1;
        }
        rolls
    }
}

/// Nobody has come or gone between `before` and `after`, and what an actor
/// is has not changed: only where it stands, what it remembers and what it
/// wants may differ, and an actor with a memory still has one.
pub open spec fn same_cast(before: Seq<Actor>, after: Seq<Actor>) -> bool {
    &&& before.len() == after.len()
    &&& forall|i: int|
        #![trigger before[i]]
        #![trigger after[i]]
        0 <= i < before.len() ==> {
            &&& after[i] == (Actor {
                position: after[i].position,
                ai: after[i].ai,
                wants_to_move: after[i].wants_to_move,
                wants_to_attack: after[i].wants_to_attack,
                ..before[i]
            })
            &&& (after[i].ai is Some) == (before[i].ai is Some)
        }
}

/// Between `before` and `after` nobody has moved, and nothing but memories
/// and wishes has changed.
pub open spec fn same_places(before: Seq<Actor>, after: Seq<Actor>) -> bool {
    &&& same_cast(before, after)
    &&& forall|i: int|
        #![trigger before[i]]
        #![trigger after[i]]
        0 <= i < before.len() ==> after[i].position == before[i].position
}

/// Between `before` and `after` no memory has been written.
pub open spec fn same_minds(before: Seq<Actor>, after: Seq<Actor>) -> bool {
    &&& before.len() == after.len()
    &&& forall|i: int|
        #![trigger before[i]]
        #![trigger after[i]]
        0 <= i < before.len() ==> after[i].ai == before[i].ai
}

/// `longer` is `shorter` with records added at its end, each of them
/// numbered `turn`.
pub open spec fn extends(shorter: Seq<ActionLog>, longer: Seq<ActionLog>, turn: nat) -> bool {
    &&& shorter.len() <= longer.len()
    &&& forall|k: int| 0 <= k < shorter.len() ==> longer[k] == shorter[k]
    &&& forall|k: int| shorter.len() <= k < longer.len() ==> (#[trigger] longer[k]).turn == turn
}

/// No actor wants anything.
pub open spec fn at_rest(actors: Seq<Actor>) -> bool {
    forall|i: int|
        0 <= i < actors.len() ==> (#[trigger] actors[i]).wants_to_move is None
            && actors[i].wants_to_attack is None
}

/// The same cast twice over is the same cast.
proof fn lemma_same_cast_chains(first: Seq<Actor>, second: Seq<Actor>, third: Seq<Actor>)
    requires
        same_cast(first, second),
        same_cast(second, third),
    ensures
        same_cast(first, third),
{
    assert forall|i: int| 0 <= i < first.len() implies {
        &&& (#[trigger] third[i]) == (Actor {
            position: third[i].position,
            ai: third[i].ai,
            wants_to_move: third[i].wants_to_move,
            wants_to_attack: third[i].wants_to_attack,
            ..first[i]
        })
        &&& (third[i].ai is Some) == (first[i].ai is Some)
    } by {
        assert((second[i].ai is Some) == (first[i].ai is Some));
    }
}

/// Where nobody has moved twice over, nobody has moved.
proof fn lemma_same_places_chains(first: Seq<Actor>, second: Seq<Actor>, third: Seq<Actor>)
    requires
        same_places(first, second),
        same_places(second, third),
    ensures
        same_places(first, third),
{
    lemma_same_cast_chains(first, second, third);
    assert forall|i: int| 0 <= i < first.len() implies (#[trigger] third[i]).position
        == first[i].position by {
        assert(second[i].position == first[i].position);
    }
}

/// Where no memory has been written twice over, none has been written.
proof fn lemma_same_minds_chains(first: Seq<Actor>, second: Seq<Actor>, third: Seq<Actor>)
    requires
        same_minds(first, second),
        same_minds(second, third),
    ensures
        same_minds(first, third),
{
    assert forall|i: int| 0 <= i < first.len() implies (#[trigger] third[i]).ai == first[i].ai by {
        assert(second[i].ai == first[i].ai);
    }
}

/// The actors of a kind are picked by kind alone.
proof fn lemma_matching_by_kind(before: Seq<Actor>, after: Seq<Actor>, kind: ActorKind)
    requires
        before.len() == after.len(),
        forall|i: int| 0 <= i < before.len() ==> (#[trigger] before[i]).kind == after[i].kind,
    ensures
        matching(before, kind) == matching(after, kind),
    decreases before.len(),
{
    if before.len() > 0 {
        lemma_matching_by_kind(before.drop_last(), after.drop_last(), kind);
    }
}

/// The same cast makes the same world to play in.
proof fn lemma_same_cast_plays(before: Seq<Actor>, after: Seq<Actor>)
    requires
        same_cast(before, after),
    ensures
        single(after, ActorKind::Player) == single(before, ActorKind::Player),
        playable(before) == playable(after),
{
    assert forall|i: int| 0 <= i < before.len() implies (#[trigger] before[i]).kind
        == after[i].kind by {}
    lemma_matching_by_kind(before, after, ActorKind::Player);
    if playable(before) {
        assert forall|i: int| 0 <= i < after.len() implies !mindless(#[trigger] after[i]) by {
            assert(!mindless(before[i]));
        }
    }
    if playable(after) {
        assert forall|i: int| 0 <= i < before.len() implies !mindless(#[trigger] before[i]) by {
            assert(!mindless(after[i]));
        }
    }
}

/// Where nobody has moved, the ground under the actors is as good as it
/// was.
proof fn lemma_same_places_keep_ground(before: Seq<Actor>, after: Seq<Actor>, map: GameMapView)
    requires
        same_places(before, after),
    ensures
        on_open_ground(before, map) ==> on_open_ground(after, map),
        tiles_unshared(before) ==> tiles_unshared(after),
{
    if on_open_ground(before, map) {
        assert forall|i: int| 0 <= i < after.len() implies map.passable(
            (#[trigger] after[i]).position.x as int,
            after[i].position.y as int,
        ) by {
            assert(after[i].position == before[i].position);
        }
    }
    if tiles_unshared(before) {
        assert forall|i: int, j: int|
            #![trigger after[i], after[j]]
            0 <= i < after.len() && 0 <= j < after.len() && i != j && after[i].blocks_tile is Some
                && after[j].blocks_tile is Some implies after[i].position != after[j].position by {
            assert(before[i].blocks_tile is Some && before[j].blocks_tile is Some);
            assert(before[i].position != before[j].position);
        }
    }
}

/// The barrier attaches wishes and does nothing else.
proof fn lemma_applied_keeps_places(actors: Seq<Actor>, commands: Seq<Command>, count: nat)
    ensures
        same_places(actors, applied(actors, commands, count)),
        same_minds(actors, applied(actors, commands, count)),
    decreases count,
{
    if count > 0 {
        lemma_applied_keeps_places(actors, commands, (count - 1) as nat);
        let before = applied(actors, commands, (count - 1) as nat);
        let after = attached(before, commands[count - 1]);
        assert(same_places(before, after));
        assert(same_minds(before, after));
    }
}

/// What one actor's acting does to the board: nobody else is touched, the
/// actor is left without a wish, the cast stays, the ground stays good, and
/// the journal grows by records of this turn only.
proof fn lemma_resolved(board: Board, map: GameMapView, turn: nat, index: int)
    requires
        0 <= index < board.actors.len(),
        turn <= u32::MAX,
    ensures
        same_cast(board.actors, resolved(board, map, turn, index).actors),
        same_minds(board.actors, resolved(board, map, turn, index).actors),
        forall|j: int|
            0 <= j < board.actors.len() && j != index ==> (#[trigger] resolved(
                board,
                map,
                turn,
                index,
            ).actors[j]) == board.actors[j],
        resolved(board, map, turn, index).actors[index].wants_to_move is None,
        resolved(board, map, turn, index).actors[index].wants_to_attack is None,
        on_open_ground(board.actors, map) ==> on_open_ground(
            resolved(board, map, turn, index).actors,
            map,
        ),
        tiles_unshared(board.actors) ==> tiles_unshared(resolved(board, map, turn, index).actors),
        extends(board.journal, resolved(board, map, turn, index).journal, turn),
{
    let stepped = moved(board, map, turn, index);
    let after = struck(stepped, turn, index);
    assert(same_cast(board.actors, stepped.actors));
    assert(same_cast(stepped.actors, after.actors));
    if on_open_ground(board.actors, map) {
        assert forall|i: int| 0 <= i < after.actors.len() implies map.passable(
            (#[trigger] after.actors[i]).position.x as int,
            after.actors[i].position.y as int,
        ) by {
            assert(map.passable(board.actors[i].position.x as int, board.actors[i].position.y as int));
        }
    }
    if tiles_unshared(board.actors) {
        assert forall|i: int, j: int|
            #![trigger after.actors[i], after.actors[j]]
            0 <= i < after.actors.len() && 0 <= j < after.actors.len() && i != j
                && after.actors[i].blocks_tile is Some
                && after.actors[j].blocks_tile is Some implies after.actors[i].position
            != after.actors[j].position by {
            assert(board.actors[i].blocks_tile is Some && board.actors[j].blocks_tile is Some);
            assert(board.actors[i].position != board.actors[j].position);
        }
    }
}

/// What the enemies' acting does to the board, up to the actor `count`.
proof fn lemma_enemies_resolved(board: Board, map: GameMapView, turn: nat, count: nat)
    requires
        count <= board.actors.len(),
        turn <= u32::MAX,
    ensures
        same_cast(board.actors, enemies_resolved(board, map, turn, count).actors),
        same_minds(board.actors, enemies_resolved(board, map, turn, count).actors),
        forall|j: int|
            0 <= j < board.actors.len() && (j >= count || board.actors[j].kind != ActorKind::Enemy)
                ==> (#[trigger] enemies_resolved(board, map, turn, count).actors[j])
                == board.actors[j],
        forall|j: int|
            0 <= j < count && board.actors[j].kind == ActorKind::Enemy ==> (#[trigger] enemies_resolved(
                board,
                map,
                turn,
                count,
            ).actors[j]).wants_to_move is None && enemies_resolved(
                board,
                map,
                turn,
                count,
            ).actors[j].wants_to_attack is None,
        on_open_ground(board.actors, map) ==> on_open_ground(
            enemies_resolved(board, map, turn, count).actors,
            map,
        ),
        tiles_unshared(board.actors) ==> tiles_unshared(
            enemies_resolved(board, map, turn, count).actors,
        ),
        extends(board.journal, enemies_resolved(board, map, turn, count).journal, turn),
    decreases count,
{
    if count > 0 {
        let index = count - 1;
        lemma_enemies_resolved(board, map, turn, index as nat);
        let before = enemies_resolved(board, map, turn, index as nat);
        assert(before.actors[index] == board.actors[index]);
        if before.actors[index].kind == ActorKind::Enemy {
            lemma_resolved(before, map, turn, index);
            let after = resolved(before, map, turn, index);
            lemma_same_cast_chains(board.actors, before.actors, after.actors);
            lemma_same_minds_chains(board.actors, before.actors, after.actors);
            assert forall|j: int|
                0 <= j < board.actors.len() && (j >= count || board.actors[j].kind
                    != ActorKind::Enemy) implies (#[trigger] after.actors[j])
                == board.actors[j] by {
                assert(before.actors[j] == board.actors[j]);
            }
            assert forall|j: int|
                0 <= j < count && board.actors[j].kind == ActorKind::Enemy implies (#[trigger] after.actors[j]).wants_to_move is None
                && after.actors[j].wants_to_attack is None by {
                if j != index {
                    assert(after.actors[j] == before.actors[j]);
                }
            }
        }
    }
}

/// What a whole resolution stage does to the board of a world with its
/// one player.
proof fn lemma_all_resolved(board: Board, map: GameMapView, turn: nat)
    requires
        board.actors.len() <= usize::MAX,
        turn <= u32::MAX,
    ensures
        same_cast(board.actors, all_resolved(board, map, turn).actors),
        same_minds(board.actors, all_resolved(board, map, turn).actors),
        single(board.actors, ActorKind::Player) is Ok ==> at_rest(
            all_resolved(board, map, turn).actors,
        ),
        on_open_ground(board.actors, map) ==> on_open_ground(
            all_resolved(board, map, turn).actors,
            map,
        ),
        tiles_unshared(board.actors) ==> tiles_unshared(all_resolved(board, map, turn).actors),
        extends(board.journal, all_resolved(board, map, turn).journal, turn),
{
    lemma_matching(board.actors, ActorKind::Player);
    let first = match single(board.actors, ActorKind::Player) {
        Ok(player) => resolved(board, map, turn, player.0 as int),
        Err(_) => board,
    };
    if let Ok(player) = single(board.actors, ActorKind::Player) {
        assert(player == matching(board.actors, ActorKind::Player)[0]);
        lemma_resolved(board, map, turn, player.0 as int);
    }
    lemma_enemies_resolved(first, map, turn, first.actors.len());
    let last = enemies_resolved(first, map, turn, first.actors.len());
    lemma_same_cast_chains(board.actors, first.actors, last.actors);
    lemma_same_minds_chains(board.actors, first.actors, last.actors);
    if let Ok(player) = single(board.actors, ActorKind::Player) {
        assert forall|i: int| 0 <= i < last.actors.len() implies (#[trigger] last.actors[i]).wants_to_move is None
            && last.actors[i].wants_to_attack is None by {
            if first.actors[i].kind != ActorKind::Enemy {
                assert(board.actors[i].kind == ActorKind::Player);
                assert(matching(board.actors, ActorKind::Player).contains(ActorId(i as usize)));
                assert(i == player.0);
            }
        }
    }
}

/// The stages up to the barrier move nobody and leave the journal alone.
proof fn lemma_wishes_attached(w: WorldView, rolls: Seq<usize>)
    ensures
        same_places(w.actors, apply_stage(ai_stage(input_stage(w), rolls)).actors),
        apply_stage(ai_stage(input_stage(w), rolls)).journal == w.journal,
        apply_stage(ai_stage(input_stage(w), rolls)).map == w.map,
        apply_stage(ai_stage(input_stage(w), rolls)).turn == w.turn,
        apply_stage(ai_stage(input_stage(w), rolls)).commands == Seq::<Command>::empty(),
{
    let asked = input_stage(w);
    let decided = ai_stage(asked, rolls);
    assert(same_places(w.actors, decided.actors));
    lemma_applied_keeps_places(decided.actors, decided.commands, decided.commands.len());
    let ready = apply_stage(decided);
    lemma_same_places_chains(w.actors, decided.actors, ready.actors);
}

/// Every resolved turn leaves every actor inside the grid and off the
/// walls, and no two actors that block their tile on the same one.
pub proof fn lemma_turn_keeps_the_ground(w: WorldView, rolls: Seq<usize>)
    requires
        w.wf(),
        w.actors.len() <= usize::MAX,
        w.turn < u32::MAX,
    ensures
        resolved_turn(w, rolls).wf(),
        resolved_turn(w, rolls).map == w.map,
        on_open_ground(resolved_turn(w, rolls).actors, w.map),
        tiles_unshared(resolved_turn(w, rolls).actors),
{
    lemma_wishes_attached(w, rolls);
    let ready = apply_stage(ai_stage(input_stage(w), rolls));
    lemma_same_places_keep_ground(w.actors, ready.actors, w.map);
    lemma_all_resolved(
        Board { actors: ready.actors, journal: ready.journal },
        ready.map,
        ready.turn + 1,
    );
}

/// Every resolved turn advances the counter by exactly one and uses up the
/// pending action.
pub proof fn lemma_turn_counts_one(w: WorldView, rolls: Seq<usize>)
    ensures
        resolved_turn(w, rolls).turn == w.turn + 1,
        resolved_turn(w, rolls).input is None,
{
}

/// A resolved turn neither makes nor unmakes an actor: the cast is the
/// same, and so a playable world stays playable.
pub proof fn lemma_turn_keeps_the_cast(w: WorldView, rolls: Seq<usize>)
    requires
        w.actors.len() <= usize::MAX,
        w.turn < u32::MAX,
    ensures
        same_cast(w.actors, resolved_turn(w, rolls).actors),
        playable(resolved_turn(w, rolls).actors) == playable(w.actors),
{
    lemma_wishes_attached(w, rolls);
    let ready = apply_stage(ai_stage(input_stage(w), rolls));
    lemma_all_resolved(
        Board { actors: ready.actors, journal: ready.journal },
        ready.map,
        ready.turn + 1,
    );
    let after = resolved_turn(w, rolls);
    lemma_same_cast_chains(w.actors, ready.actors, after.actors);
    lemma_same_cast_plays(w.actors, after.actors);
}

/// No wish outlives its turn: after a resolved turn of a playable world no
/// actor wants anything, and no command waits.
pub proof fn lemma_turn_leaves_no_wish(w: WorldView, rolls: Seq<usize>)
    requires
        playable(w.actors),
        w.actors.len() <= usize::MAX,
        w.turn < u32::MAX,
    ensures
        at_rest(resolved_turn(w, rolls).actors),
        resolved_turn(w, rolls).commands == Seq::<Command>::empty(),
{
    lemma_wishes_attached(w, rolls);
    let ready = apply_stage(ai_stage(input_stage(w), rolls));
    lemma_same_cast_plays(w.actors, ready.actors);
    lemma_all_resolved(
        Board { actors: ready.actors, journal: ready.journal },
        ready.map,
        ready.turn + 1,
    );
}

/// The journal only grows: a resolved turn keeps every record where it was
/// and adds records that carry the number of the turn just ended.
pub proof fn lemma_journal_only_grows(w: WorldView, rolls: Seq<usize>)
    requires
        w.actors.len() <= usize::MAX,
        w.turn < u32::MAX,
    ensures
        extends(w.journal, resolved_turn(w, rolls).journal, resolved_turn(w, rolls).turn),
{
    lemma_wishes_attached(w, rolls);
    let ready = apply_stage(ai_stage(input_stage(w), rolls));
    lemma_all_resolved(
        Board { actors: ready.actors, journal: ready.journal },
        ready.map,
        ready.turn + 1,
    );
}

/// An enemy's memory is written by that enemy's decision alone: after a
/// resolved turn it is what the enemy's own look at the player, from where
/// both stood when the turn began, has made of it.
pub proof fn lemma_memory_is_private(w: WorldView, rolls: Seq<usize>, index: int)
    requires
        w.actors.len() <= usize::MAX,
        w.turn < u32::MAX,
        0 <= index < w.actors.len(),
    ensures
        match single(w.actors, ActorKind::Player) {
            Ok(player) => resolved_turn(w, rolls).actors[index].ai == thought(
                w.actors[index],
                w.actors[player.0 as int].position,
            ).ai,
            Err(_) => resolved_turn(w, rolls).actors[index].ai == w.actors[index].ai,
        },
{
    let asked = input_stage(w);
    let decided = ai_stage(asked, rolls);
    lemma_applied_keeps_places(decided.actors, decided.commands, decided.commands.len());
    let ready = apply_stage(decided);
    lemma_matching(w.actors, ActorKind::Player);
    assert(ready.actors[index].ai == decided.actors[index].ai);
    lemma_all_resolved(
        Board { actors: ready.actors, journal: ready.journal },
        ready.map,
        ready.turn + 1,
    );
    let after = resolved_turn(w, rolls);
    assert(after.actors[index].ai == ready.actors[index].ai);
}

/// A turn for each of a number of actions advances the counter of a
/// playable world by exactly that number. The world stays playable all
/// the way, and where it stood on good ground it still does.
pub proof fn lemma_turns_count(w: WorldView, actions: Seq<GameAction>, rolls: Seq<Seq<usize>>)
    requires
        playable(w.actors),
        w.actors.len() <= usize::MAX,
        w.turn + actions.len() <= u32::MAX,
        rolls.len() == actions.len(),
    ensures
        after_turns(w, actions, rolls).turn == w.turn + actions.len(),
        playable(after_turns(w, actions, rolls).actors),
        same_cast(w.actors, after_turns(w, actions, rolls).actors),
        w.wf() ==> after_turns(w, actions, rolls).wf(),
    decreases actions.len(),
{
    if actions.len() > 0 {
        let earlier = after_turns(w, actions.drop_last(), rolls);
        lemma_turns_count(w, actions.drop_last(), rolls.drop_last());
        lemma_after_turns_reads_its_rolls(w, actions.drop_last(), rolls, rolls.drop_last());
        let ready = asked(earlier, actions.last());
        let last = rolls[actions.len() - 1];
        lemma_turn_keeps_the_cast(ready, last);
        if w.wf() {
            lemma_turn_keeps_the_ground(ready, last);
        }
        let after = resolved_turn(ready, last);
        lemma_same_cast_chains(w.actors, earlier.actors, after.actors);
    }
}

/// The turns read only the rolls that belong to them.
proof fn lemma_after_turns_reads_its_rolls(
    w: WorldView,
    actions: Seq<GameAction>,
    rolls: Seq<Seq<usize>>,
    other: Seq<Seq<usize>>,
)
    requires
        actions.len() <= rolls.len(),
        actions.len() <= other.len(),
        forall|k: int| 0 <= k < actions.len() ==> rolls[k] == other[k],
    ensures
        after_turns(w, actions, rolls) == after_turns(w, actions, other),
    decreases actions.len(),
{
    if actions.len() > 0 {
        lemma_after_turns_reads_its_rolls(w, actions.drop_last(), rolls, other);
    }
}

} // verus!
