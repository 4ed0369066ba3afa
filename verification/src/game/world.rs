//! The world store: every actor and the session's bookkeeping in one place.

use crate::app::GameInputAction;
use crate::game::action_log::ActionLog;
use crate::game::components::{
    ActorId, BasicAi, BlocksTile, Name, Position, Renderable, Stats, WantsToAttack, WantsToMove,
};
use crate::game::map::{GameMap, GameMapView};
use crate::game::state::{ActionJournal, GameTurn};
use crate::input::handlers::GameAction;
use vstd::prelude::*;

verus! {

/// The tag that tells the player from the enemies.
#[derive(Clone, Copy, PartialEq, Eq, Debug, Structural)]
pub enum ActorKind {
    Player,
    Enemy,
}

/// One actor: what it is, where it stands, and what it wants this turn.
#[derive(PartialEq, Eq, Debug)]
pub struct Actor {
    pub kind: ActorKind,
    pub name: Name,
    pub position: Position,
    pub renderable: Renderable,
    pub stats: Option<Stats>,
    /// The memory of an enemy. A player has none.
    pub ai: Option<BasicAi>,
    /// The mark of an actor that keeps its tile to itself.
    pub blocks_tile: Option<BlocksTile>,
    pub wants_to_move: Option<WantsToMove>,
    pub wants_to_attack: Option<WantsToAttack>,
}

/// A change to an actor that a stage has asked for and that waits for the
/// barrier between the stages.
#[derive(Clone, Copy, PartialEq, Eq, Debug, Structural)]
pub enum Command {
    InsertMove(ActorId, WantsToMove),
    InsertAttack(ActorId, WantsToAttack),
}

/// Why no single actor could be named.
#[derive(Clone, Copy, PartialEq, Eq, Debug, Structural)]
pub enum QueryError {
    /// No actor carries the tag.
    NotFound,
    /// More than one actor carries the tag.
    Ambiguous,
}

/// The world. The actors stand in the order in which they were spawned, and
/// an actor's identity is its place in that order.
#[derive(PartialEq, Eq, Debug)]
pub struct World {
    pub map: GameMap,
    pub actors: Vec<Actor>,
    pub journal: ActionJournal,
    pub turn: GameTurn,
    pub input: GameInputAction,
    pub commands: Vec<Command>,
}

/// The world as a value: what the contracts of the stages speak of.
#[verifier::ext_equal]
pub struct WorldView {
    pub map: GameMapView,
    pub actors: Seq<Actor>,
    pub journal: Seq<ActionLog>,
    pub turn: nat,
    pub input: Option<GameAction>,
    pub commands: Seq<Command>,
}

impl View for World {
    type V = WorldView;

    open spec fn view(&self) -> WorldView {
        WorldView {
            map: self.map@,
            actors: self.actors@,
            journal: self.journal.entries@,
            turn: self.turn.0 as nat,
            input: self.input.0,
            commands: self.commands@,
        }
    }
}

impl Clone for Actor {
    fn clone(&self) -> (copy: Self)
        ensures
            copy == *self,
    {
        Actor {
            kind: self.kind,
            name: self.name.clone(),
            position: self.position,
            renderable: self.renderable.clone(),
            stats: self.stats,
            ai: self.ai,
            blocks_tile: self.blocks_tile,
            wants_to_move: self.wants_to_move,
            wants_to_attack: self.wants_to_attack,
        }
    }
}

impl Clone for World {
    fn clone(&self) -> (copy: Self)
        ensures
            copy@ == self@,
    {
        let mut actors: Vec<Actor> = Vec::new();
        let mut i: usize = 0;
        while i < self.actors.len()
            invariant
                i <= self.actors@.len(),
                actors@.len() == i,
                forall|k: int| 0 <= k < i ==> #[trigger] actors@[k] == self.actors@[k],
            decreases self.actors@.len() - i,
        {
            actors.push(self.actors[i].clone());
            i += 1;
        }
        let mut commands: Vec<Command> = Vec::new();
        let mut j: usize = 0;
        while j < self.commands.len()
            invariant
                j <= self.commands@.len(),
                commands@.len() == j,
                forall|k: int| 0 <= k < j ==> #[trigger] commands@[k] == self.commands@[k],
            decreases self.commands@.len() - j,
        {
            commands.push(self.commands[j]);
            j += 1;
        }
        assert(actors@ =~= self.actors@);
        assert(commands@ =~= self.commands@);
        World {
            map: self.map.clone(),
            actors,
            journal: self.journal.clone(),
            turn: self.turn,
            input: self.input,
            commands,
        }
    }
}

/// Every actor stands inside the grid and on no wall.
pub open spec fn on_open_ground(actors: Seq<Actor>, map: GameMapView) -> bool {
    forall|i: int|
        0 <= i < actors.len() ==> map.passable(
            (#[trigger] actors[i]).position.x as int,
            actors[i].position.y as int,
        )
}

/// No two actors that keep their tile to themselves share one.
pub open spec fn tiles_unshared(actors: Seq<Actor>) -> bool {
    forall|i: int, j: int|
        #![trigger actors[i], actors[j]]
        0 <= i < actors.len() && 0 <= j < actors.len() && i != j && actors[i].blocks_tile is Some
            && actors[j].blocks_tile is Some ==> actors[i].position != actors[j].position
}

impl WorldView {
    /// The map is well formed, every actor stands on open ground, and no
    /// tile is shared by two actors that keep theirs to themselves.
    pub open spec fn wf(self) -> bool {
        &&& self.map.wf()
        &&& on_open_ground(self.actors, self.map)
        &&& tiles_unshared(self.actors)
    }
}

/// The identities of the actors of a kind, in the order of insertion.
pub open spec fn matching(actors: Seq<Actor>, kind: ActorKind) -> Seq<ActorId>
    decreases actors.len(),
{
    if actors.len() == 0 {
        Seq::empty()
    } else if actors.last().kind == kind {
        matching(actors.drop_last(), kind).push(ActorId((actors.len() - 1) as usize))
    } else {
        matching(actors.drop_last(), kind)
    }
}

/// The one actor of a kind, or why there is no such one.
pub open spec fn single(actors: Seq<Actor>, kind: ActorKind) -> Result<ActorId, QueryError> {
    let found = matching(actors, kind);
    if found.len() == 0 {
        Err(QueryError::NotFound)
    } else if found.len() == 1 {
        Ok(found[0])
    } else {
        Err(QueryError::Ambiguous)
    }
}

/// What `matching` holds: exactly the actors of the kind, each once, in
/// rising order.
pub proof fn lemma_matching(actors: Seq<Actor>, kind: ActorKind)
    requires
        actors.len() <= usize::MAX,
    ensures
        matching(actors, kind).len() <= actors.len(),
        forall|k: int|
            0 <= k < matching(actors, kind).len() ==> {
                let id = #[trigger] matching(actors, kind)[k];
                id.0 < actors.len() && actors[id.0 as int].kind == kind
            },
        forall|k: int, l: int|
            0 <= k < l < matching(actors, kind).len() ==> (#[trigger] matching(actors, kind)[k]).0
                < (#[trigger] matching(actors, kind)[l]).0,
        forall|i: int|
            0 <= i < actors.len() && (#[trigger] actors[i]).kind == kind ==> matching(
                actors,
                kind,
            ).contains(ActorId(i as usize)),
    decreases actors.len(),
{
    if actors.len() > 0 {
        let front = actors.drop_last();
        lemma_matching(front, kind);
        let found = matching(actors, kind);
        let before = matching(front, kind);
        assert forall|i: int| 0 <= i < actors.len() && (#[trigger] actors[i]).kind == kind implies found.contains(
            ActorId(i as usize),
        ) by {
            if i < front.len() {
                assert(front[i].kind == kind);
                let k = choose|k: int| 0 <= k < before.len() && before[k] == ActorId(i as usize);
                assert(found[k] == ActorId(i as usize));
            } else {
                assert(found[found.len() - 1] == ActorId(i as usize));
            }
        }
    }
}

/// Nobody stands on the tile `(x, y)`.
pub open spec fn vacant(actors: Seq<Actor>, x: int, y: int) -> bool {
    forall|i: int|
        0 <= i < actors.len() ==> !((#[trigger] actors[i]).position.x == x && actors[i].position.y
            == y)
}

/// Whether a newcomer could stand on the tile `(x, y)`: it lies inside the
/// grid, is no wall, and nobody stands on it.
pub open spec fn room_at(w: WorldView, x: int, y: int) -> bool {
    w.map.passable(x, y) && vacant(w.actors, x, y)
}

/// Whether the world has room for `actor` where it wants to stand.
pub open spec fn has_room_for(w: WorldView, actor: Actor) -> bool {
    room_at(w, actor.position.x as int, actor.position.y as int)
}

/// Whether the tile `(x, y)` comes before the tile `(u, v)` when the grid
/// is read row by row from the top, each row from the left.
pub open spec fn reads_before(x: int, y: int, u: int, v: int) -> bool {
    y < v || (y == v && x < u)
}

/// A row whose first `count` tiles after column 0 are all stood on takes
/// at least `count` actors to fill.
pub proof fn lemma_crowded_row(actors: Seq<Actor>, y: int, count: nat)
    requires
        forall|x: int| 1 <= x <= count ==> !vacant(actors, x, y),
    ensures
        actors.len() >= count,
    decreases count,
{
    if count > 0 {
        assert(!vacant(actors, count as int, y));
        let i = choose|i: int|
            0 <= i < actors.len() && (#[trigger] actors[i]).position.x == count
                && actors[i].position.y == y;
        let rest = actors.remove(i);
        assert forall|x: int| 1 <= x <= count - 1 implies !vacant(rest, x, y) by {
            assert(!vacant(actors, x, y));
            let j = choose|j: int|
                0 <= j < actors.len() && (#[trigger] actors[j]).position.x == x
                    && actors[j].position.y == y;
            let k = if j < i {
                j
            } else {
                j - 1
            };
            assert(rest[k] == actors[j]);
        }
        lemma_crowded_row(rest, y, (count - 1) as nat);
    }
}

/// A world with one player, who is its first actor.
pub proof fn lemma_player_leads(actors: Seq<Actor>)
    requires
        0 < actors.len() <= usize::MAX,
        actors[0].kind == ActorKind::Player,
        forall|i: int| 0 < i < actors.len() ==> (#[trigger] actors[i]).kind == ActorKind::Enemy,
    ensures
        single(actors, ActorKind::Player) == Ok::<ActorId, QueryError>(ActorId(0)),
    decreases actors.len(),
{
    if actors.len() == 1 {
        assert(matching(actors.drop_last(), ActorKind::Player) =~= Seq::<ActorId>::empty());
        assert(matching(actors, ActorKind::Player) =~= seq![ActorId(0)]);
    } else {
        lemma_player_leads(actors.drop_last());
        assert(actors.last() == actors[actors.len() - 1]);
    }
}

impl World {
    /// A world on this map with nobody in it, at turn 0.
    pub fn new(map: GameMap) -> (world: Self)
        ensures
            world@ == (WorldView {
                map: map@,
                actors: Seq::empty(),
                journal: Seq::empty(),
                turn: 0,
                input: None,
                commands: Seq::empty(),
            }),
    {
        World {
            map,
            actors: Vec::new(),
            journal: ActionJournal::default(),
            turn: GameTurn(0),
            input: GameInputAction(None),
            commands: Vec::new(),
        }
    }

    /// The identities of the actors of a kind, in the order of insertion.
    pub fn query(&self, kind: ActorKind) -> (found: Vec<ActorId>)
        ensures
            found@ == matching(self.actors@, kind),
    {
        let mut found: Vec<ActorId> = Vec::new();
        let mut i: usize = 0;
        while i < self.actors.len()
            invariant
                i <= self.actors@.len(),
                found@ == matching(self.actors@.take(i as int), kind),
            decreases self.actors@.len() - i,
        {
            assert(self.actors@.take(i + 1).drop_last() =~= self.actors@.take(i as int));
            if self.actors[i].kind == kind {
                found.push(ActorId(i));
            }
            i += 1;
        }
        assert(self.actors@.take(i as int) =~= self.actors@);
        found
    }

    /// The one actor of a kind.
    pub fn get_single(&self, kind: ActorKind) -> (found: Result<ActorId, QueryError>)
        ensures
            found == single(self.actors@, kind),
    {
        let found = self.query(kind);
        if found.len() == 0 {
            Err(QueryError::NotFound)
        } else if found.len() == 1 {
            Ok(found[0])
        } else {
            Err(QueryError::Ambiguous)
        }
    }
    /// Whether nobody stands on the tile at `at`.
    pub fn is_vacant(&self, at: Position) -> (free: bool)
        ensures
            free == vacant(self.actors@, at.x as int, at.y as int),
    {
        let mut i: usize = 0;
        while i < self.actors.len()
            invariant
                i <= self.actors@.len(),
                forall|k: int|
                    0 <= k < i ==> !((#[trigger] self.actors@[k]).position.x == at.x
                        && self.actors@[k].position.y == at.y),
            decreases self.actors@.len() - i,
        {
            if self.actors[i].position.x == at.x && self.actors[i].position.y == at.y {
                return false;
            }
            i += 1;
        }
        true
    }

    /// The first tile, reading the grid row by row, that a newcomer could
    /// stand on; none where the world has no such tile.
    pub fn find_room(&self) -> (seat: Option<Position>)
        requires
            self.map.wf(),
        ensures
            match seat {
                Some(at) => {
                    &&& room_at(self@, at.x as int, at.y as int)
                    &&& forall|x: int, y: int|
                        self@.map.in_bounds(x, y) && reads_before(x, y, at.x as int, at.y as int)
                            ==> !#[trigger] room_at(self@, x, y)
                },
                None => forall|x: int, y: int| !#[trigger] room_at(self@, x, y),
            },
    {
        let mut y: usize = 0;
        while y < self.map.height
            invariant
                y <= self.map.height,
                self.map.wf(),
                forall|a: int, b: int|
                    self@.map.in_bounds(a, b) && b < y ==> !#[trigger] room_at(self@, a, b),
            decreases self.map.height - y,
        {
            let mut x: usize = 0;
            while x < self.map.width
                invariant
                    x <= self.map.width,
                    y < self.map.height,
                    self.map.wf(),
                    forall|a: int, b: int|
                        self@.map.in_bounds(a, b) && b < y ==> !#[trigger] room_at(self@, a, b),
                    forall|a: int| 0 <= a < x ==> !#[trigger] room_at(self@, a, y as int),
                decreases self.map.width - x,
            {
                let at = Position { x, y };
                if !self.map.is_wall(x, y) && self.is_vacant(at) {
                    return Some(at);
                }
                x += 1;
            }
            y += 1;
        }
        None
    }

    /// Puts an actor into the world, as its last, if the world has room for
    /// it, and hands back its identity. Without room the world is left as
    /// it is. A world that stood on good ground still does.
    pub fn spawn(&mut self, actor: Actor) -> (id: Option<ActorId>)
        requires
            old(self).map.wf(),
        ensures
            match id {
                Some(id) => {
                    &&& has_room_for(old(self)@, actor)
                    &&& id.0 == old(self).actors@.len()
                    &&& final(self)@ == (WorldView {
                        actors: old(self).actors@.push(actor),
                        ..old(self)@
                    })
                },
                None => !has_room_for(old(self)@, actor) && *final(self) == *old(self),
            },
            old(self)@.wf() ==> final(self)@.wf(),
    {
        if self.map.is_wall(actor.position.x, actor.position.y) || !self.is_vacant(actor.position) {
            return None;
        }
        let id = ActorId(self.actors.len());
        self.actors.push(actor);
        proof {
            if old(self)@.wf() {
                let before = old(self).actors@;
                let after = self.actors@;
                assert forall|i: int| 0 <= i < after.len() implies self.map@.passable(
                    (#[trigger] after[i]).position.x as int,
                    after[i].position.y as int,
                ) by {
                    if i < before.len() {
                        assert(after[i] == before[i]);
                    }
                }
                assert forall|i: int, j: int|
                    #![trigger after[i], after[j]]
                    0 <= i < after.len() && 0 <= j < after.len() && i != j
                        && after[i].blocks_tile is Some
                        && after[j].blocks_tile is Some implies after[i].position != after[j].position by {
                    if i < before.len() {
                        assert(after[i] == before[i]);
                    }
                    if j < before.len() {
                        assert(after[j] == before[j]);
                    }
                }
            }
        }
        Some(id)
    }
    /// Whether the world stands on good ground: see [`WorldView::wf`].
    pub fn is_well_formed(&self) -> (ok: bool)
        ensures
            ok == self@.wf(),
    {
        if !self.map.is_well_formed() {
            return false;
        }
        let count = self.actors.len();
        let mut i: usize = 0;
        while i < count
            invariant
                i <= count,
                count == self.actors@.len(),
                self.map.wf(),
                forall|k: int|
                    0 <= k < i ==> self.map@.passable(
                        (#[trigger] self.actors@[k]).position.x as int,
                        self.actors@[k].position.y as int,
                    ),
                forall|k: int, l: int|
                    #![trigger self.actors@[k], self.actors@[l]]
                    0 <= k < i && 0 <= l < count && k != l && self.actors@[k].blocks_tile is Some
                        && self.actors@[l].blocks_tile is Some ==> self.actors@[k].position
                        != self.actors@[l].position,
            decreases count - i,
        {
            let actor = &self.actors[i];
            if self.map.is_wall(actor.position.x, actor.position.y) {
                return false;
            }
            if actor.blocks_tile.is_some() {
                let mut j: usize = 0;
                while j < count
                    invariant
                        j <= count,
                        i < count,
                        count == self.actors@.len(),
                        actor == &self.actors@[i as int],
                        actor.blocks_tile is Some,
                        forall|l: int|
                            0 <= l < j && l != i && (#[trigger] self.actors@[l]).blocks_tile is Some
                                ==> self.actors@[l].position != actor.position,
                    decreases count - j,
                {
                    let other = &self.actors[j];
                    if j != i && other.blocks_tile.is_some() && other.position.x == actor.position.x
                        && other.position.y == actor.position.y {
                        assert(!tiles_unshared(self.actors@)) by {
                            let _ = self.actors@[i as int];
                            let _ = self.actors@[j as int];
                        }
                        return false;
                    }
                    j += 1;
                }
            }
            i += 1;
        }
        true
    }
}

} // verus!
