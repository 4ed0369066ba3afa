//! The application around the world: which screen is up, and what a key
//! does on it.

use crate::game::action_log::ActionLog;
use crate::game::ai::IDLE_CHOICES;
use crate::game::components::{
    ActorId, BasicAi, BlocksTile, Health, Name, Position, Renderable, Stats,
};
use crate::game::map::{may_generate, GameMap, Tile};
use crate::game::rng::random_range;
use crate::game::turn::{at_rest, mindless, playable, refused, resolved_turn, TurnError};
use crate::game::world::{
    lemma_crowded_row, lemma_player_leads, reads_before, room_at, single, vacant, Actor,
    ActorKind, Command, QueryError, World, WorldView,
};
use crate::input::handlers::{
    game_action_of, handle_game_input, handle_menu_input, menu_action_of, GameAction, KeyEvent,
    MenuAction,
};
use crate::ui::style::Color;
use vstd::prelude::*;

verus! {

/// The screens of the application.
#[derive(Clone, Copy, PartialEq, Eq, Debug, Structural)]
pub enum AppScreen {
    MainMenu,
    Options,
    Game,
}

/// The action that the player has asked for and that no turn has resolved
/// yet.
#[derive(Clone, Copy, PartialEq, Eq, Debug, Structural)]
pub struct GameInputAction(pub Option<GameAction>);

/// The stages of a turn, in the order in which a turn runs them. `Combat`
/// has no work yet.
#[derive(Clone, Copy, PartialEq, Eq, Debug, Hash, Structural)]
pub enum GameSystemSet {
    Input,
    AI,
    ApplyCommands,
    Movement,
    Combat,
    TurnEnd,
}

/// How many enemies a new world is meant to hold.
pub const ENEMIES_COUNT: usize = 10;

pub const MAP_WIDTH: usize = 150;

pub const MAP_HEIGHT: usize = 120;

/// How many places are drawn at random, all in all, to seat the enemies of
/// a new world. The seats that are still open after that are filled
/// without a draw.
pub const SPAWN_ATTEMPTS: usize = 10000;

/// How many entries the main menu has: new game, continue, options, quit.
pub const MENU_ITEM_COUNT: usize = 4;

/// The application: the screen that is up, whether to leave, where the
/// menu's cursor is, and the world of the game.
#[derive(PartialEq, Eq, Debug)]
pub struct App {
    pub screen: AppScreen,
    pub should_quit: bool,
    pub menu_index: usize,
    pub world: World,
}

/// The application as a value.
#[verifier::ext_equal]
pub struct AppView {
    pub screen: AppScreen,
    pub should_quit: bool,
    pub menu_index: usize,
    pub world: WorldView,
}

impl View for App {
    type V = AppView;

    open spec fn view(&self) -> AppView {
        AppView {
            screen: self.screen,
            should_quit: self.should_quit,
            menu_index: self.menu_index,
            world: self.world@,
        }
    }
}

impl Clone for App {
    fn clone(&self) -> (copy: Self)
        ensures
            copy@ == self@,
    {
        App {
            screen: self.screen,
            should_quit: self.should_quit,
            menu_index: self.menu_index,
            world: self.world.clone(),
        }
    }
}

/// The hero that every new world starts with: the player, at column 2 of
/// row 2, with a hundred points of health.
pub open spec fn is_hero(actor: Actor) -> bool {
    &&& actor.kind == ActorKind::Player
    &&& actor.name.0@ == "Hero"@
    &&& actor.position == (Position { x: 2, y: 2 })
    &&& actor.renderable.symbol@ == "u"@
    &&& actor.renderable.fg == Color::Yellow
    &&& actor.renderable.bg == Color::Reset
    &&& actor.stats == Some(
        Stats { health: Health { hp: 100, max_hp: 100 }, attack: 10, defense: 5 },
    )
    &&& actor.ai is None
    &&& actor.blocks_tile is None
    &&& actor.wants_to_move is None
    &&& actor.wants_to_attack is None
}

/// A goblin as a new world seats it: an enemy that blocks its tile, idle,
/// with a view of radius 8.
pub open spec fn is_goblin(actor: Actor) -> bool {
    &&& actor.kind == ActorKind::Enemy
    &&& actor.name.0@ == "Goblin"@
    &&& actor.renderable.symbol@ == "g"@
    &&& actor.renderable.fg == Color::LightRed
    &&& actor.renderable.bg == Color::Reset
    &&& actor.stats == Some(Stats { health: Health { hp: 20, max_hp: 20 }, attack: 5, defense: 2 })
    &&& actor.ai == Some(BasicAi::new_spec(8))
    &&& actor.blocks_tile is Some
    &&& actor.wants_to_move is None
    &&& actor.wants_to_attack is None
}

/// What a menu action makes of the application.
pub open spec fn menu_action_applied(app: AppView, action: MenuAction) -> AppView {
    match action {
        MenuAction::NavigateUp => if app.menu_index > 0 {
            AppView { menu_index: (app.menu_index - 1) as usize, ..app }
        } else {
            app
        },
        MenuAction::NavigateDown => if app.menu_index < MENU_ITEM_COUNT - 1 {
            AppView { menu_index: (app.menu_index + 1) as usize, ..app }
        } else {
            app
        },
        MenuAction::Select => if app.menu_index == 0 || app.menu_index == 1 {
            AppView { screen: AppScreen::Game, ..app }
        } else if app.menu_index == 3 {
            AppView { should_quit: true, ..app }
        } else {
            app
        },
        MenuAction::Quit => AppView { should_quit: true, ..app },
    }
}

/// What a key makes of the application. On the menu the key's menu action
/// is applied. In the game the key's action becomes the pending one, except
/// that opening the menu and quitting are done on the spot and leave no
/// action pending. The options screen takes no key.
pub open spec fn key_handled(app: AppView, key: KeyEvent) -> AppView {
    match app.screen {
        AppScreen::MainMenu => match menu_action_of(key.code) {
            Some(action) => menu_action_applied(app, action),
            None => app,
        },
        AppScreen::Game => match game_action_of(key.code) {
            Some(GameAction::OpenMenu) => AppView {
                screen: AppScreen::MainMenu,
                world: WorldView { input: None, ..app.world },
                ..app
            },
            Some(GameAction::Quit) => AppView {
                should_quit: true,
                world: WorldView { input: None, ..app.world },
                ..app
            },
            pending => AppView { world: WorldView { input: pending, ..app.world }, ..app },
        },
        AppScreen::Options => app,
    }
}

/// The hero: see [`is_hero`].
fn hero() -> (actor: Actor)
    ensures
        is_hero(actor),
{
    Actor {
        kind: ActorKind::Player,
        name: Name("Hero".to_owned()),
        position: Position { x: 2, y: 2 },
        renderable: Renderable { symbol: "u".to_owned(), fg: Color::Yellow, bg: Color::Reset },
        stats: Some(Stats { health: Health::new(100), attack: 10, defense: 5 }),
        ai: None,
        blocks_tile: None,
        wants_to_move: None,
        wants_to_attack: None,
    }
}

/// A goblin at `(x, y)`: see [`is_goblin`].
fn goblin(x: usize, y: usize) -> (actor: Actor)
    ensures
        is_goblin(actor),
        actor.position == (Position { x, y }),
{
    Actor {
        kind: ActorKind::Enemy,
        name: Name("Goblin".to_owned()),
        position: Position { x, y },
        renderable: Renderable { symbol: "g".to_owned(), fg: Color::LightRed, bg: Color::Reset },
        stats: Some(Stats { health: Health::new(20), attack: 5, defense: 2 }),
        ai: Some(BasicAi::new(8)),
        blocks_tile: Some(BlocksTile),
        wants_to_move: None,
        wants_to_attack: None,
    }
}

/// The first column after column 0 whose tile in row 1 nobody stands on. A
/// world of at most [`ENEMIES_COUNT`] actors has one among the first
/// [`ENEMIES_COUNT`] + 1.
fn vacant_in_row_one(world: &World) -> (x: usize)
    requires
        world.actors@.len() <= ENEMIES_COUNT,
    ensures
        1 <= x <= ENEMIES_COUNT + 1,
        vacant(world.actors@, x as int, 1),
        forall|a: int| 1 <= a < x ==> !#[trigger] vacant(world.actors@, a, 1),
{
    let mut x: usize = 1;
    while x <= ENEMIES_COUNT
        invariant
            1 <= x <= ENEMIES_COUNT + 1,
            forall|a: int| 1 <= a < x ==> !#[trigger] vacant(world.actors@, a, 1),
        decreases ENEMIES_COUNT + 1 - x,
    {
        if world.is_vacant(Position { x, y: 1 }) {
            return x;
        }
        x += 1;
    }
    proof {
        if !vacant(world.actors@, x as int, 1) {
            lemma_crowded_row(world.actors@, 1, (ENEMIES_COUNT + 1) as nat);
        }
    }
    x
}

/// Seats one more goblin without a draw: on the first tile, reading the
/// grid row by row, that has room for it. Where the world has no such tile,
/// the first tile of row 1, after column 0, that nobody stands on is
/// opened, and the goblin is seated there.
pub fn seat_goblin(world: &mut World) -> (id: ActorId)
    requires
        old(world)@.wf(),
        old(world).actors@.len() <= ENEMIES_COUNT,
        old(world).map.width > ENEMIES_COUNT + 2,
        old(world).map.height > 2,
    ensures
        id.0 == old(world).actors@.len(),
        final(world).actors@.len() == old(world).actors@.len() + 1,
        final(world).actors@.subrange(0, id.0 as int) == old(world).actors@,
        is_goblin(final(world).actors@[id.0 as int]),
        final(world)@ == (WorldView {
            actors: final(world)@.actors,
            map: final(world)@.map,
            ..old(world)@
        }),
        final(world)@.wf(),
        ({
            let at = final(world).actors@[id.0 as int].position;
            if exists|x: int, y: int| room_at(old(world)@, x, y) {
                &&& final(world)@.map == old(world)@.map
                &&& room_at(old(world)@, at.x as int, at.y as int)
                &&& forall|x: int, y: int|
                    old(world)@.map.in_bounds(x, y) && reads_before(x, y, at.x as int, at.y as int)
                        ==> !#[trigger] room_at(old(world)@, x, y)
            } else {
                &&& final(world)@.map == old(world)@.map.with_tile(
                    at.x as int,
                    at.y as int,
                    Tile::Floor,
                )
                &&& at.y == 1
                &&& 1 <= at.x <= ENEMIES_COUNT + 1
                &&& vacant(old(world).actors@, at.x as int, at.y as int)
                &&& forall|x: int| 1 <= x < at.x ==> !#[trigger] vacant(old(world).actors@, x, 1)
            }
        }),
{
    let at = match world.find_room() {
        Some(at) => {
            assert(room_at(old(world)@, at.x as int, at.y as int));
            at
        },
        None => {
            assert(!exists|x: int, y: int| room_at(old(world)@, x, y));
            let x = vacant_in_row_one(world);
            world.map.open_tile(x, 1);
            proof {
                let before = old(world)@;
                let after = world@;
                assert forall|i: int| 0 <= i < after.actors.len() implies after.map.passable(
                    (#[trigger] after.actors[i]).position.x as int,
                    after.actors[i].position.y as int,
                ) by {
                    assert(before.map.passable(
                        before.actors[i].position.x as int,
                        before.actors[i].position.y as int,
                    ));
                }
            }
            Position { x, y: 1 }
        },
    };
    let id = world.spawn(goblin(at.x, at.y));
    assert(id is Some);
    assert(world.actors@.subrange(0, old(world).actors@.len() as int) == old(world).actors@);
    id.unwrap()
}

impl App {
    /// A new application on the main menu, with a fresh world.
    ///
    /// The map is generated at random, and the hero's tile is opened
    /// should a wall have come to stand on it. Goblins are then seated one
    /// by one on tiles drawn at random from inside the border: a draw
    /// that hits a wall or a tile that somebody stands on is thrown away.
    /// Should [`SPAWN_ATTEMPTS`] draws not have seated them all, the rest
    /// is seated by [`seat_goblin`]. So whatever the draws were, the world
    /// holds its hero and [`ENEMIES_COUNT`] goblins, stands on good ground
    /// and is playable.
    pub fn new() -> (app: Self)
        ensures
            app.screen == AppScreen::MainMenu,
            !app.should_quit,
            app.menu_index == 0,
            app.world@.wf(),
            app.world.map.width == MAP_WIDTH,
            app.world.map.height == MAP_HEIGHT,
            forall|x: int, y: int|
                app.world@.map.in_bounds(x, y) ==> may_generate(
                    #[trigger] app.world@.map.tile_at(x, y),
                    x,
                    y,
                    MAP_WIDTH as int,
                    MAP_HEIGHT as int,
                ),
            app.world@.turn == 0,
            app.world@.journal == Seq::<ActionLog>::empty(),
            app.world@.input is None,
            app.world@.commands == Seq::<Command>::empty(),
            app.world@.actors.len() == 1 + ENEMIES_COUNT,
            is_hero(app.world@.actors[0]),
            forall|i: int| 1 <= i < app.world@.actors.len() ==> is_goblin(#[trigger] app.world@.actors[i]),
            single(app.world@.actors, ActorKind::Player) == Ok::<ActorId, QueryError>(ActorId(0)),
            playable(app.world@.actors),
            at_rest(app.world@.actors),
    {
        let mut map = GameMap::new(MAP_WIDTH, MAP_HEIGHT);
        let ghost generated = map@;
        map.open_tile(2, 2);
        let ghost opened = map@;
        assert forall|x: int, y: int| opened.in_bounds(x, y) implies may_generate(
            #[trigger] opened.tile_at(x, y),
            x,
            y,
            MAP_WIDTH as int,
            MAP_HEIGHT as int,
        ) by {
            if !(x == 2 && y == 2) {
                assert(generated.in_bounds(x, y));
                assert(opened.tile_at(x, y) == generated.tile_at(x, y));
            }
        }
        let mut world = World::new(map);
        let seated = world.spawn(hero());
        assert(seated is Some) by {
            assert(world.map.tile_at(2, 2) == Tile::Floor);
        }
        let mut generator = rand::rng();
        let mut enemy_count: usize = 0;
        let mut attempts: usize = 0;
        while enemy_count < ENEMIES_COUNT && attempts < SPAWN_ATTEMPTS
            invariant
                enemy_count <= ENEMIES_COUNT,
                attempts <= SPAWN_ATTEMPTS,
                world@.wf(),
                world@.map == opened,
                world@.turn == 0,
                world@.journal == Seq::<ActionLog>::empty(),
                world@.input is None,
                world@.commands == Seq::<Command>::empty(),
                world@.actors.len() == 1 + enemy_count,
                is_hero(world@.actors[0]),
                forall|i: int| 1 <= i < world@.actors.len() ==> is_goblin(#[trigger] world@.actors[i]),
            decreases SPAWN_ATTEMPTS - attempts,
        {
            let x_pos = random_range(&mut generator, 1, MAP_WIDTH);
            let y_pos = random_range(&mut generator, 1, MAP_HEIGHT);
            if world.spawn(goblin(x_pos, y_pos)).is_some() {
                enemy_count += 1;
            }
            attempts += 1;
        }
        while enemy_count < ENEMIES_COUNT
            invariant
                enemy_count <= ENEMIES_COUNT,
                world@.wf(),
                world.map.width == MAP_WIDTH,
                world.map.height == MAP_HEIGHT,
                forall|x: int, y: int|
                    world@.map.in_bounds(x, y) ==> may_generate(
                        #[trigger] world@.map.tile_at(x, y),
                        x,
                        y,
                        MAP_WIDTH as int,
                        MAP_HEIGHT as int,
                    ),
                world@.turn == 0,
                world@.journal == Seq::<ActionLog>::empty(),
                world@.input is None,
                world@.commands == Seq::<Command>::empty(),
                world@.actors.len() == 1 + enemy_count,
                is_hero(world@.actors[0]),
                forall|i: int| 1 <= i < world@.actors.len() ==> is_goblin(#[trigger] world@.actors[i]),
            decreases ENEMIES_COUNT - enemy_count,
        {
            let ghost before = world@;
            let id = seat_goblin(&mut world);
            proof {
                let after = world@;
                assert forall|i: int| 0 <= i < before.actors.len() implies #[trigger] after.actors[i]
                    == before.actors[i] by {
                    assert(after.actors.subrange(0, id.0 as int)[i] == after.actors[i]);
                }
                assert forall|x: int, y: int| after.map.in_bounds(x, y) implies may_generate(
                    #[trigger] after.map.tile_at(x, y),
                    x,
                    y,
                    MAP_WIDTH as int,
                    MAP_HEIGHT as int,
                ) by {
                    assert(before.map.in_bounds(x, y));
                    let at = after.actors[id.0 as int].position;
                    if after.map != before.map && !(x == at.x && y == at.y) {
                        assert(after.map.tile_at(x, y) == before.map.tile_at(x, y));
                    }
                }
            }
            enemy_count += 1;
        }
        proof {
            let actors = world@.actors;
            assert forall|i: int| 0 < i < actors.len() implies (#[trigger] actors[i]).kind
                == ActorKind::Enemy by {
                assert(is_goblin(actors[i]));
            }
            lemma_player_leads(actors);
            assert forall|i: int| 0 <= i < actors.len() implies !mindless(#[trigger] actors[i]) by {
                if i > 0 {
                    assert(is_goblin(actors[i]));
                }
            }
            assert forall|i: int| 0 <= i < actors.len() implies (#[trigger] actors[i]).wants_to_move is None
                && actors[i].wants_to_attack is None by {
                if i > 0 {
                    assert(is_goblin(actors[i]));
                }
            }
        }
        Self { screen: AppScreen::MainMenu, should_quit: false, menu_index: 0, world }
    }

    /// Applies what the main menu was asked to do.
    pub fn apply_menu_action(&mut self, action: MenuAction)
        ensures
            final(self)@ == menu_action_applied(old(self)@, action),
    {
        match action {
            MenuAction::NavigateUp => {
                if self.menu_index > 0 {
                    self.menu_index -= 1;
                }
            },
            MenuAction::NavigateDown => {
                if self.menu_index < MENU_ITEM_COUNT - 1 {
                    self.menu_index += 1;
                }
            },
            MenuAction::Select => match self.menu_index {
                0 | 1 => self.screen = AppScreen::Game,
                2 => {},
                3 => self.should_quit = true,
                _ => {},
            },
            MenuAction::Quit => self.should_quit = true,
        }
    }

    /// Handles one key press and says whether the application is to quit.
    pub fn handle_events(&mut self, key: KeyEvent) -> (quit: bool)
        ensures
            final(self)@ == key_handled(old(self)@, key),
            quit == final(self).should_quit,
    {
        match self.screen {
            AppScreen::MainMenu => {
                if let Some(action) = handle_menu_input(key) {
                    self.apply_menu_action(action);
                }
            },
            AppScreen::Game => {
                self.world.input = GameInputAction(handle_game_input(key));
                if matches!(self.world.input.0, Some(GameAction::OpenMenu)) {
                    self.screen = AppScreen::MainMenu;
                    self.world.input = GameInputAction(None);
                } else if matches!(self.world.input.0, Some(GameAction::Quit)) {
                    self.should_quit = true;
                    self.world.input = GameInputAction(None);
                }
            },
            AppScreen::Options => {},
        }
        self.should_quit
    }

    /// Resolves the pending turn, if there is one, and says whether it
    /// did. The rolls that idle enemies wander by are drawn from the
    /// thread's random source, so the world that results is what
    /// [`resolved_turn`] gives for some rolls, each below
    /// [`IDLE_CHOICES`]. Without a pending action nothing is drawn and
    /// nothing changes; a world that is not playable is left untouched
    /// too, with the fault handed back.
    pub fn run_schedule(&mut self) -> (outcome: Result<bool, TurnError>)
        requires
            old(self).world.map.wf(),
            old(self).world.input.0 is Some ==> old(self).world.turn.0 < u32::MAX,
        ensures
            final(self).screen == old(self).screen,
            final(self).should_quit == old(self).should_quit,
            final(self).menu_index == old(self).menu_index,
            old(self).world.input.0 is None ==> outcome == Ok::<bool, TurnError>(false)
                && final(self).world == old(self).world,
            old(self).world.input.0 is Some ==> match outcome {
                Ok(ran) => {
                    &&& ran
                    &&& playable(old(self).world.actors@)
                    &&& exists|rolls: Seq<usize>|
                        {
                            &&& rolls.len() == old(self).world.actors@.len()
                            &&& forall|i: int| 0 <= i < rolls.len() ==> (#[trigger] rolls[i]) < IDLE_CHOICES
                            &&& final(self).world@ == #[trigger] resolved_turn(old(self).world@, rolls)
                        }
                },
                Err(error) => refused(old(self).world.actors@, error)
                    && final(self).world == old(self).world,
            },
            outcome == Ok::<bool, TurnError>(true) ==> final(self).world.turn.0
                == old(self).world.turn.0 + 1,
            old(self).world@.wf() ==> final(self).world@.wf(),
    {
        if self.world.input.0.is_none() {
            return Ok(false);
        }
        let rolls = self.world.idle_rolls();
        let outcome = self.world.run_turn_if_pending(&rolls);
        proof {
            if outcome is Ok {
                assert(self.world@ == resolved_turn(old(self).world@, rolls@));
            }
        }
        outcome
    }
}

} // verus!
