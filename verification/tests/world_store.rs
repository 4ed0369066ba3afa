use terminal_horizon::app::GameInputAction;
use terminal_horizon::game::components::{
    ActorId, BasicAi, BlocksTile, Name, Position, Renderable,
};
use terminal_horizon::game::map::{GameMap, Tile};
use terminal_horizon::game::world::{Actor, ActorKind, QueryError, World};
use terminal_horizon::ui::style::Color;

fn store_map() -> GameMap {
    let mut map = GameMap { width: 5, height: 4, tiles: vec![vec![Tile::Floor; 5]; 4] };
    map.tiles[1][1] = Tile::Wall;
    map.tiles[2][3] = Tile::Water;
    map.tiles[3][4] = Tile::Door;
    map
}

fn store_actor(kind: ActorKind, x: usize, y: usize) -> Actor {
    Actor {
        kind,
        name: Name("somebody".to_string()),
        position: Position { x, y },
        renderable: Renderable { symbol: "s".to_string(), fg: Color::Green, bg: Color::Reset },
        stats: None,
        ai: match kind {
            ActorKind::Player => None,
            ActorKind::Enemy => Some(BasicAi::new(3)),
        },
        blocks_tile: Some(BlocksTile),
        wants_to_move: None,
        wants_to_attack: None,
    }
}

#[test]
fn new_world_is_empty_and_at_turn_zero() {
    let world = World::new(store_map());
    assert_eq!(world.map, store_map());
    assert!(world.actors.is_empty());
    assert!(world.journal.entries.is_empty());
    assert_eq!(world.turn.0, 0);
    assert_eq!(world.input, GameInputAction(None));
    assert!(world.commands.is_empty());
    assert!(world.is_well_formed());
}

#[test]
fn spawn_seats_actors_in_order() {
    let mut world = World::new(store_map());
    assert_eq!(world.spawn(store_actor(ActorKind::Enemy, 0, 0)), Some(ActorId(0)));
    assert_eq!(world.spawn(store_actor(ActorKind::Player, 3, 2)), Some(ActorId(1)));
    assert_eq!(world.spawn(store_actor(ActorKind::Enemy, 4, 3)), Some(ActorId(2)));
    assert_eq!(world.actors.len(), 3);
    assert_eq!(world.actors[1], store_actor(ActorKind::Player, 3, 2));
    assert!(world.is_well_formed());
}

#[test]
fn spawn_refuses_walls_the_outside_and_taken_tiles() {
    let mut world = World::new(store_map());
    assert_eq!(world.spawn(store_actor(ActorKind::Enemy, 2, 2)), Some(ActorId(0)));
    let before = world.clone();
    assert_eq!(world.spawn(store_actor(ActorKind::Enemy, 1, 1)), None);
    assert_eq!(world.spawn(store_actor(ActorKind::Enemy, 5, 0)), None);
    assert_eq!(world.spawn(store_actor(ActorKind::Enemy, 0, 4)), None);
    assert_eq!(world.spawn(store_actor(ActorKind::Player, 2, 2)), None);
    let mut soft = store_actor(ActorKind::Enemy, 2, 2);
    soft.blocks_tile = None;
    assert_eq!(world.spawn(soft), None);
    assert_eq!(world, before);
}

#[test]
fn vacancy_is_about_every_actor() {
    let mut world = World::new(store_map());
    let mut soft = store_actor(ActorKind::Enemy, 2, 2);
    soft.blocks_tile = None;
    world.spawn(soft);
    assert!(!world.is_vacant(Position { x: 2, y: 2 }));
    assert!(world.is_vacant(Position { x: 2, y: 1 }));
    assert!(world.is_vacant(Position { x: 1, y: 1 }));
    assert!(world.is_vacant(Position { x: 99, y: 99 }));
}

#[test]
fn query_lists_a_kind_in_order_of_insertion() {
    let mut world = World::new(store_map());
    assert_eq!(world.query(ActorKind::Enemy), Vec::<ActorId>::new());
    world.spawn(store_actor(ActorKind::Enemy, 0, 0));
    world.spawn(store_actor(ActorKind::Player, 3, 2));
    world.spawn(store_actor(ActorKind::Enemy, 4, 3));
    world.spawn(store_actor(ActorKind::Enemy, 2, 0));
    assert_eq!(world.query(ActorKind::Enemy), vec![ActorId(0), ActorId(2), ActorId(3)]);
    assert_eq!(world.query(ActorKind::Player), vec![ActorId(1)]);
}

#[test]
fn single_actor_is_found_missing_or_ambiguous() {
    let mut world = World::new(store_map());
    assert_eq!(world.get_single(ActorKind::Player), Err(QueryError::NotFound));
    world.spawn(store_actor(ActorKind::Enemy, 0, 0));
    assert_eq!(world.get_single(ActorKind::Player), Err(QueryError::NotFound));
    assert_eq!(world.get_single(ActorKind::Enemy), Ok(ActorId(0)));
    world.spawn(store_actor(ActorKind::Player, 3, 2));
    assert_eq!(world.get_single(ActorKind::Player), Ok(ActorId(1)));
    world.spawn(store_actor(ActorKind::Player, 4, 3));
    assert_eq!(world.get_single(ActorKind::Player), Err(QueryError::Ambiguous));
    world.spawn(store_actor(ActorKind::Enemy, 2, 0));
    assert_eq!(world.get_single(ActorKind::Enemy), Err(QueryError::Ambiguous));
}

#[test]
fn world_on_bad_ground_is_told_apart() {
    let mut on_wall = World::new(store_map());
    on_wall.actors.push(store_actor(ActorKind::Player, 1, 1));
    assert!(!on_wall.is_well_formed());

    let mut outside = World::new(store_map());
    outside.actors.push(store_actor(ActorKind::Player, 0, 9));
    assert!(!outside.is_well_formed());

    let mut stacked = World::new(store_map());
    stacked.actors.push(store_actor(ActorKind::Enemy, 2, 2));
    stacked.actors.push(store_actor(ActorKind::Player, 0, 0));
    stacked.actors.push(store_actor(ActorKind::Enemy, 2, 2));
    assert!(!stacked.is_well_formed());
    stacked.actors[2].blocks_tile = None;
    assert!(stacked.is_well_formed());

    let mut ragged = World::new(store_map());
    ragged.map.tiles[2].pop();
    assert!(!ragged.is_well_formed());
}

#[test]
fn room_is_found_in_reading_order() {
    let mut world = World::new(store_map());
    world.map.tiles[0][0] = Tile::Wall;
    assert_eq!(world.find_room(), Some(Position { x: 1, y: 0 }));
    world.spawn(store_actor(ActorKind::Enemy, 1, 0));
    assert_eq!(world.find_room(), Some(Position { x: 2, y: 0 }));
    for x in 2..5 {
        world.map.tiles[0][x] = Tile::Wall;
    }
    assert_eq!(world.find_room(), Some(Position { x: 0, y: 1 }));
    world.spawn(store_actor(ActorKind::Player, 0, 1));
    // The tile after it is a wall, the next one is free.
    assert_eq!(world.find_room(), Some(Position { x: 2, y: 1 }));
}

#[test]
fn no_room_is_found_in_a_full_world() {
    let mut world = World::new(GameMap { width: 2, height: 2, tiles: vec![vec![Tile::Wall; 2]; 2] });
    assert_eq!(world.find_room(), None);
    world.map.tiles[1][1] = Tile::Water;
    assert_eq!(world.find_room(), Some(Position { x: 1, y: 1 }));
    let mut soft = store_actor(ActorKind::Enemy, 1, 1);
    soft.blocks_tile = None;
    world.spawn(soft);
    assert_eq!(world.find_room(), None);
    let empty = World::new(GameMap { width: 0, height: 0, tiles: vec![] });
    assert_eq!(empty.find_room(), None);
}
