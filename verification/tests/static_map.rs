use terminal_horizon::game::map::{generated_tile, GameMap, Tile};
use terminal_horizon::ui::style::{Color, Style};

fn sample_map() -> GameMap {
    GameMap {
        width: 4,
        height: 3,
        tiles: vec![
            vec![Tile::Wall, Tile::Wall, Tile::Wall, Tile::Wall],
            vec![Tile::Wall, Tile::Floor, Tile::Door, Tile::Water],
            vec![Tile::Floor, Tile::Floor, Tile::Wall, Tile::Floor],
        ],
    }
}

#[test]
fn walls_are_walls_and_so_is_the_outside() {
    let map = sample_map();
    assert!(map.is_wall(0, 0));
    assert!(map.is_wall(2, 2));
    assert!(!map.is_wall(1, 1));
    assert!(!map.is_wall(2, 1));
    assert!(!map.is_wall(3, 1));
    assert!(!map.is_wall(0, 2));
    assert!(map.is_wall(4, 1));
    assert!(map.is_wall(1, 3));
    assert!(map.is_wall(usize::MAX, usize::MAX));
    assert!(map.is_wall(usize::MAX, 0));
}

#[test]
fn empty_map_is_all_wall() {
    let map = GameMap { width: 0, height: 0, tiles: vec![] };
    assert!(map.is_well_formed());
    assert!(map.is_wall(0, 0));
}

#[test]
fn every_tile_has_its_symbol() {
    let map = sample_map();
    assert_eq!(map.get_tile_symbol(1, 1), ".");
    assert_eq!(map.get_tile_symbol(0, 0), "#");
    assert_eq!(map.get_tile_symbol(2, 1), "+");
    assert_eq!(map.get_tile_symbol(3, 1), "~");
}

#[test]
fn every_tile_has_its_style() {
    let map = sample_map();
    assert_eq!(map.get_tile_style(1, 1), Style { fg: Some(Color::DarkGray), bg: None });
    assert_eq!(map.get_tile_style(0, 0), Style { fg: Some(Color::White), bg: None });
    assert_eq!(map.get_tile_style(2, 1), Style { fg: Some(Color::LightYellow), bg: None });
    assert_eq!(map.get_tile_style(3, 1), Style { fg: Some(Color::Blue), bg: None });
}

#[test]
fn style_is_built_colour_by_colour() {
    assert_eq!(Style::new(), Style { fg: None, bg: None });
    assert_eq!(
        Style::new().fg(Color::Red).bg(Color::Black),
        Style { fg: Some(Color::Red), bg: Some(Color::Black) }
    );
    assert_eq!(Style::new().bg(Color::Rgb(1, 2, 3)).fg(Color::Indexed(7)).fg(Color::Cyan), Style {
        fg: Some(Color::Cyan),
        bg: Some(Color::Rgb(1, 2, 3)),
    });
}

#[test]
fn generated_tile_is_wall_on_the_border_and_by_the_roll_inside() {
    for roll in [false, true] {
        assert_eq!(generated_tile(0, 3, 10, 8, roll), Tile::Wall);
        assert_eq!(generated_tile(9, 3, 10, 8, roll), Tile::Wall);
        assert_eq!(generated_tile(4, 0, 10, 8, roll), Tile::Wall);
        assert_eq!(generated_tile(4, 7, 10, 8, roll), Tile::Wall);
        assert_eq!(generated_tile(0, 0, 1, 1, roll), Tile::Wall);
    }
    assert_eq!(generated_tile(1, 1, 10, 8, false), Tile::Floor);
    assert_eq!(generated_tile(8, 6, 10, 8, false), Tile::Floor);
    assert_eq!(generated_tile(1, 1, 10, 8, true), Tile::Wall);
    assert_eq!(generated_tile(8, 6, 10, 8, true), Tile::Wall);
}

#[test]
fn new_map_has_the_size_asked_for_and_a_closed_border() {
    let map = GameMap::new(40, 25);
    assert_eq!(map.width, 40);
    assert_eq!(map.height, 25);
    assert!(map.is_well_formed());
    assert_eq!(map.tiles.len(), 25);
    for row in &map.tiles {
        assert_eq!(row.len(), 40);
    }
    for x in 0..40 {
        assert_eq!(map.tiles[0][x], Tile::Wall);
        assert_eq!(map.tiles[24][x], Tile::Wall);
    }
    for y in 0..25 {
        assert_eq!(map.tiles[y][0], Tile::Wall);
        assert_eq!(map.tiles[y][39], Tile::Wall);
    }
    for row in &map.tiles {
        for tile in row {
            assert!(*tile == Tile::Floor || *tile == Tile::Wall);
        }
    }
}

#[test]
fn new_map_has_a_wall_on_about_every_tenth_tile_inside() {
    // 148 by 118 tiles inside the border, each a wall with a chance of one
    // in ten: the count stays between one in twenty and one in five but
    // for a chance far below one in ten to the hundredth.
    let map = GameMap::new(150, 120);
    let mut walls = 0usize;
    for y in 1..119 {
        for x in 1..149 {
            if map.tiles[y][x] == Tile::Wall {
                walls += 1;
            }
        }
    }
    let inside = 148 * 118;
    assert!(walls > inside / 20);
    assert!(walls < inside / 5);
}

#[test]
fn smallest_maps_are_all_border() {
    let dot = GameMap::new(1, 1);
    assert_eq!(dot.tiles, vec![vec![Tile::Wall]]);
    let strip = GameMap::new(2, 3);
    assert_eq!(strip.tiles, vec![vec![Tile::Wall; 2]; 3]);
}

#[test]
fn opening_a_tile_changes_that_tile_only() {
    let mut map = sample_map();
    map.open_tile(2, 2);
    let mut expected = sample_map();
    expected.tiles[2][2] = Tile::Floor;
    assert_eq!(map, expected);
    map.open_tile(1, 1);
    assert_eq!(map, expected);
    map.open_tile(3, 1);
    expected.tiles[1][3] = Tile::Floor;
    assert_eq!(map, expected);
}

#[test]
fn ragged_maps_are_told_apart() {
    let mut short = sample_map();
    short.tiles.pop();
    assert!(!short.is_well_formed());
    let mut ragged = sample_map();
    ragged.tiles[1].push(Tile::Floor);
    assert!(!ragged.is_well_formed());
    let mut wide = sample_map();
    wide.width = 5;
    assert!(!wide.is_well_formed());
    assert!(sample_map().is_well_formed());
}
