//! The static map: a grid of tiles that no turn changes.

use crate::game::rng::random_ratio;
use crate::ui::style::{Color, Style};
use vstd::prelude::*;

verus! {

#[derive(Clone, Copy, PartialEq, Eq, Debug, Structural)]
pub enum Tile {
    Floor,
    Wall,
    Door,
    Water,
}

/// A grid of `width` columns and `height` rows. `tiles` holds the rows, top
/// row first; the tile at column `x` of row `y` is `tiles[y][x]`.
#[derive(PartialEq, Eq, Debug)]
pub struct GameMap {
    pub width: usize,
    pub height: usize,
    pub tiles: Vec<Vec<Tile>>,
}

/// Whether `(x, y)` lies on the outer ring of a `width` by `height` grid.
pub open spec fn on_border(x: int, y: int, width: int, height: int) -> bool {
    x == 0 || y == 0 || x == width - 1 || y == height - 1
}

/// The tile that map generation puts at `(x, y)` when the wall roll for that
/// tile came out as `wall_roll`: the border is walled whatever the roll, and
/// inside it a tile is a wall exactly when its roll says so.
pub open spec fn generated_tile_spec(x: int, y: int, width: int, height: int, wall_roll: bool)
    -> Tile {
    if on_border(x, y, width, height) || wall_roll {
        Tile::Wall
    } else {
        Tile::Floor
    }
}

/// Whether map generation can put `tile` at `(x, y)`: what one of the two
/// outcomes of that tile's wall roll gives.
pub open spec fn may_generate(tile: Tile, x: int, y: int, width: int, height: int) -> bool {
    tile == generated_tile_spec(x, y, width, height, true) || tile == generated_tile_spec(
        x,
        y,
        width,
        height,
        false,
    )
}

/// The glyph that stands for a tile.
pub open spec fn tile_symbol(tile: Tile) -> Seq<char> {
    match tile {
        Tile::Floor => seq!['.'],
        Tile::Wall => seq!['#'],
        Tile::Door => seq!['+'],
        Tile::Water => seq!['~'],
    }
}

/// The foreground colour that a tile is drawn in.
pub open spec fn tile_color(tile: Tile) -> Color {
    match tile {
        Tile::Floor => Color::DarkGray,
        Tile::Wall => Color::White,
        Tile::Door => Color::LightYellow,
        Tile::Water => Color::Blue,
    }
}

/// See [`generated_tile_spec`].
pub fn generated_tile(x: usize, y: usize, width: usize, height: usize, wall_roll: bool) -> (tile:
    Tile)
    requires
        x < width,
        y < height,
    ensures
        tile == generated_tile_spec(x as int, y as int, width as int, height as int, wall_roll),
{
    if x == 0 || y == 0 || x == width - 1 || y == height - 1 || wall_roll {
        Tile::Wall
    } else {
        Tile::Floor
    }
}

/// The map as a value: its size and its rows of tiles, top row first.
#[verifier::ext_equal]
pub struct GameMapView {
    pub width: usize,
    pub height: usize,
    pub tiles: Seq<Seq<Tile>>,
}

impl GameMapView {
    /// The rows are as many as `height` says, and each is `width` long.
    pub open spec fn wf(self) -> bool {
        &&& self.tiles.len() == self.height
        &&& forall|y: int| 0 <= y < self.height ==> (#[trigger] self.tiles[y]).len() == self.width
    }

    pub open spec fn in_bounds(self, x: int, y: int) -> bool {
        0 <= x < self.width && 0 <= y < self.height
    }

    pub open spec fn tile_at(self, x: int, y: int) -> Tile
        recommends
            self.in_bounds(x, y),
    {
        self.tiles[y][x]
    }

    /// What lies outside the grid counts as wall.
    pub open spec fn wall_at(self, x: int, y: int) -> bool {
        !self.in_bounds(x, y) || self.tile_at(x, y) == Tile::Wall
    }

    /// A tile that an actor may stand on: inside the grid and no wall.
    pub open spec fn passable(self, x: int, y: int) -> bool {
        !self.wall_at(x, y)
    }

    /// This map with the tile at `(x, y)` replaced.
    pub open spec fn with_tile(self, x: int, y: int, tile: Tile) -> Self
        recommends
            self.in_bounds(x, y),
    {
        GameMapView { tiles: self.tiles.update(y, self.tiles[y].update(x, tile)), ..self }
    }
}

impl View for GameMap {
    type V = GameMapView;

    open spec fn view(&self) -> GameMapView {
        GameMapView {
            width: self.width,
            height: self.height,
            tiles: Seq::new(self.tiles@.len(), |y: int| self.tiles@[y]@),
        }
    }
}

impl Clone for GameMap {
    fn clone(&self) -> (copy: Self)
        ensures
            copy@ == self@,
    {
        let mut tiles: Vec<Vec<Tile>> = Vec::new();
        let mut y: usize = 0;
        while y < self.tiles.len()
            invariant
                y <= self.tiles@.len(),
                tiles@.len() == y,
                forall|j: int| 0 <= j < y ==> (#[trigger] tiles@[j])@ == self.tiles@[j]@,
            decreases self.tiles@.len() - y,
        {
            let mut row: Vec<Tile> = Vec::new();
            let mut x: usize = 0;
            while x < self.tiles[y].len()
                invariant
                    y < self.tiles@.len(),
                    x <= self.tiles@[y as int]@.len(),
                    row@.len() == x,
                    forall|i: int| 0 <= i < x ==> #[trigger] row@[i] == self.tiles@[y as int]@[i],
                decreases self.tiles@[y as int]@.len() - x,
            {
                row.push(self.tiles[y][x]);
                x += 1;
            }
            assert(row@ =~= self.tiles@[y as int]@);
            tiles.push(row);
            y += 1;
        }
        let copy = GameMap { width: self.width, height: self.height, tiles };
        assert(copy@.tiles =~= self@.tiles);
        copy
    }
}

impl GameMap {
    /// The rows of the map's view are the views of the map's rows.
    proof fn lemma_rows(&self)
        ensures
            self@.tiles.len() == self.tiles@.len(),
            forall|y: int|
                0 <= y < self.tiles@.len() ==> self@.tiles[y] == (#[trigger] self.tiles@[y])@,
    {
    }

    /// See [`GameMapView::wf`].
    pub open spec fn wf(&self) -> bool {
        self@.wf()
    }

    pub open spec fn in_bounds(&self, x: int, y: int) -> bool {
        self@.in_bounds(x, y)
    }

    pub open spec fn tile_at(&self, x: int, y: int) -> Tile
        recommends
            self.in_bounds(x, y),
    {
        self@.tile_at(x, y)
    }

    /// See [`GameMapView::wall_at`].
    pub open spec fn wall_at(&self, x: int, y: int) -> bool {
        self@.wall_at(x, y)
    }

    /// A map of the given size with a wall on about every tenth tile, chosen
    /// at random, and a closed border of walls.
    ///
    /// One roll is drawn for every tile, row by row, the border's tiles
    /// included. Whatever the rolls were, the border is wall and every
    /// other tile is floor or wall.
    pub fn new(width: usize, height: usize) -> (map: Self)
        requires
            width > 0,
            height > 0,
        ensures
            map.wf(),
            map.width == width,
            map.height == height,
            forall|x: int, y: int|
                map@.in_bounds(x, y) ==> may_generate(
                    #[trigger] map@.tile_at(x, y),
                    x,
                    y,
                    width as int,
                    height as int,
                ),
    {
        let mut generator = rand::rng();
        let mut tiles: Vec<Vec<Tile>> = Vec::new();
        let mut y: usize = 0;
        while y < height
            invariant
                y <= height,
                tiles@.len() == y,
                forall|j: int| 0 <= j < y ==> (#[trigger] tiles@[j])@.len() == width,
                forall|i: int, j: int|
                    0 <= j < y && 0 <= i < width ==> may_generate(
                        #[trigger] tiles@[j]@[i],
                        i,
                        j,
                        width as int,
                        height as int,
                    ),
            decreases height - y,
        {
            let mut row: Vec<Tile> = Vec::new();
            let mut x: usize = 0;
            while x < width
                invariant
                    x <= width,
                    y < height,
                    row@.len() == x,
                    forall|i: int|
                        0 <= i < x ==> may_generate(
                            #[trigger] row@[i],
                            i,
                            y as int,
                            width as int,
                            height as int,
                        ),
                decreases width - x,
            {
                let wall_roll = random_ratio(&mut generator, 1, 10);
                row.push(generated_tile(x, y, width, height, wall_roll));
                x += 1;
            }
            tiles.push(row);
            y += 1;
        }
        let map = GameMap { width, height, tiles };
        proof {
            map.lemma_rows();
        }
        map
    }

    /// Turns the tile at `(x, y)` into floor and leaves every other tile as
    /// it is.
    pub fn open_tile(&mut self, x: usize, y: usize)
        requires
            old(self).wf(),
            old(self).in_bounds(x as int, y as int),
        ensures
            final(self)@ == old(self)@.with_tile(x as int, y as int, Tile::Floor),
            final(self).wf(),
    {
        proof {
            self.lemma_rows();
        }
        self.tiles[y][x] = Tile::Floor;
        proof {
            self.lemma_rows();
        }
        assert(self@.tiles =~= old(self)@.with_tile(x as int, y as int, Tile::Floor).tiles) by {
            assert forall|j: int| 0 <= j < self@.tiles.len() implies #[trigger] self@.tiles[j]
                =~= old(self)@.with_tile(x as int, y as int, Tile::Floor).tiles[j] by {}
        }
    }

    /// Whether the rows fit the stated size.
    pub fn is_well_formed(&self) -> (ok: bool)
        ensures
            ok == self.wf(),
    {
        proof {
            self.lemma_rows();
        }
        if self.tiles.len() != self.height {
            return false;
        }
        let mut y: usize = 0;
        while y < self.height
            invariant
                y <= self.height,
                self.tiles@.len() == self.height,
                forall|j: int| 0 <= j < y ==> (#[trigger] self.tiles@[j])@.len() == self.width,
            decreases self.height - y,
        {
            proof {
                self.lemma_rows();
            }
            if self.tiles[y].len() != self.width {
                assert(self@.tiles[y as int].len() != self.width);
                return false;
            }
            y += 1;
        }
        true
    }

    pub fn is_wall(&self, x: usize, y: usize) -> (wall: bool)
        requires
            self.wf(),
        ensures
            wall == self.wall_at(x as int, y as int),
    {
        if x >= self.width || y >= self.height {
            return true;
        }
        proof {
            self.lemma_rows();
        }
        matches!(self.tiles[y][x], Tile::Wall)
    }

    pub fn get_tile_symbol(&self, x: usize, y: usize) -> (symbol: &'static str)
        requires
            self.wf(),
            self.in_bounds(x as int, y as int),
        ensures
            symbol@ == tile_symbol(self.tile_at(x as int, y as int)),
    {
        proof {
            self.lemma_rows();
            reveal_strlit(".");
            reveal_strlit("#");
            reveal_strlit("+");
            reveal_strlit("~");
        }
        let symbol = match self.tiles[y][x] {
            Tile::Floor => ".",
            Tile::Wall => "#",
            Tile::Door => "+",
            Tile::Water => "~",
        };
        assert(symbol@ =~= tile_symbol(self.tile_at(x as int, y as int)));
        symbol
    }

    pub fn get_tile_style(&self, x: usize, y: usize) -> (style: Style)
        requires
            self.wf(),
            self.in_bounds(x as int, y as int),
        ensures
            style == (Style { fg: Some(tile_color(self.tile_at(x as int, y as int))), bg: None }),
    {
        proof {
            self.lemma_rows();
        }
        match self.tiles[y][x] {
            Tile::Floor => Style::new().fg(Color::DarkGray),
            Tile::Wall => Style::new().fg(Color::White),
            Tile::Door => Style::new().fg(Color::LightYellow),
            Tile::Water => Style::new().fg(Color::Blue),
        }
    }
}

} // verus!
