//! The part of the map that fits on the screen.

use crate::game::components::Position;
use crate::game::map::GameMap;
use vstd::prelude::*;

verus! {

/// A window on the map: the columns from `start_x` up to, not including,
/// `end_x`, and the rows from `start_y` up to, not including, `end_y`.
#[derive(Clone, Copy, PartialEq, Eq, Debug, Structural)]
pub struct Viewport {
    pub start_x: usize,
    pub start_y: usize,
    pub end_x: usize,
    pub end_y: usize,
}

/// Where a window of `size` tiles starts along one axis when it is centred
/// on `centre`: half its size before the centre, and at 0 where that would
/// be off the map.
pub open spec fn window_start(centre: int, size: int) -> int {
    if centre >= size / 2 {
        centre - size / 2
    } else {
        0
    }
}

/// Where that window ends: `size` tiles after its start, and at the map's
/// edge where that would be off the map.
pub open spec fn window_end(centre: int, size: int, limit: int) -> int {
    if window_start(centre, size) + size <= limit {
        window_start(centre, size) + size
    } else {
        limit
    }
}

impl Viewport {
    /// Whether the tile at `at` lies in the window.
    pub open spec fn shows(self, at: Position) -> bool {
        self.start_x <= at.x < self.end_x && self.start_y <= at.y < self.end_y
    }

    /// The screen cell, as column and row, at which the tile at `at` is
    /// drawn when the window's first tile is drawn at `origin`. There is
    /// none for a tile outside the window, nor for a cell that a `u16`
    /// cannot name.
    pub open spec fn cell_of(self, at: Position, origin: (u16, u16)) -> Option<(u16, u16)> {
        if self.shows(at) && origin.0 + (at.x - self.start_x) <= u16::MAX && origin.1 + (at.y
            - self.start_y) <= u16::MAX {
            Some(
                (
                    (origin.0 + (at.x - self.start_x)) as u16,
                    (origin.1 + (at.y - self.start_y)) as u16,
                ),
            )
        } else {
            None
        }
    }

    /// The window of `width` by `height` tiles centred on `centre`, cut to
    /// the map.
    pub fn around(centre: Position, width: u16, height: u16, map: &GameMap) -> (view: Self)
        ensures
            view.start_x == window_start(centre.x as int, width as int),
            view.start_y == window_start(centre.y as int, height as int),
            view.end_x == window_end(centre.x as int, width as int, map.width as int),
            view.end_y == window_end(centre.y as int, height as int, map.height as int),
    {
        let viewport_width = width as usize;
        let viewport_height = height as usize;
        let start_x = centre.x.saturating_sub(viewport_width / 2);
        let start_y = centre.y.saturating_sub(viewport_height / 2);
        let end_x = if map.width >= viewport_width && start_x <= map.width - viewport_width {
            start_x + viewport_width
        } else {
            map.width
        };
        let end_y = if map.height >= viewport_height && start_y <= map.height - viewport_height {
            start_y + viewport_height
        } else {
            map.height
        };
        Viewport { start_x, start_y, end_x, end_y }
    }

    /// See [`Viewport::shows`].
    pub fn contains(&self, at: Position) -> (shown: bool)
        ensures
            shown == self.shows(at),
    {
        at.x >= self.start_x && at.x < self.end_x && at.y >= self.start_y && at.y < self.end_y
    }

    /// See [`Viewport::cell_of`].
    pub fn screen_cell(&self, at: Position, origin_x: u16, origin_y: u16) -> (cell: Option<
        (u16, u16),
    >)
        ensures
            cell == self.cell_of(at, (origin_x, origin_y)),
    {
        if !self.contains(at) {
            return None;
        }
        let dx = at.x - self.start_x;
        let dy = at.y - self.start_y;
        let room_x = (u16::MAX - origin_x) as usize;
        let room_y = (u16::MAX - origin_y) as usize;
        if dx > room_x || dy > room_y {
            return None;
        }
        Some((origin_x + dx as u16, origin_y + dy as u16))
    }
}

} // verus!
