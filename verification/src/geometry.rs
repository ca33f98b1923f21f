//! Points, rectangles, and the mapping between pointer positions, board
//! coordinates and squares.
//!
//! Lengths are whole units of the host's pixel grid. A board coordinate
//! counts thousandths of a square from the corner of `A1`: `x` along the
//! files and `y` along the ranks, each from 0 up to, not including, 8000.

use crate::board::{File, Rank, Square};
use vstd::prelude::*;

verus! {

/// Board-coordinate units in one square.
pub const SQUARE_UNITS: i32 = 1000;

/// Board-coordinate units across the board.
pub const BOARD_UNITS: i32 = 8000;

#[derive(Clone, Copy, Debug, PartialEq, Eq, Hash, Structural)]
pub struct Point {
    pub x: i32,
    pub y: i32,
}

/// An area with its top-left corner at (`x`, `y`). It holds the points from
/// that corner up to, not including, its right and bottom edges.
#[derive(Clone, Copy, Debug, PartialEq, Eq, Hash, Structural)]
pub struct Rectangle {
    pub x: i32,
    pub y: i32,
    pub width: i32,
    pub height: i32,
}

/// A width and a height.
#[derive(Clone, Copy, Debug, PartialEq, Eq, Hash, Structural)]
pub struct Size {
    pub width: i32,
    pub height: i32,
}

/// Where the pointer is, if the host knows and nothing covers the widget.
#[derive(Clone, Copy, Debug, PartialEq, Eq, Hash, Structural)]
pub enum Cursor {
    Available(Point),
    Unavailable,
}

impl Rectangle {
    pub open spec fn spec_contains(self, p: Point) -> bool {
        &&& self.x <= p.x < self.x + self.width
        &&& self.y <= p.y < self.y + self.height
    }

    /// The side of the square grid drawn in this area: the smaller of its
    /// width and height.
    pub open spec fn spec_extent(self) -> int {
        if self.width <= self.height {
            self.width as int
        } else {
            self.height as int
        }
    }

    /// Whether `p`, taken from this area's top-left corner, lies on the
    /// square grid.
    pub open spec fn on_grid(self, p: Point) -> bool {
        &&& 0 <= p.x < self.spec_extent()
        &&& 0 <= p.y < self.spec_extent()
    }

    pub fn contains(&self, p: Point) -> (inside: bool)
        ensures
            inside == self.spec_contains(p),
    {
        let px: i64 = p.x as i64;
        let py: i64 = p.y as i64;
        self.x as i64 <= px && px < self.x as i64 + self.width as i64 && self.y as i64 <= py && py
            < self.y as i64 + self.height as i64
    }

    pub fn extent(&self) -> (side: i32)
        ensures
            side == self.spec_extent(),
    {
        if self.width <= self.height {
            self.width
        } else {
            self.height
        }
    }

    /// Whether a point relative to this area's corner lies on the grid.
    pub fn grid_contains(&self, p: Point) -> (inside: bool)
        ensures
            inside == self.on_grid(p),
    {
        let side: i32 = self.extent();
        0 <= p.x && p.x < side && 0 <= p.y && p.y < side
    }
}

impl Cursor {
    /// The pointer's position relative to the corner of `bounds`, where the
    /// pointer is over `bounds`.
    pub open spec fn spec_position_in(self, bounds: Rectangle) -> Option<Point> {
        match self {
            Cursor::Available(p) => if bounds.spec_contains(p) {
                Some(Point { x: (p.x - bounds.x) as i32, y: (p.y - bounds.y) as i32 })
            } else {
                None
            },
            Cursor::Unavailable => None,
        }
    }

    pub fn position_in(self, bounds: Rectangle) -> (pos: Option<Point>)
        ensures
            pos == self.spec_position_in(bounds),
            pos matches Some(p) ==> 0 <= p.x < bounds.width && 0 <= p.y < bounds.height,
    {
        match self {
            Cursor::Available(p) => if bounds.contains(p) {
                let x: i64 = p.x as i64 - bounds.x as i64;
                let y: i64 = p.y as i64 - bounds.y as i64;
                Some(Point { x: x as i32, y: y as i32 })
            } else {
                None
            },
            Cursor::Unavailable => None,
        }
    }
}

/// How far along the board a screen position lies, in board units, across a
/// grid `extent` long: `p` eight-thousandths of `extent`, rounded down.
pub open spec fn screen_units(extent: int, p: int) -> int {
    p * 8000 / extent
}

/// The same distance counted from the opposite edge of the board.
pub open spec fn mirrored(units: int) -> int {
    7999 - units
}

/// The board coordinate under a position on the grid. Unflipped, files run
/// left to right and ranks bottom to top; flipped, both run the other way.
pub open spec fn spec_pos_to_board(bounds: Rectangle, pos: Point, flipped: bool) -> Point {
    let across = screen_units(bounds.spec_extent(), pos.x as int);
    let down = screen_units(bounds.spec_extent(), pos.y as int);
    Point {
        x: (if flipped {
            mirrored(across)
        } else {
            across
        }) as i32,
        y: (if flipped {
            down
        } else {
            mirrored(down)
        }) as i32,
    }
}

/// The square that holds a board coordinate.
pub open spec fn spec_board_to_square(col: int, row: int) -> Square {
    Square { rank: Rank::of(row / 1000), file: File::of(col / 1000) }
}

/// The square under a position on the grid.
pub open spec fn spec_pos_to_square(bounds: Rectangle, pos: Point, flipped: bool) -> Square {
    let at = spec_pos_to_board(bounds, pos, flipped);
    spec_board_to_square(at.x as int, at.y as int)
}

/// The square under the pointer, if the pointer is on the grid.
pub open spec fn spec_cursor_square(bounds: Rectangle, cursor: Cursor, flipped: bool) -> Option<
    Square,
> {
    match cursor.spec_position_in(bounds) {
        Some(pos) => if bounds.on_grid(pos) {
            Some(spec_pos_to_square(bounds, pos, flipped))
        } else {
            None
        },
        None => None,
    }
}

/// The board coordinate under the pointer, if the pointer is on the grid.
pub open spec fn spec_cursor_board(bounds: Rectangle, cursor: Cursor, flipped: bool) -> Option<
    Point,
> {
    match cursor.spec_position_in(bounds) {
        Some(pos) => if bounds.on_grid(pos) {
            Some(spec_pos_to_board(bounds, pos, flipped))
        } else {
            None
        },
        None => None,
    }
}

/// Where the `i`-th grid line lies on a grid `extent` long: `i` eighths of
/// `extent`, rounded up. Tile `i` of a row or column runs from line `i` up
/// to, not including, line `i + 1`.
pub open spec fn grid_line(extent: int, i: int) -> int {
    (i * extent + 7) / 8
}

/// The column of the screen, from the left, in which a file is drawn.
pub open spec fn screen_col(flipped: bool, col: int) -> int {
    if flipped {
        7 - col
    } else {
        col
    }
}

/// The row of the screen, from the top, in which a rank is drawn.
pub open spec fn screen_row(flipped: bool, row: int) -> int {
    if flipped {
        row
    } else {
        7 - row
    }
}

/// The top-left corner of the tile of rank `row` and file `col`.
pub open spec fn spec_tile_position(extent: int, flipped: bool, row: int, col: int) -> Point {
    Point {
        x: grid_line(extent, screen_col(flipped, col)) as i32,
        y: grid_line(extent, screen_row(flipped, row)) as i32,
    }
}

/// The top-left corner of a square's tile.
pub open spec fn spec_square_position(extent: int, flipped: bool, sq: Square) -> Point {
    spec_tile_position(extent, flipped, sq.rank.index(), sq.file.index())
}

/// The tile of rank `row` and file `col`, from its grid lines to the next.
pub open spec fn spec_tile_rect(extent: int, flipped: bool, row: int, col: int) -> Rectangle {
    let c = screen_col(flipped, col);
    let r = screen_row(flipped, row);
    Rectangle {
        x: grid_line(extent, c) as i32,
        y: grid_line(extent, r) as i32,
        width: (grid_line(extent, c + 1) - grid_line(extent, c)) as i32,
        height: (grid_line(extent, r + 1) - grid_line(extent, r)) as i32,
    }
}

/// Board units stay on the board, and name the tile between whose grid
/// lines the position lies.
pub proof fn lemma_screen_units(extent: int, p: int)
    requires
        0 <= p < extent,
    ensures
        0 <= screen_units(extent, p) < 8000,
        0 <= screen_units(extent, p) / 1000 < 8,
        grid_line(extent, screen_units(extent, p) / 1000) <= p < grid_line(
            extent,
            screen_units(extent, p) / 1000 + 1,
        ),
{
    let f = p * 8000 / extent;
    let c = f / 1000;
    assert(f * extent <= p * 8000 < (f + 1) * extent && 0 <= f) by (nonlinear_arith)
        requires
            0 <= p < extent,
            f == p * 8000 / extent,
    ;
    assert(f < 8000) by (nonlinear_arith)
        requires
            f * extent <= p * 8000,
            0 <= p < extent,
    ;
    assert(c * extent <= 8 * p < (c + 1) * extent) by (nonlinear_arith)
        requires
            f * extent <= p * 8000 < (f + 1) * extent,
            1000 * c <= f < 1000 * c + 1000,
            0 < extent,
    ;
}

/// Grid lines start at 0, end at the extent and never step back; on a grid
/// at least 8 long every tile has room.
pub proof fn lemma_grid_lines(extent: int, i: int)
    requires
        0 <= extent,
        0 <= i < 8,
    ensures
        grid_line(extent, 0) == 0,
        grid_line(extent, 8) == extent,
        0 <= grid_line(extent, i) <= grid_line(extent, i + 1) <= extent,
        extent >= 8 ==> grid_line(extent, i) < grid_line(extent, i + 1),
{
    assert(i * extent <= (i + 1) * extent <= 8 * extent && 0 <= i * extent) by (nonlinear_arith)
        requires
            0 <= extent,
            0 <= i < 8,
    ;
    assert((i + 1) * extent == i * extent + extent) by (nonlinear_arith);
}

/// The first position of a tile belongs to that tile: its board units name
/// the tile's own index.
pub proof fn lemma_grid_line_units(extent: int, i: int)
    requires
        extent >= 8,
        0 <= i < 8,
    ensures
        0 <= grid_line(extent, i) < extent,
        screen_units(extent, grid_line(extent, i)) / 1000 == i,
{
    lemma_grid_lines(extent, i);
    let p = grid_line(extent, i);
    lemma_screen_units(extent, p);
    let c = screen_units(extent, p) / 1000;
    assert(i * extent <= 8 * p < i * extent + 8);
    assert(c * extent <= 8 * p < (c + 1) * extent);
    assert(c == i) by (nonlinear_arith)
        requires
            i * extent <= 8 * p < i * extent + 8,
            c * extent <= 8 * p < (c + 1) * extent,
            extent >= 8,
    ;
}

/// Mapping a square to the corner of its tile and that corner back to a
/// square gives the square again, in either orientation, on any grid that
/// is at least 8 units long.
pub proof fn lemma_square_round_trip(bounds: Rectangle, sq: Square, flipped: bool)
    requires
        bounds.spec_extent() >= 8,
    ensures
        bounds.on_grid(spec_square_position(bounds.spec_extent(), flipped, sq)),
        spec_pos_to_square(
            bounds,
            spec_square_position(bounds.spec_extent(), flipped, sq),
            flipped,
        ) == sq,
{
    let extent = bounds.spec_extent();
    let c = screen_col(flipped, sq.file.index());
    let r = screen_row(flipped, sq.rank.index());
    lemma_grid_line_units(extent, c);
    lemma_grid_line_units(extent, r);
    lemma_screen_units(extent, grid_line(extent, c));
    lemma_screen_units(extent, grid_line(extent, r));
}

/// Every position on the grid lies inside the tile of the square it maps
/// to.
pub proof fn lemma_pos_in_own_tile(bounds: Rectangle, pos: Point, flipped: bool)
    requires
        bounds.on_grid(pos),
    ensures
        ({
            let sq = spec_pos_to_square(bounds, pos, flipped);
            let tile = spec_tile_rect(
                bounds.spec_extent(),
                flipped,
                sq.rank.index(),
                sq.file.index(),
            );
            tile.spec_contains(pos)
        }),
{
    let extent = bounds.spec_extent();
    lemma_screen_units(extent, pos.x as int);
    lemma_screen_units(extent, pos.y as int);
    let c = screen_units(extent, pos.x as int) / 1000;
    let r = screen_units(extent, pos.y as int) / 1000;
    lemma_grid_lines(extent, c);
    lemma_grid_lines(extent, r);
}

} // verus!
