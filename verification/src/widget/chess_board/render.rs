//! What is drawn: the shapes of each layer, computed from the state.

use crate::board::{ChessMove, Color, Piece, Square, SquareSet};
use crate::engine::{color_at, color_on, piece_at, piece_on};
use crate::geometry::{
    grid_line, lemma_grid_lines, mirrored, screen_col, screen_row, spec_board_to_square,
    spec_square_position, spec_tile_position, spec_tile_rect, Point, Rectangle,
};
use crate::style::chess_board::Style;
use crate::style::Rgba;
use crate::widget::chess_board::overlay::{on_board, Overlay, OverlayView};
use crate::widget::chess_board::BState;
use vstd::prelude::*;

verus! {

/// Which edge a coordinate label names.
#[derive(Clone, Copy, Debug, PartialEq, Eq, Hash, Structural)]
pub enum Axis {
    /// A rank number, drawn down the side.
    Row,
    /// A file letter, drawn along the bottom.
    Col,
}

/// One step of drawing. Lengths are in the units of the bounds; positions
/// count from the top-left corner of the bounds.
#[derive(Clone, Copy, Debug, PartialEq, Eq, Structural)]
pub enum Shape {
    /// A filled rectangle.
    Fill { x: i64, y: i64, width: i64, height: i64, color: Rgba },
    /// The outline of a rectangle, drawn with a line `line` wide.
    Stroke { x: i64, y: i64, width: i64, height: i64, line: i64, color: Rgba },
    /// A filled circle.
    Disc { x: i64, y: i64, radius: i64, color: Rgba },
    /// The outline of a circle, drawn with a line `line` wide.
    Ring { x: i64, y: i64, radius: i64, line: i64, color: Rgba },
    /// The `index`-th label of an axis, `size` high. With `from_corner` the
    /// position is the label's bottom-right corner, else its top-left.
    Label { axis: Axis, index: u8, size: i64, x: i64, y: i64, color: Rgba, from_corner: bool },
    /// The picture of a piece, fitted into a rectangle.
    Sprite { x: i64, y: i64, width: i64, height: i64, piece: Piece, side: Color },
    /// The next corner of an outline: the template point (`px`, `py`), in
    /// hundredths of a tile, turned to point along (`dir_x`, `dir_y`) and
    /// set off from the middle of the tile whose corner is (`x`, `y`).
    Corner { x: i64, y: i64, px: i64, py: i64, dir_x: i64, dir_y: i64 },
    /// Closes the outline built by the corners since the last one and fills
    /// it.
    FillOutline { color: Rgba },
}

/// Computes the shapes of the board's layers for one state, style and
/// bounds.
#[derive(Clone, Copy, Debug)]
pub struct ChessBoardRenderer {
    pub style: Style,
    pub state: BState,
    pub bounds: Rectangle,
}

/// A rectangle filled with a colour.
pub open spec fn fill_of(rect: Rectangle, color: Rgba) -> Shape {
    Shape::Fill {
        x: rect.x as i64,
        y: rect.y as i64,
        width: rect.width as i64,
        height: rect.height as i64,
        color,
    }
}

/// How many columns to the right on the screen a move goes; negative to the
/// left.
pub open spec fn step_across(flipped: bool, mv: ChessMove) -> int {
    screen_col(flipped, mv.dest.file.index()) - screen_col(flipped, mv.source.file.index())
}

/// How many rows down the screen a move goes; negative upwards.
pub open spec fn step_down(flipped: bool, mv: ChessMove) -> int {
    screen_row(flipped, mv.dest.rank.index()) - screen_row(flipped, mv.source.rank.index())
}

/// A number without its sign.
pub open spec fn magnitude(d: int) -> int {
    if d < 0 {
        -d
    } else {
        d
    }
}

/// Whether a step is a knight's: one along one axis and two along the
/// other.
pub open spec fn is_knight_step(dx: int, dy: int) -> bool {
    (magnitude(dx) == 1 && magnitude(dy) == 2) || (magnitude(dx) == 2 && magnitude(dy) == 1)
}

/// By how much, in hundredths of a tile, the outer corner of an elbow lies
/// beyond two tiles along the first leg, and the inner corner short of them:
/// 11 where the arrow turns to one hand, -11 to the other.
pub open spec fn elbow_bend(dx: int, dy: int) -> int {
    if ((dx < 0) != (dy < 0)) != (magnitude(dx) > magnitude(dy)) {
        11
    } else {
        -11
    }
}

/// A corner of an arrow's outline.
pub open spec fn corner(at: Point, px: int, py: int, dir_x: int, dir_y: int) -> Shape {
    Shape::Corner {
        x: at.x as i64,
        y: at.y as i64,
        px: px as i64,
        py: py as i64,
        dir_x: dir_x as i64,
        dir_y: dir_y as i64,
    }
}

/// The two corners at the foot of an arrow.
pub open spec fn tail_corners(at: Point, dir_x: int, dir_y: int) -> Seq<Shape> {
    seq![corner(at, 36, 11, dir_x, dir_y), corner(at, 36, -11, dir_x, dir_y)]
}

/// The five corners of an arrow's head, its tip in the middle of the tile.
pub open spec fn head_corners(at: Point, dir_x: int, dir_y: int) -> Seq<Shape> {
    seq![
        corner(at, -36, -11, dir_x, dir_y),
        corner(at, -36, -26, dir_x, dir_y),
        corner(at, 0, 0, dir_x, dir_y),
        corner(at, -36, 26, dir_x, dir_y),
        corner(at, -36, 11, dir_x, dir_y),
    ]
}

/// The outline of an arrow that turns a corner, for a knight's step of `dx`
/// columns and `dy` rows: the foot, the outer corner of the elbow, the head
/// and the inner corner of the elbow. The first leg runs along the longer
/// side of the step, the head points along the shorter.
pub open spec fn elbow_outline(from: Point, to: Point, dx: int, dy: int) -> Seq<Shape> {
    let wide = magnitude(dx) > magnitude(dy);
    let bend = elbow_bend(dx, dy);
    let ax = if wide {
        dx
    } else {
        0
    };
    let ay = if wide {
        0
    } else {
        dy
    };
    let bx = if wide {
        0
    } else {
        dx
    };
    let by = if wide {
        dy
    } else {
        0
    };
    tail_corners(from, ax, ay).push(corner(from, 200 + bend, -11, ax, ay)) + head_corners(
        to,
        bx,
        by,
    ).push(corner(from, 200 - bend, 11, ax, ay))
}

/// The outline of a straight arrow: the foot and the head, both pointing
/// along the step.
pub open spec fn straight_outline(from: Point, to: Point, dx: int, dy: int) -> Seq<Shape> {
    tail_corners(from, dx, dy) + head_corners(to, dx, dy)
}

/// The outline of the arrow for a step of `dx` columns and `dy` rows: with
/// an elbow for a knight's step, straight for any other.
pub open spec fn spec_arrow_outline(from: Point, to: Point, dx: int, dy: int) -> Seq<Shape> {
    if is_knight_step(dx, dy) {
        elbow_outline(from, to, dx, dy)
    } else {
        straight_outline(from, to, dx, dy)
    }
}

fn make_corner(at: Point, px: i64, py: i64, dir_x: i64, dir_y: i64) -> (shape: Shape)
    ensures
        shape == corner(at, px as int, py as int, dir_x as int, dir_y as int),
{
    Shape::Corner { x: at.x as i64, y: at.y as i64, px, py, dir_x, dir_y }
}

fn push_tail(shapes: &mut Vec<Shape>, at: Point, dir_x: i64, dir_y: i64)
    ensures
        final(shapes)@ == old(shapes)@ + tail_corners(at, dir_x as int, dir_y as int),
{
    shapes.push(make_corner(at, 36, 11, dir_x, dir_y));
    shapes.push(make_corner(at, 36, -11, dir_x, dir_y));
    assert(shapes@ =~= old(shapes)@ + tail_corners(at, dir_x as int, dir_y as int));
}

fn push_head(shapes: &mut Vec<Shape>, at: Point, dir_x: i64, dir_y: i64)
    ensures
        final(shapes)@ == old(shapes)@ + head_corners(at, dir_x as int, dir_y as int),
{
    shapes.push(make_corner(at, -36, -11, dir_x, dir_y));
    shapes.push(make_corner(at, -36, -26, dir_x, dir_y));
    shapes.push(make_corner(at, 0, 0, dir_x, dir_y));
    shapes.push(make_corner(at, -36, 26, dir_x, dir_y));
    shapes.push(make_corner(at, -36, 11, dir_x, dir_y));
    assert(shapes@ =~= old(shapes)@ + head_corners(at, dir_x as int, dir_y as int));
}

/// The picture of a piece, fitted into a rectangle.
pub open spec fn sprite_of(rect: Rectangle, piece: Piece, side: Color) -> Shape {
    Shape::Sprite {
        x: rect.x as i64,
        y: rect.y as i64,
        width: rect.width as i64,
        height: rect.height as i64,
        piece,
        side,
    }
}

fn push_elbow(shapes: &mut Vec<Shape>, from: Point, to: Point, dx: i64, dy: i64)
    requires
        i64::MIN < dx,
        i64::MIN < dy,
    ensures
        final(shapes)@ == old(shapes)@ + elbow_outline(from, to, dx as int, dy as int),
{
    let ddx: i64 = if dx < 0 {
        -dx
    } else {
        dx
    };
    let ddy: i64 = if dy < 0 {
        -dy
    } else {
        dy
    };
    let wide: bool = ddx > ddy;
    let bend: i64 = if ((dx < 0) != (dy < 0)) != wide {
        11
    } else {
        -11
    };
    let ax: i64 = if wide {
        dx
    } else {
        0
    };
    let ay: i64 = if wide {
        0
    } else {
        dy
    };
    let bx: i64 = if wide {
        0
    } else {
        dx
    };
    let by: i64 = if wide {
        dy
    } else {
        0
    };
    push_tail(shapes, from, ax, ay);
    shapes.push(make_corner(from, 200 + bend, -11, ax, ay));
    push_head(shapes, to, bx, by);
    shapes.push(make_corner(from, 200 - bend, 11, ax, ay));
    assert(shapes@ =~= old(shapes)@ + elbow_outline(from, to, dx as int, dy as int));
}

/// Builds the outline of the arrow for a step of `dx` columns and `dy` rows
/// between the tiles whose corners are `from` and `to`.
pub fn arrow_outline(from: Point, to: Point, dx: i64, dy: i64) -> (shapes: Vec<Shape>)
    requires
        i64::MIN < dx,
        i64::MIN < dy,
    ensures
        shapes@ == spec_arrow_outline(from, to, dx as int, dy as int),
{
    let mut shapes: Vec<Shape> = Vec::new();
    let ddx: i64 = if dx < 0 {
        -dx
    } else {
        dx
    };
    let ddy: i64 = if dy < 0 {
        -dy
    } else {
        dy
    };
    if (ddx == 1 && ddy == 2) || (ddx == 2 && ddy == 1) {
        push_elbow(&mut shapes, from, to, dx, dy);
    } else {
        push_tail(&mut shapes, from, dx, dy);
        push_head(&mut shapes, to, dx, dy);
    }
    assert(shapes@ =~= spec_arrow_outline(from, to, dx as int, dy as int));
    shapes
}

impl ChessBoardRenderer {
    /// The side of the grid: the smaller of the bounds' width and height,
    /// and nothing where that is negative.
    pub open spec fn spec_extent(self) -> int {
        if self.bounds.spec_extent() < 0 {
            0
        } else {
            self.bounds.spec_extent()
        }
    }

    /// The nominal side of a tile: an eighth of the grid's, rounded down.
    pub open spec fn spec_tile_size(self) -> int {
        self.spec_extent() / 8
    }

    /// The tile of a square.
    pub open spec fn square_rect(self, sq: Square) -> Rectangle {
        spec_tile_rect(self.spec_extent(), self.state.flipped, sq.rank.index(), sq.file.index())
    }

    /// 1 where the board is flipped, else 0.
    pub open spec fn parity(self) -> int {
        if self.state.flipped {
            1
        } else {
            0
        }
    }

    /// The fill of the tile of rank `row` and file `col`: dark where the sum
    /// of the two is even on an unflipped board, or odd on a flipped one.
    pub open spec fn tile_fill(self, row: int, col: int) -> Shape {
        fill_of(
            spec_tile_rect(self.spec_extent(), self.state.flipped, row, col),
            if (row + col) % 2 == self.parity() {
                self.style.board.dark
            } else {
                self.style.board.light
            },
        )
    }

    /// The file whose tiles carry the rank labels, which is also the rank
    /// whose tiles carry the file labels: the one drawn at the left and at
    /// the bottom.
    pub open spec fn label_line(self) -> int {
        if self.state.flipped {
            7
        } else {
            0
        }
    }

    /// The colour of the label on the tile of rank `row` and file `col`: the
    /// colour that the tile itself does not have.
    pub open spec fn label_color(self, row: int, col: int) -> Rgba {
        if (row + col) % 2 == self.parity() {
            self.style.board.light
        } else {
            self.style.board.dark
        }
    }

    /// The label of rank `row`, set in from the top-left corner of its tile.
    pub open spec fn row_label(self, row: int) -> Shape {
        let at = spec_tile_position(
            self.spec_extent(),
            self.state.flipped,
            row,
            self.label_line(),
        );
        let tile = self.spec_tile_size();
        Shape::Label {
            axis: Axis::Row,
            index: row as u8,
            size: (16 * tile / 100) as i64,
            x: (at.x + tile / 15) as i64,
            y: (at.y + tile / 10) as i64,
            color: self.label_color(row, self.label_line()),
            from_corner: false,
        }
    }

    /// The label of file `col`, set in from the bottom-right corner of its
    /// tile.
    pub open spec fn col_label(self, col: int) -> Shape {
        let rect = spec_tile_rect(
            self.spec_extent(),
            self.state.flipped,
            self.label_line(),
            col,
        );
        let tile = self.spec_tile_size();
        Shape::Label {
            axis: Axis::Col,
            index: col as u8,
            size: (16 * tile / 100) as i64,
            x: (rect.x + rect.width - tile / 15) as i64,
            y: (rect.y + rect.height - tile / 10) as i64,
            color: self.label_color(self.label_line(), col),
            from_corner: true,
        }
    }

    /// The first layer: the 64 tiles, rank by rank from the first and file
    /// by file from `A`, then the eight rank labels, then the eight file
    /// labels.
    pub open spec fn spec_draw_board(self) -> Seq<Shape> {
        Seq::new(64, |i: int| self.tile_fill(i / 8, i % 8)) + Seq::new(
            8,
            |i: int| self.row_label(i),
        ) + Seq::new(8, |i: int| self.col_label(i))
    }

    /// The outline round the square under the dragged piece, where the drag
    /// point is on the board: drawn inside the tile with a line a twentieth
    /// of a tile wide.
    pub open spec fn hover_shapes(self, drag: Option<Point>) -> Seq<Shape> {
        match drag {
            Some(p) => if on_board(p) {
                let at = spec_square_position(
                    self.spec_extent(),
                    self.state.flipped,
                    spec_board_to_square(p.x as int, p.y as int),
                );
                let tile = self.spec_tile_size();
                let line = tile * 5 / 100;
                seq![
                    Shape::Stroke {
                        x: (at.x + line / 2) as i64,
                        y: (at.y + line / 2) as i64,
                        width: (tile - line) as i64,
                        height: (tile - line) as i64,
                        line: line as i64,
                        color: self.style.overlay.hover,
                    },
                ]
            } else {
                Seq::empty()
            },
            None => Seq::empty(),
        }
    }

    /// The shading of the marked squares among the first `upto` squares, in
    /// the order of their numbers.
    pub open spec fn mark_shapes(self, highlight: Set<Square>, upto: int) -> Seq<Shape>
        decreases upto,
    {
        if upto <= 0 {
            Seq::empty()
        } else {
            let before = self.mark_shapes(highlight, upto - 1);
            let sq = Square::of(upto - 1);
            if highlight.contains(sq) {
                before.push(fill_of(self.square_rect(sq), self.style.overlay.highlight))
            } else {
                before
            }
        }
    }

    /// The shading of one square of the last move, unless the square is
    /// marked.
    pub open spec fn trace_shapes(self, sq: Square, highlight: Set<Square>) -> Seq<Shape> {
        if highlight.contains(sq) {
            Seq::empty()
        } else {
            seq![fill_of(self.square_rect(sq), self.style.overlay.prev_move)]
        }
    }

    /// The shading of the squares the last move left and reached.
    pub open spec fn last_move_shapes(self, highlight: Set<Square>) -> Seq<Shape> {
        match self.state.game.annotation {
            Some(ant) => self.trace_shapes(ant.mv.source, highlight) + self.trace_shapes(
                ant.mv.dest,
                highlight,
            ),
            None => Seq::empty(),
        }
    }

    /// The shading of the selected square.
    pub open spec fn selected_shapes(self, selected: Option<Square>) -> Seq<Shape> {
        match selected {
            Some(sq) => seq![fill_of(self.square_rect(sq), self.style.overlay.selected)],
            None => Seq::empty(),
        }
    }

    /// The marker of a hint, centred on its destination: a ring along the
    /// edge of the tile where a piece stands there, else a small disc.
    pub open spec fn hint_shape(self, mv: ChessMove) -> Shape {
        let at = spec_square_position(self.spec_extent(), self.state.flipped, mv.dest);
        let tile = self.spec_tile_size();
        if piece_at(self.state.game.board, mv.dest).is_some() {
            let line = tile * 84 / 1000;
            Shape::Ring {
                x: (at.x + tile / 2) as i64,
                y: (at.y + tile / 2) as i64,
                radius: (tile / 2 - line / 2) as i64,
                line: line as i64,
                color: self.style.overlay.drag,
            }
        } else {
            Shape::Disc {
                x: (at.x + tile / 2) as i64,
                y: (at.y + tile / 2) as i64,
                radius: (tile * 168 / 1000) as i64,
                color: self.style.overlay.drag,
            }
        }
    }

    /// The second layer, from the back: the outline under the dragged piece,
    /// the marked squares, the last move, the selected square, and the
    /// hints in their order.
    pub open spec fn spec_draw_board_overlay(self, overlay: OverlayView) -> Seq<Shape> {
        self.hover_shapes(overlay.drag) + self.mark_shapes(overlay.highlight, 64)
            + self.last_move_shapes(overlay.highlight) + self.selected_shapes(overlay.selected)
            + self.hint_shapes(overlay.hints)
    }

    /// The markers of the hints, in the hints' order.
    pub open spec fn hint_shapes(self, hints: Seq<ChessMove>) -> Seq<Shape> {
        Seq::new(hints.len(), |k: int| self.hint_shape(hints[k]))
    }

    /// Whether the piece on a square is left out of the third layer: it is
    /// the selected one, and it is being dragged.
    pub open spec fn in_hand(overlay: OverlayView, sq: Square) -> bool {
        overlay.drag.is_some() && overlay.selected == Some(sq)
    }

    /// The pictures of the pieces at rest on the first `upto` squares, in the
    /// order of the squares' numbers.
    pub open spec fn piece_shapes(self, overlay: OverlayView, upto: int) -> Seq<Shape>
        decreases upto,
    {
        if upto <= 0 {
            Seq::empty()
        } else {
            let before = self.piece_shapes(overlay, upto - 1);
            let sq = Square::of(upto - 1);
            let rect = self.square_rect(sq);
            match (piece_at(self.state.game.board, sq), color_at(self.state.game.board, sq)) {
                (Some(piece), Some(side)) => if Self::in_hand(overlay, sq) {
                    before
                } else {
                    before.push(sprite_of(rect, piece, side))
                },
                _ => before,
            }
        }
    }

    /// The third layer: the pieces at rest.
    pub open spec fn spec_draw_pieces(self, overlay: OverlayView) -> Seq<Shape> {
        self.piece_shapes(overlay, 64)
    }

    /// How far from the left or top edge a board coordinate is drawn.
    pub open spec fn screen_offset(self, units: int) -> int {
        units * self.spec_extent() / 8000
    }

    /// The fourth layer: the selected piece, a tile wide and high, centred
    /// on the drag point. It is empty unless a piece is selected and dragged
    /// over the board.
    pub open spec fn spec_draw_drag(self, overlay: OverlayView) -> Seq<Shape> {
        match (overlay.selected, overlay.drag) {
            (Some(sq), Some(p)) => match (
                piece_at(self.state.game.board, sq),
                color_at(self.state.game.board, sq),
            ) {
                (Some(piece), Some(side)) => if on_board(p) {
                    let tile = self.spec_tile_size();
                    let across = if self.state.flipped {
                        mirrored(p.x as int)
                    } else {
                        p.x as int
                    };
                    let down = if self.state.flipped {
                        p.y as int
                    } else {
                        mirrored(p.y as int)
                    };
                    seq![
                        Shape::Sprite {
                            x: (self.screen_offset(across) - tile / 2) as i64,
                            y: (self.screen_offset(down) - tile / 2) as i64,
                            width: tile as i64,
                            height: tile as i64,
                            piece,
                            side,
                        },
                    ]
                } else {
                    Seq::empty()
                },
                _ => Seq::empty(),
            },
            _ => Seq::empty(),
        }
    }

    /// The arrow for a move: the corners of its outline, from the corner
    /// of the source's tile to that of the destination's, and a fill.
    pub open spec fn arrow_shapes(self, mv: ChessMove) -> Seq<Shape> {
        spec_arrow_outline(
            spec_square_position(self.spec_extent(), self.state.flipped, mv.source),
            spec_square_position(self.spec_extent(), self.state.flipped, mv.dest),
            step_across(self.state.flipped, mv),
            step_down(self.state.flipped, mv),
        ).push(Shape::FillOutline { color: self.style.overlay.arrow })
    }

    /// The fifth layer: the arrows, oldest first.
    pub open spec fn spec_draw_arrows(self, arrows: Seq<ChessMove>) -> Seq<Shape>
        decreases arrows.len(),
    {
        if arrows.len() == 0 {
            Seq::empty()
        } else {
            self.spec_draw_arrows(arrows.drop_last()) + self.arrow_shapes(arrows.last())
        }
    }

    pub fn new(style: Style, state: BState, bounds: Rectangle) -> (renderer: ChessBoardRenderer)
        ensures
            renderer == (ChessBoardRenderer { style, state, bounds }),
    {
        ChessBoardRenderer { style, state, bounds }
    }

    pub fn extent(&self) -> (side: i32)
        ensures
            side == self.spec_extent(),
            side >= 0,
    {
        let side: i32 = self.bounds.extent();
        if side < 0 {
            0
        } else {
            side
        }
    }

    pub fn tile_size(&self) -> (side: i32)
        ensures
            side == self.spec_tile_size(),
            side >= 0,
    {
        self.extent() / 8
    }

    /// Where the `i`-th grid line lies.
    fn line(&self, i: usize) -> (at: i32)
        requires
            i <= 8,
        ensures
            at == grid_line(self.spec_extent(), i as int),
            0 <= at <= self.spec_extent(),
    {
        let extent: i64 = self.extent() as i64;
        proof {
            if i < 8 {
                lemma_grid_lines(extent as int, i as int);
            } else {
                lemma_grid_lines(extent as int, 7);
            }
            assert(0 <= i * extent <= 8 * extent) by (nonlinear_arith)
                requires
                    0 <= i <= 8,
                    0 <= extent,
            ;
        }
        ((i as i64 * extent + 7) / 8) as i32
    }

    /// The top-left corner of the tile of rank `row` and file `col`.
    pub fn tile_position(&self, row: usize, col: usize) -> (at: Point)
        requires
            row < 8,
            col < 8,
        ensures
            at == spec_tile_position(
                self.spec_extent(),
                self.state.flipped,
                row as int,
                col as int,
            ),
            0 <= at.x <= self.spec_extent(),
            0 <= at.y <= self.spec_extent(),
    {
        let r: usize = if self.state.flipped {
            row
        } else {
            7 - row
        };
        let c: usize = if self.state.flipped {
            7 - col
        } else {
            col
        };
        Point { x: self.line(c), y: self.line(r) }
    }

    /// The top-left corner of a square's tile.
    pub fn square_position(&self, square: &Square) -> (at: Point)
        ensures
            at == spec_square_position(self.spec_extent(), self.state.flipped, *square),
            0 <= at.x <= self.spec_extent(),
            0 <= at.y <= self.spec_extent(),
    {
        self.tile_position(square.rank.to_index(), square.file.to_index())
    }

    /// The tile of rank `row` and file `col`.
    pub fn tile_rect(&self, row: usize, col: usize) -> (rect: Rectangle)
        requires
            row < 8,
            col < 8,
        ensures
            rect == spec_tile_rect(
                self.spec_extent(),
                self.state.flipped,
                row as int,
                col as int,
            ),
            0 <= rect.x <= rect.x + rect.width <= self.spec_extent(),
            0 <= rect.y <= rect.y + rect.height <= self.spec_extent(),
    {
        let r: usize = if self.state.flipped {
            row
        } else {
            7 - row
        };
        let c: usize = if self.state.flipped {
            7 - col
        } else {
            col
        };
        proof {
            lemma_grid_lines(self.spec_extent(), r as int);
            lemma_grid_lines(self.spec_extent(), c as int);
        }
        let x: i32 = self.line(c);
        let y: i32 = self.line(r);
        Rectangle { x, y, width: self.line(c + 1) - x, height: self.line(r + 1) - y }
    }

    /// A square's tile, filled with a colour.
    fn fill_square(&self, sq: Square, color: Rgba) -> (shape: Shape)
        ensures
            shape == fill_of(self.square_rect(sq), color),
    {
        let rect = self.tile_rect(sq.rank.to_index(), sq.file.to_index());
        Shape::Fill {
            x: rect.x as i64,
            y: rect.y as i64,
            width: rect.width as i64,
            height: rect.height as i64,
            color,
        }
    }

    /// The picture of a piece, fitted into a square's tile.
    fn sprite(&self, sq: Square, piece: Piece, side: Color) -> (shape: Shape)
        ensures
            shape == sprite_of(self.square_rect(sq), piece, side),
    {
        let rect = self.tile_rect(sq.rank.to_index(), sq.file.to_index());
        Shape::Sprite {
            x: rect.x as i64,
            y: rect.y as i64,
            width: rect.width as i64,
            height: rect.height as i64,
            piece,
            side,
        }
    }

    /// Draws the first layer: tiles and labels.
    pub fn draw_board(&self) -> (shapes: Vec<Shape>)
        ensures
            shapes@ == self.spec_draw_board(),
    {
        let mut shapes: Vec<Shape> = Vec::new();
        let odd: usize = if self.state.flipped {
            1
        } else {
            0
        };
        let tile: i64 = self.tile_size() as i64;
        let mut i: usize = 0;
        while i < 64
            invariant
                i <= 64,
                odd == self.parity(),
                shapes@ == Seq::new(i as nat, |j: int| self.tile_fill(j / 8, j % 8)),
            decreases 64 - i,
        {
            let row: usize = i / 8;
            let col: usize = i % 8;
            let rect = self.tile_rect(row, col);
            let color = if (row + col) % 2 == odd {
                self.style.board.dark
            } else {
                self.style.board.light
            };
            shapes.push(
                Shape::Fill {
                    x: rect.x as i64,
                    y: rect.y as i64,
                    width: rect.width as i64,
                    height: rect.height as i64,
                    color,
                },
            );
            i += 1;
        }
        let ghost tiles = shapes@;
        let edge: usize = if self.state.flipped {
            7
        } else {
            0
        };
        let mut row: usize = 0;
        while row < 8
            invariant
                row <= 8,
                odd == self.parity(),
                edge == self.label_line(),
                tile == self.spec_tile_size(),
                0 <= tile <= i32::MAX,
                shapes@ == tiles + Seq::new(row as nat, |j: int| self.row_label(j)),
            decreases 8 - row,
        {
            let at = self.tile_position(row, edge);
            let color = if (row + edge) % 2 == odd {
                self.style.board.light
            } else {
                self.style.board.dark
            };
            shapes.push(
                Shape::Label {
                    axis: Axis::Row,
                    index: row as u8,
                    size: 16 * tile / 100,
                    x: at.x as i64 + tile / 15,
                    y: at.y as i64 + tile / 10,
                    color,
                    from_corner: false,
                },
            );
            row += 1;
        }
        let ghost labelled = shapes@;
        let mut col: usize = 0;
        while col < 8
            invariant
                col <= 8,
                odd == self.parity(),
                edge == self.label_line(),
                tile == self.spec_tile_size(),
                0 <= tile <= i32::MAX,
                shapes@ == labelled + Seq::new(col as nat, |j: int| self.col_label(j)),
            decreases 8 - col,
        {
            let rect = self.tile_rect(edge, col);
            let color = if (col + edge) % 2 == odd {
                self.style.board.light
            } else {
                self.style.board.dark
            };
            shapes.push(
                Shape::Label {
                    axis: Axis::Col,
                    index: col as u8,
                    size: 16 * tile / 100,
                    x: rect.x as i64 + rect.width as i64 - tile / 15,
                    y: rect.y as i64 + rect.height as i64 - tile / 10,
                    color,
                    from_corner: true,
                },
            );
            col += 1;
        }
        shapes
    }

    /// One more square adds its shading to the marks if it is marked, and
    /// nothing if it is not.
    proof fn lemma_mark_step(self, highlight: Set<Square>, i: int)
        requires
            0 <= i,
        ensures
            self.mark_shapes(highlight, i + 1) == if highlight.contains(Square::of(i)) {
                self.mark_shapes(highlight, i).push(
                    fill_of(self.square_rect(Square::of(i)), self.style.overlay.highlight),
                )
            } else {
                self.mark_shapes(highlight, i)
            },
    {
    }

    /// One more square adds its piece to the pieces at rest if it holds one
    /// that is not in the hand, and nothing otherwise.
    proof fn lemma_piece_step(self, overlay: OverlayView, i: int)
        requires
            0 <= i,
        ensures
            self.piece_shapes(overlay, i + 1) == match (
                piece_at(self.state.game.board, Square::of(i)),
                color_at(self.state.game.board, Square::of(i)),
            ) {
                (Some(piece), Some(side)) => if Self::in_hand(overlay, Square::of(i)) {
                    self.piece_shapes(overlay, i)
                } else {
                    self.piece_shapes(overlay, i).push(
                        sprite_of(self.square_rect(Square::of(i)), piece, side),
                    )
                },
                _ => self.piece_shapes(overlay, i),
            },
    {
    }

    /// Draws the shading of the marked squares.
    fn draw_marks(&self, highlight: &SquareSet) -> (shapes: Vec<Shape>)
        ensures
            shapes@ == self.mark_shapes(highlight@, 64),
    {
        let mut shapes: Vec<Shape> = Vec::new();
        let mut i: usize = 0;
        while i < 64
            invariant
                i <= 64,
                shapes@ == self.mark_shapes(highlight@, i as int),
            decreases 64 - i,
        {
            let sq = Square::nth(i);
            proof {
                self.lemma_mark_step(highlight@, i as int);
            }
            if highlight.contains(sq) {
                shapes.push(self.fill_square(sq, self.style.overlay.highlight));
            }
            i += 1;
        }
        shapes
    }

    /// Draws the outline under the dragged piece.
    fn draw_hover(&self, drag: Option<Point>) -> (shapes: Vec<Shape>)
        ensures
            shapes@ == self.hover_shapes(drag),
    {
        let mut shapes: Vec<Shape> = Vec::new();
        if let Some(p) = drag {
            if 0 <= p.x && p.x < 8000 && 0 <= p.y && p.y < 8000 {
                let at = self.square_position(&Overlay::board_to_square(p.x, p.y));
                let tile: i64 = self.tile_size() as i64;
                let line: i64 = tile * 5 / 100;
                shapes.push(
                    Shape::Stroke {
                        x: at.x as i64 + line / 2,
                        y: at.y as i64 + line / 2,
                        width: tile - line,
                        height: tile - line,
                        line,
                        color: self.style.overlay.hover,
                    },
                );
            }
        }
        assert(shapes@ =~= self.hover_shapes(drag));
        shapes
    }

    /// Draws the shading of one square of the last move.
    fn draw_trace(&self, sq: Square, highlight: &SquareSet) -> (shapes: Vec<Shape>)
        ensures
            shapes@ == self.trace_shapes(sq, highlight@),
    {
        let mut shapes: Vec<Shape> = Vec::new();
        if !highlight.contains(sq) {
            shapes.push(self.fill_square(sq, self.style.overlay.prev_move));
        }
        assert(shapes@ =~= self.trace_shapes(sq, highlight@));
        shapes
    }

    /// Draws the shading of the last move.
    fn draw_last_move(&self, highlight: &SquareSet) -> (shapes: Vec<Shape>)
        ensures
            shapes@ == self.last_move_shapes(highlight@),
    {
        match self.state.game.annotation {
            Some(ant) => {
                let mut shapes = self.draw_trace(ant.mv.source, highlight);
                let mut second = self.draw_trace(ant.mv.dest, highlight);
                shapes.append(&mut second);
                shapes
            },
            None => Vec::new(),
        }
    }

    /// Draws the shading of the selected square.
    fn draw_selected(&self, selected: Option<Square>) -> (shapes: Vec<Shape>)
        ensures
            shapes@ == self.selected_shapes(selected),
    {
        let mut shapes: Vec<Shape> = Vec::new();
        if let Some(sq) = selected {
            shapes.push(self.fill_square(sq, self.style.overlay.selected));
        }
        assert(shapes@ =~= self.selected_shapes(selected));
        shapes
    }

    /// Draws the marker of one hint.
    fn draw_hint(&self, mv: ChessMove) -> (shape: Shape)
        ensures
            shape == self.hint_shape(mv),
    {
        let at = self.square_position(&mv.dest);
        let tile: i64 = self.tile_size() as i64;
        if piece_on(&self.state.game.board, mv.dest).is_some() {
            let line: i64 = tile * 84 / 1000;
            Shape::Ring {
                x: at.x as i64 + tile / 2,
                y: at.y as i64 + tile / 2,
                radius: tile / 2 - line / 2,
                line,
                color: self.style.overlay.drag,
            }
        } else {
            Shape::Disc {
                x: at.x as i64 + tile / 2,
                y: at.y as i64 + tile / 2,
                radius: tile * 168 / 1000,
                color: self.style.overlay.drag,
            }
        }
    }

    /// Draws the markers of the hints.
    fn draw_hints(&self, hints: &Vec<ChessMove>) -> (shapes: Vec<Shape>)
        ensures
            shapes@ == self.hint_shapes(hints@),
    {
        let mut shapes: Vec<Shape> = Vec::new();
        let mut k: usize = 0;
        while k < hints.len()
            invariant
                k <= hints.len(),
                shapes@ == Seq::new(k as nat, |j: int| self.hint_shape(hints@[j])),
            decreases hints.len() - k,
        {
            shapes.push(self.draw_hint(hints[k]));
            k += 1;
            assert(shapes@ =~= Seq::new(k as nat, |j: int| self.hint_shape(hints@[j])));
        }
        shapes
    }

    /// Draws the second layer: what marks the tiles.
    pub fn draw_board_overlay(&self, overlay: &Overlay) -> (shapes: Vec<Shape>)
        ensures
            shapes@ == self.spec_draw_board_overlay(overlay@),
    {
        let mut shapes = self.draw_hover(overlay.drag);
        let mut marks = self.draw_marks(&overlay.highlight);
        shapes.append(&mut marks);
        let mut last_move = self.draw_last_move(&overlay.highlight);
        shapes.append(&mut last_move);
        let mut selected = self.draw_selected(overlay.selected);
        shapes.append(&mut selected);
        let mut hints = self.draw_hints(&overlay.hints);
        shapes.append(&mut hints);
        shapes
    }

    /// Draws the third layer: the pieces at rest.
    pub fn draw_pieces(&self, overlay: &Overlay) -> (shapes: Vec<Shape>)
        ensures
            shapes@ == self.spec_draw_pieces(overlay@),
    {
        let mut shapes: Vec<Shape> = Vec::new();
        let mut i: usize = 0;
        while i < 64
            invariant
                i <= 64,
                shapes@ == self.piece_shapes(overlay@, i as int),
            decreases 64 - i,
        {
            let sq = Square::nth(i);
            proof {
                self.lemma_piece_step(overlay@, i as int);
            }
            let in_hand = overlay.drag.is_some() && overlay.selected == Some(sq);
            if !in_hand {
                let piece = piece_on(&self.state.game.board, sq);
                let side = color_on(&self.state.game.board, sq);
                if let (Some(piece), Some(side)) = (piece, side) {
                    shapes.push(self.sprite(sq, piece, side));
                }
            }
            i += 1;
        }
        shapes
    }

    /// Draws the fourth layer: the piece in the hand.
    pub fn draw_drag(&self, overlay: &Overlay) -> (shapes: Vec<Shape>)
        ensures
            shapes@ == self.spec_draw_drag(overlay@),
    {
        let mut shapes: Vec<Shape> = Vec::new();
        if let (Some(sq), Some(p)) = (overlay.selected, overlay.drag) {
            let piece = piece_on(&self.state.game.board, sq);
            let side = color_on(&self.state.game.board, sq);
            if let (Some(piece), Some(side)) = (piece, side) {
                if 0 <= p.x && p.x < 8000 && 0 <= p.y && p.y < 8000 {
                    let tile: i64 = self.tile_size() as i64;
                    let extent: i64 = self.extent() as i64;
                    let across: i64 = if self.state.flipped {
                        7999 - p.x as i64
                    } else {
                        p.x as i64
                    };
                    let down: i64 = if self.state.flipped {
                        p.y as i64
                    } else {
                        7999 - p.y as i64
                    };
                    assert(0 <= across * extent <= 8000 * extent && 0 <= down * extent <= 8000
                        * extent) by (nonlinear_arith)
                        requires
                            0 <= across < 8000,
                            0 <= down < 8000,
                            0 <= extent,
                    ;
                    shapes.push(
                        Shape::Sprite {
                            x: across * extent / 8000 - tile / 2,
                            y: down * extent / 8000 - tile / 2,
                            width: tile,
                            height: tile,
                            piece,
                            side,
                        },
                    );
                }
            }
        }
        assert(shapes@ =~= self.spec_draw_drag(overlay@));
        shapes
    }

    /// How far, in columns and rows of the screen, a move goes.
    fn steps(&self, mv: ChessMove) -> (step: (i64, i64))
        ensures
            step.0 == step_across(self.state.flipped, mv),
            step.1 == step_down(self.state.flipped, mv),
            -7 <= step.0 <= 7,
            -7 <= step.1 <= 7,
    {
        let source_col: i64 = mv.source.file.to_index() as i64;
        let dest_col: i64 = mv.dest.file.to_index() as i64;
        let source_row: i64 = mv.source.rank.to_index() as i64;
        let dest_row: i64 = mv.dest.rank.to_index() as i64;
        if self.state.flipped {
            (source_col - dest_col, dest_row - source_row)
        } else {
            (dest_col - source_col, source_row - dest_row)
        }
    }

    /// Adds the arrow for one move.
    fn push_arrow(&self, shapes: &mut Vec<Shape>, mv: ChessMove)
        ensures
            final(shapes)@ == old(shapes)@ + self.arrow_shapes(mv),
    {
        let from = self.square_position(&mv.source);
        let to = self.square_position(&mv.dest);
        let (dx, dy) = self.steps(mv);
        let mut outline = arrow_outline(from, to, dx, dy);
        outline.push(Shape::FillOutline { color: self.style.overlay.arrow });
        shapes.append(&mut outline);
    }

    /// Draws the fifth layer: the arrows.
    pub fn draw_arrows(&self, overlay: &Overlay) -> (shapes: Vec<Shape>)
        ensures
            shapes@ == self.spec_draw_arrows(overlay@.arrows),
    {
        let mut shapes: Vec<Shape> = Vec::new();
        let mut i: usize = 0;
        while i < overlay.arrows.len()
            invariant
                i <= overlay.arrows.len(),
                shapes@ == self.spec_draw_arrows(overlay.arrows@.take(i as int)),
            decreases overlay.arrows.len() - i,
        {
            proof {
                assert(overlay.arrows@.take(i + 1).drop_last() =~= overlay.arrows@.take(i as int));
            }
            self.push_arrow(&mut shapes, overlay.arrows[i]);
            i += 1;
        }
        proof {
            assert(overlay.arrows@.take(overlay.arrows.len() as int) =~= overlay.arrows@);
        }
        shapes
    }
}

} // verus!
