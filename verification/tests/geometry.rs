use iced_chess::board::{File, Rank, Square};
use iced_chess::geometry::{Cursor, Point, Rectangle};
use iced_chess::chess::GameState;
use iced_chess::widget::chess_board::overlay::Overlay;
use iced_chess::widget::chess_board::render::ChessBoardRenderer;
use iced_chess::widget::chess_board::BState;

fn look() -> iced_chess::style::chess_board::Style {
    iced_chess::style::chess_board::default()
}

fn bounds(width: i32, height: i32) -> Rectangle {
    Rectangle { x: 0, y: 0, width, height }
}

fn renderer(width: i32, height: i32, flipped: bool) -> ChessBoardRenderer {
    ChessBoardRenderer::new(
        look(),
        BState { game: GameState::default(), flipped },
        bounds(width, height),
    )
}

#[test]
fn board_coordinate_of_a_position() {
    let at = Overlay::pos_to_board(bounds(800, 800), Point { x: 450, y: 650 }, false);
    assert_eq!(at, Point { x: 4500, y: 1499 });
    let at = Overlay::pos_to_board(bounds(800, 800), Point { x: 450, y: 650 }, true);
    assert_eq!(at, Point { x: 3499, y: 6500 });
}

#[test]
fn square_of_a_position() {
    let sq = Overlay::pos_to_square(bounds(800, 800), Point { x: 450, y: 650 }, false);
    assert_eq!(sq, Square::make_square(Rank::Second, File::E));
    let sq = Overlay::pos_to_square(bounds(800, 800), Point { x: 450, y: 650 }, true);
    assert_eq!(sq, Square::make_square(Rank::Seventh, File::D));
}

#[test]
fn corners_of_the_grid_map_to_corner_squares() {
    let b = bounds(640, 640);
    assert_eq!(
        Overlay::pos_to_square(b, Point { x: 0, y: 0 }, false),
        Square::make_square(Rank::Eighth, File::A)
    );
    assert_eq!(
        Overlay::pos_to_square(b, Point { x: 639, y: 639 }, false),
        Square::make_square(Rank::First, File::H)
    );
    assert_eq!(
        Overlay::pos_to_square(b, Point { x: 0, y: 0 }, true),
        Square::make_square(Rank::First, File::H)
    );
    assert_eq!(
        Overlay::pos_to_square(b, Point { x: 639, y: 639 }, true),
        Square::make_square(Rank::Eighth, File::A)
    );
}

#[test]
fn the_smaller_side_is_the_grid() {
    let b = Rectangle { x: 100, y: 50, width: 1000, height: 400 };
    assert_eq!(b.extent(), 400);
    let inside = Cursor::Available(Point { x: 100 + 399, y: 50 + 399 });
    assert_eq!(
        Overlay::cursor_square(b, inside, false),
        Some(Square::make_square(Rank::First, File::H))
    );
    let beside = Cursor::Available(Point { x: 100 + 400, y: 50 + 200 });
    assert_eq!(Overlay::cursor_square(b, beside, false), None);
    assert_eq!(Overlay::cursor_board(b, beside, false), None);
}

#[test]
fn a_pointer_outside_the_bounds_has_no_square() {
    let b = Rectangle { x: 100, y: 50, width: 400, height: 400 };
    assert_eq!(Overlay::cursor_square(b, Cursor::Unavailable, false), None);
    assert_eq!(Overlay::cursor_square(b, Cursor::Available(Point { x: 99, y: 60 }), false), None);
    assert_eq!(Overlay::cursor_square(b, Cursor::Available(Point { x: 500, y: 60 }), false), None);
    assert_eq!(Overlay::cursor_square(b, Cursor::Available(Point { x: 200, y: 450 }), false), None);
    assert_eq!(
        Cursor::Available(Point { x: 130, y: 70 }).position_in(b),
        Some(Point { x: 30, y: 20 })
    );
    assert!(b.contains(Point { x: 100, y: 50 }));
    assert!(!b.contains(Point { x: 500, y: 50 }));
}

#[test]
fn tile_positions_on_an_even_grid() {
    let r = renderer(800, 800, false);
    assert_eq!(r.tile_size(), 100);
    assert_eq!(r.tile_position(0, 0), Point { x: 0, y: 700 });
    assert_eq!(r.tile_position(7, 7), Point { x: 700, y: 0 });
    assert_eq!(r.tile_position(1, 4), Point { x: 400, y: 600 });
    let r = renderer(800, 800, true);
    assert_eq!(r.tile_position(0, 0), Point { x: 700, y: 0 });
    assert_eq!(r.tile_position(1, 4), Point { x: 300, y: 100 });
}

#[test]
fn tile_positions_on_an_uneven_grid() {
    let r = renderer(803, 900, false);
    assert_eq!(r.extent(), 803);
    assert_eq!(r.tile_size(), 100);
    assert_eq!(r.tile_position(7, 1), Point { x: 101, y: 0 });
    assert_eq!(r.tile_position(0, 7), Point { x: 703, y: 703 });
    assert_eq!(r.tile_rect(0, 7), Rectangle { x: 703, y: 703, width: 100, height: 100 });
    assert_eq!(r.tile_rect(7, 0), Rectangle { x: 0, y: 0, width: 101, height: 101 });
}

#[test]
fn round_trip_for_all_squares_and_both_orientations() {
    for side in [8, 9, 15, 64, 100, 333, 800, 803, 1021] {
        for flipped in [false, true] {
            let r = renderer(side, side + 7, flipped);
            for i in 0..64usize {
                let sq = Square::nth(i);
                let at = r.square_position(&sq);
                assert!(r.bounds.grid_contains(at));
                assert_eq!(Overlay::pos_to_square(r.bounds, at, flipped), sq);
            }
        }
    }
}

#[test]
fn every_position_lies_in_the_tile_of_its_square() {
    for side in [8, 13, 100, 257] {
        for flipped in [false, true] {
            let r = renderer(side, side, flipped);
            for x in 0..side {
                for y in 0..side {
                    let p = Point { x, y };
                    let sq = Overlay::pos_to_square(r.bounds, p, flipped);
                    let tile = r.tile_rect(sq.get_rank().to_index(), sq.get_file().to_index());
                    assert!(tile.contains(p));
                }
            }
        }
    }
}

#[test]
fn a_grid_too_small_for_its_tiles_breaks_the_round_trip() {
    let r = renderer(4, 4, false);
    let sq = Square::make_square(Rank::Eighth, File::B);
    let at = r.square_position(&sq);
    assert_eq!(at, Point { x: 1, y: 0 });
    assert_eq!(
        Overlay::pos_to_square(r.bounds, at, false),
        Square::make_square(Rank::Eighth, File::C)
    );
}

#[test]
fn squares_count_from_a1() {
    assert_eq!(Square::make_square(Rank::First, File::A).to_index(), 0);
    assert_eq!(Square::make_square(Rank::First, File::H).to_index(), 7);
    assert_eq!(Square::make_square(Rank::Second, File::A).to_index(), 8);
    assert_eq!(Square::make_square(Rank::Eighth, File::H).to_index(), 63);
    assert_eq!(Square::from_index(28), Square::make_square(Rank::Fourth, File::E));
    assert_eq!(Square::from_index(64 + 28), Square::make_square(Rank::Fourth, File::E));
    assert_eq!(File::from_index(10), File::C);
    assert_eq!(Rank::from_index(15), Rank::Eighth);
    for i in 0..64usize {
        assert_eq!(Square::nth(i).to_index(), i);
    }
}
