use iced_chess::board::{ChessMove, Color, File, Piece, Rank, Square};
use iced_chess::chess::GameState;
use iced_chess::geometry::{Point, Rectangle};
use iced_chess::style::chess_board::Style;
use iced_chess::style::Rgba;
use iced_chess::widget::chess_board::overlay::Overlay;
use iced_chess::widget::chess_board::render::{arrow_outline, Axis, ChessBoardRenderer, Shape};
use iced_chess::widget::chess_board::BState;
use std::str::FromStr;

fn cell(name: &str) -> Square {
    let bytes = name.as_bytes();
    Square::make_square(
        Rank::from_index((bytes[1] - b'1') as usize),
        File::from_index((bytes[0] - b'a') as usize),
    )
}

fn arrow(from: &str, to: &str) -> ChessMove {
    ChessMove::new(cell(from), cell(to), None)
}

fn painter(game: GameState, flipped: bool) -> ChessBoardRenderer {
    ChessBoardRenderer::new(
        look(),
        BState { game, flipped },
        Rectangle { x: 30, y: 40, width: 800, height: 800 },
    )
}

fn look() -> Style {
    iced_chess::style::chess_board::default()
}

fn style() -> Style {
    look()
}

fn corner(x: i64, y: i64, px: i64, py: i64, dir_x: i64, dir_y: i64) -> Shape {
    Shape::Corner { x, y, px, py, dir_x, dir_y }
}

#[test]
fn the_default_style() {
    let style = look();
    assert_eq!(style.board.light, Rgba { r: 235, g: 236, b: 208, a: 100 });
    assert_eq!(style.board.dark, Rgba { r: 115, g: 149, b: 82, a: 100 });
    assert_eq!(style.overlay.prev_move, Rgba { r: 255, g: 255, b: 51, a: 50 });
    assert_eq!(style.overlay.selected, Rgba { r: 255, g: 255, b: 51, a: 50 });
    assert_eq!(style.overlay.drag, Rgba { r: 0, g: 0, b: 0, a: 14 });
    assert_eq!(style.overlay.hover, Rgba { r: 255, g: 255, b: 255, a: 65 });
    assert_eq!(style.overlay.highlight, Rgba { r: 235, g: 97, b: 80, a: 80 });
    assert_eq!(style.overlay.arrow, Rgba { r: 255, g: 170, b: 0, a: 64 });
    let buttons = iced_chess::style::game_buttons::default();
    assert_eq!(buttons.button.background, Rgba { r: 54, g: 52, b: 52, a: 100 });
    assert_eq!(buttons.button.font, Rgba { r: 198, g: 197, b: 197, a: 100 });
}

#[test]
fn the_board_layer_has_tiles_then_labels() {
    let shapes = painter(GameState::default(), false).draw_board();
    assert_eq!(shapes.len(), 80);
    assert_eq!(
        shapes[0],
        Shape::Fill { x: 0, y: 700, width: 100, height: 100, color: style().board.dark }
    );
    assert_eq!(
        shapes[1],
        Shape::Fill { x: 100, y: 700, width: 100, height: 100, color: style().board.light }
    );
    assert_eq!(
        shapes[8],
        Shape::Fill { x: 0, y: 600, width: 100, height: 100, color: style().board.light }
    );
    assert_eq!(
        shapes[63],
        Shape::Fill { x: 700, y: 0, width: 100, height: 100, color: style().board.dark }
    );
    assert_eq!(
        shapes[64],
        Shape::Label {
            axis: Axis::Row,
            index: 0,
            size: 16,
            x: 6,
            y: 710,
            color: style().board.light,
            from_corner: false,
        }
    );
    assert_eq!(
        shapes[71],
        Shape::Label {
            axis: Axis::Row,
            index: 7,
            size: 16,
            x: 6,
            y: 10,
            color: style().board.dark,
            from_corner: false,
        }
    );
    assert_eq!(
        shapes[72],
        Shape::Label {
            axis: Axis::Col,
            index: 0,
            size: 16,
            x: 94,
            y: 790,
            color: style().board.light,
            from_corner: true,
        }
    );
    assert_eq!(
        shapes[79],
        Shape::Label {
            axis: Axis::Col,
            index: 7,
            size: 16,
            x: 794,
            y: 790,
            color: style().board.dark,
            from_corner: true,
        }
    );
}

#[test]
fn the_flipped_board_layer() {
    let shapes = painter(GameState::default(), true).draw_board();
    assert_eq!(shapes.len(), 80);
    assert_eq!(
        shapes[0],
        Shape::Fill { x: 700, y: 0, width: 100, height: 100, color: style().board.light }
    );
    assert_eq!(
        shapes[1],
        Shape::Fill { x: 600, y: 0, width: 100, height: 100, color: style().board.dark }
    );
    assert_eq!(
        shapes[64],
        Shape::Label {
            axis: Axis::Row,
            index: 0,
            size: 16,
            x: 6,
            y: 10,
            color: style().board.light,
            from_corner: false,
        }
    );
    assert_eq!(
        shapes[72],
        Shape::Label {
            axis: Axis::Col,
            index: 0,
            size: 16,
            x: 794,
            y: 790,
            color: style().board.light,
            from_corner: true,
        }
    );
}

#[test]
fn an_untouched_board_has_no_markers() {
    let overlay = Overlay::new();
    let painter = painter(GameState::default(), false);
    assert!(painter.draw_board_overlay(&overlay).is_empty());
    assert!(painter.draw_drag(&overlay).is_empty());
    assert!(painter.draw_arrows(&overlay).is_empty());
}

#[test]
fn the_markers_come_in_their_order() {
    let mut start = GameState::default();
    let game = start.make_move(arrow("e2", "e4"));
    let mut game = game;
    let game = game.make_move(arrow("d7", "d5"));
    let painter = painter(game, false);
    let mut overlay = Overlay::new();
    overlay.drag = Some(Point { x: 3500, y: 4500 });
    overlay.highlight.toggle(cell("h8"));
    overlay.highlight.toggle(cell("d7"));
    overlay.highlight.toggle(cell("a1"));
    overlay.selected = Some(cell("e4"));
    overlay.hints = vec![arrow("e4", "e5"), arrow("e4", "d5")];
    let shapes = painter.draw_board_overlay(&overlay);
    let marked = style().overlay.highlight;
    assert_eq!(
        shapes,
        vec![
            Shape::Stroke {
                x: 302,
                y: 302,
                width: 95,
                height: 95,
                line: 5,
                color: style().overlay.hover
            },
            Shape::Fill { x: 0, y: 700, width: 100, height: 100, color: marked },
            Shape::Fill { x: 300, y: 100, width: 100, height: 100, color: marked },
            Shape::Fill { x: 700, y: 0, width: 100, height: 100, color: marked },
            Shape::Fill {
                x: 300,
                y: 300,
                width: 100,
                height: 100,
                color: style().overlay.prev_move
            },
            Shape::Fill {
                x: 400,
                y: 400,
                width: 100,
                height: 100,
                color: style().overlay.selected
            },
            Shape::Disc { x: 450, y: 350, radius: 16, color: style().overlay.drag },
            Shape::Ring { x: 350, y: 350, radius: 46, line: 8, color: style().overlay.drag },
        ]
    );
}

#[test]
fn a_drag_point_off_the_board_has_no_outline() {
    let painter = painter(GameState::default(), false);
    let mut overlay = Overlay::new();
    overlay.selected = Some(cell("e2"));
    overlay.drag = Some(Point { x: 8000, y: 100 });
    assert!(painter.draw_board_overlay(&overlay).iter().all(|s| !matches!(s, Shape::Stroke { .. })));
    assert!(painter.draw_drag(&overlay).is_empty());
    overlay.drag = Some(Point { x: 10, y: -1 });
    assert!(painter.draw_drag(&overlay).is_empty());
}

#[test]
fn the_pieces_at_rest() {
    let painter_ = painter(GameState::default(), false);
    let overlay = Overlay::new();
    let shapes = painter_.draw_pieces(&overlay);
    assert_eq!(shapes.len(), 32);
    assert_eq!(
        shapes[0],
        Shape::Sprite {
            x: 0,
            y: 700,
            width: 100,
            height: 100,
            piece: Piece::Rook,
            side: Color::White
        }
    );
    assert_eq!(
        shapes[4],
        Shape::Sprite {
            x: 400,
            y: 700,
            width: 100,
            height: 100,
            piece: Piece::King,
            side: Color::White
        }
    );
    assert_eq!(
        shapes[8],
        Shape::Sprite {
            x: 0,
            y: 600,
            width: 100,
            height: 100,
            piece: Piece::Pawn,
            side: Color::White
        }
    );
    assert_eq!(
        shapes[16],
        Shape::Sprite {
            x: 0,
            y: 100,
            width: 100,
            height: 100,
            piece: Piece::Pawn,
            side: Color::Black
        }
    );
    assert_eq!(
        shapes[27],
        Shape::Sprite {
            x: 300,
            y: 0,
            width: 100,
            height: 100,
            piece: Piece::Queen,
            side: Color::Black
        }
    );
    let kinds: Vec<Piece> = shapes[..8]
        .iter()
        .map(|s| match s {
            Shape::Sprite { piece, .. } => *piece,
            _ => unreachable!(),
        })
        .collect();
    assert_eq!(
        kinds,
        vec![
            Piece::Rook,
            Piece::Knight,
            Piece::Bishop,
            Piece::Queen,
            Piece::King,
            Piece::Bishop,
            Piece::Knight,
            Piece::Rook
        ]
    );
}

#[test]
fn the_piece_in_the_hand_leaves_the_pieces_at_rest() {
    let painter = painter(GameState::default(), false);
    let mut overlay = Overlay::new();
    overlay.selected = Some(cell("e2"));
    assert_eq!(painter.draw_pieces(&overlay).len(), 32);
    assert!(painter.draw_drag(&overlay).is_empty());
    overlay.drag = Some(Point { x: 4500, y: 2499 });
    let rest = painter.draw_pieces(&overlay);
    assert_eq!(rest.len(), 31);
    assert!(rest.iter().all(|s| !matches!(s, Shape::Sprite { x: 400, y: 600, .. })));
    assert_eq!(
        painter.draw_drag(&overlay),
        vec![Shape::Sprite {
            x: 400,
            y: 500,
            width: 100,
            height: 100,
            piece: Piece::Pawn,
            side: Color::White
        }]
    );
    overlay.selected = Some(cell("e4"));
    assert_eq!(painter.draw_pieces(&overlay).len(), 32);
    assert!(painter.draw_drag(&overlay).is_empty());
}

#[test]
fn the_piece_in_the_hand_on_a_flipped_board() {
    let painter = painter(GameState::default(), true);
    let mut overlay = Overlay::new();
    overlay.selected = Some(cell("e7"));
    overlay.drag = Some(Point { x: 4500, y: 2500 });
    assert_eq!(
        painter.draw_drag(&overlay),
        vec![Shape::Sprite {
            x: 299,
            y: 200,
            width: 100,
            height: 100,
            piece: Piece::Pawn,
            side: Color::Black
        }]
    );
}

#[test]
fn a_straight_arrow() {
    let shapes = arrow_outline(Point { x: 400, y: 600 }, Point { x: 400, y: 400 }, 0, -2);
    assert_eq!(
        shapes,
        vec![
            corner(400, 600, 36, 11, 0, -2),
            corner(400, 600, 36, -11, 0, -2),
            corner(400, 400, -36, -11, 0, -2),
            corner(400, 400, -36, -26, 0, -2),
            corner(400, 400, 0, 0, 0, -2),
            corner(400, 400, -36, 26, 0, -2),
            corner(400, 400, -36, 11, 0, -2),
        ]
    );
    assert_eq!(arrow_outline(Point { x: 0, y: 0 }, Point { x: 300, y: 300 }, 3, 3).len(), 7);
    assert_eq!(arrow_outline(Point { x: 0, y: 0 }, Point { x: 200, y: 200 }, 2, 2).len(), 7);
    assert_eq!(arrow_outline(Point { x: 0, y: 0 }, Point { x: 100, y: 0 }, 1, 0).len(), 7);
}

#[test]
fn a_knights_arrow_turns_a_corner() {
    let from = Point { x: 600, y: 700 };
    let to = Point { x: 700, y: 500 };
    assert_eq!(
        arrow_outline(from, to, 1, -2),
        vec![
            corner(600, 700, 36, 11, 0, -2),
            corner(600, 700, 36, -11, 0, -2),
            corner(600, 700, 211, -11, 0, -2),
            corner(700, 500, -36, -11, 1, 0),
            corner(700, 500, -36, -26, 1, 0),
            corner(700, 500, 0, 0, 1, 0),
            corner(700, 500, -36, 26, 1, 0),
            corner(700, 500, -36, 11, 1, 0),
            corner(600, 700, 189, 11, 0, -2),
        ]
    );
    let to = Point { x: 500, y: 500 };
    let left = arrow_outline(from, to, -1, -2);
    assert_eq!(left.len(), 9);
    assert_eq!(left[2], corner(600, 700, 189, -11, 0, -2));
    assert_eq!(left[3], corner(500, 500, -36, -11, -1, 0));
    assert_eq!(left[8], corner(600, 700, 211, 11, 0, -2));
    let wide = arrow_outline(from, to, 2, 1);
    assert_eq!(wide.len(), 9);
    assert_eq!(wide[0], corner(600, 700, 36, 11, 2, 0));
    assert_eq!(wide[2], corner(600, 700, 211, -11, 2, 0));
    assert_eq!(wide[5], corner(500, 500, 0, 0, 0, 1));
    assert_eq!(wide[8], corner(600, 700, 189, 11, 2, 0));
    let back = arrow_outline(from, to, -2, 1);
    assert_eq!(back[2], corner(600, 700, 189, -11, -2, 0));
    assert_eq!(back[8], corner(600, 700, 211, 11, -2, 0));
}

#[test]
fn the_arrows_layer() {
    let painter_ = painter(GameState::default(), false);
    let mut overlay = Overlay::new();
    overlay.arrows = vec![arrow("g1", "h3"), arrow("e2", "e4")];
    let shapes = painter_.draw_arrows(&overlay);
    assert_eq!(shapes.len(), 10 + 8);
    assert_eq!(shapes[0], corner(600, 700, 36, 11, 0, -2));
    assert_eq!(shapes[2], corner(600, 700, 211, -11, 0, -2));
    assert_eq!(shapes[5], corner(700, 500, 0, 0, 1, 0));
    assert_eq!(shapes[9], Shape::FillOutline { color: style().overlay.arrow });
    assert_eq!(shapes[10], corner(400, 600, 36, 11, 0, -2));
    assert_eq!(shapes[14], corner(400, 400, 0, 0, 0, -2));
    assert_eq!(shapes[17], Shape::FillOutline { color: style().overlay.arrow });
    let flipped = painter(GameState::default(), true).draw_arrows(&overlay);
    assert_eq!(flipped.len(), 18);
    assert_eq!(flipped[0], corner(100, 0, 36, 11, 0, 2));
    assert_eq!(flipped[2], corner(100, 0, 211, -11, 0, 2));
    assert_eq!(flipped[5], corner(0, 200, 0, 0, -1, 0));
}

#[test]
fn bounds_without_room_draw_at_the_origin() {
    let painter = ChessBoardRenderer::new(
        look(),
        BState { game: GameState::default(), flipped: false },
        Rectangle { x: 0, y: 0, width: -5, height: 100 },
    );
    assert_eq!(painter.extent(), 0);
    assert_eq!(painter.tile_size(), 0);
    let shapes = painter.draw_board();
    assert_eq!(shapes.len(), 80);
    assert_eq!(
        shapes[10],
        Shape::Fill { x: 0, y: 0, width: 0, height: 0, color: style().board.light }
    );
}

#[test]
fn hints_ring_the_pieces_they_take() {
    let game =
        GameState { board: chess::Board::from_str("4k3/8/8/3p4/4P3/8/8/4K3 w - - 0 1").unwrap(), annotation: None };
    let painter = painter(game, false);
    let mut overlay = Overlay::new();
    overlay.selected = Some(cell("e4"));
    overlay.hints = vec![arrow("e4", "d5"), arrow("e4", "e5")];
    let shapes = painter.draw_board_overlay(&overlay);
    assert_eq!(shapes.len(), 3);
    assert_eq!(
        shapes[1],
        Shape::Ring { x: 350, y: 350, radius: 46, line: 8, color: style().overlay.drag }
    );
    assert_eq!(shapes[2], Shape::Disc { x: 450, y: 350, radius: 16, color: style().overlay.drag });
}
