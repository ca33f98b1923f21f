use iced_chess::board::{ChessMove, File, Piece, Rank, Square, SquareSet};
use iced_chess::chess::GameState;
use iced_chess::geometry::{Cursor, Point, Rectangle};
use iced_chess::widget::chess_board::event::{Button, Event, Interaction, MouseEvent, Response};
use iced_chess::widget::chess_board::overlay::{collapse_hints, Overlay};
use iced_chess::widget::chess_board::{BState, Caches, Messages};
use std::str::FromStr;

fn at(name: &str) -> Square {
    let bytes = name.as_bytes();
    Square::make_square(
        Rank::from_index((bytes[1] - b'1') as usize),
        File::from_index((bytes[0] - b'a') as usize),
    )
}

fn go(from: &str, to: &str) -> ChessMove {
    ChessMove::new(at(from), at(to), None)
}

fn promote(from: &str, to: &str, piece: Piece) -> ChessMove {
    ChessMove::new(at(from), at(to), Some(piece))
}

const BOUNDS: Rectangle = Rectangle { x: 20, y: 10, width: 800, height: 800 };

/// The pointer in the middle of a square of an unflipped board.
fn over(name: &str) -> Cursor {
    let sq = at(name);
    let col = sq.get_file().to_index() as i32;
    let row = 7 - sq.get_rank().to_index() as i32;
    Cursor::Available(Point { x: 20 + col * 100 + 50, y: 10 + row * 100 + 50 })
}

/// The board coordinate of that pointer.
fn middle(name: &str) -> Point {
    Overlay::cursor_board(BOUNDS, over(name), false).unwrap()
}

fn show(game: GameState) -> BState {
    BState { game, flipped: false }
}

fn fen(text: &str) -> GameState {
    GameState { board: chess::Board::from_str(text).unwrap(), annotation: None }
}

const TAKING: Messages = Messages { on_move: true };
const WATCHING: Messages = Messages { on_move: false };

fn pressed(button: Button) -> Event {
    Event::Mouse(MouseEvent::ButtonPressed(button))
}

fn released(button: Button) -> Event {
    Event::Mouse(MouseEvent::ButtonReleased(button))
}

fn filled() -> Caches {
    let mut caches = Caches::default();
    caches.board.fill(800, 800, Vec::new());
    caches.board_overlay.fill(800, 800, Vec::new());
    caches.pieces.fill(800, 800, Vec::new());
    caches.drag.fill(800, 800, Vec::new());
    caches.overlay.fill(800, 800, Vec::new());
    caches
}

/// Which caches are still filled: tiles, markers, pieces, drag, arrows.
fn kept(caches: &Caches) -> [bool; 5] {
    [
        caches.board.filled,
        caches.board_overlay.filled,
        caches.pieces.filled,
        caches.drag.filled,
        caches.overlay.filled,
    ]
}

fn dests(moves: &[ChessMove]) -> Vec<Square> {
    moves.iter().map(|m| m.get_dest()).collect()
}

#[test]
fn a_new_overlay_is_empty() {
    let overlay = Overlay::new();
    assert!(overlay.hints.is_empty());
    assert_eq!(overlay.selected, None);
    assert_eq!(overlay.drag, None);
    assert_eq!(overlay.highlight, SquareSet::new());
    assert_eq!(overlay.anchor, None);
    assert!(overlay.arrows.is_empty());
}

#[test]
fn left_press_on_a_piece_selects_it_and_hints_its_moves() {
    let mut overlay = Overlay::new();
    let mut caches = filled();
    let state = show(GameState::default());
    let response =
        overlay.on_event(&pressed(Button::Left), BOUNDS, over("g1"), &state, &TAKING, &mut caches);
    assert_eq!(response, Response { publish: None, redraw: true });
    assert_eq!(overlay.selected, Some(at("g1")));
    assert_eq!(overlay.drag, Some(Point { x: 6500, y: 499 }));
    assert_eq!(overlay.hints.len(), 2);
    assert!(overlay.hints.contains(&go("g1", "f3")));
    assert!(overlay.hints.contains(&go("g1", "h3")));
    assert_eq!(kept(&caches), [true, false, false, false, false]);
}

#[test]
fn hints_are_the_engines_destinations_once_each() {
    let state = show(GameState::default());
    for i in 0..64usize {
        let sq = Square::nth(i);
        let name = format!(
            "{}{}",
            (b'a' + sq.get_file().to_index() as u8) as char,
            (b'1' + sq.get_rank().to_index() as u8) as char
        );
        let mut overlay = Overlay::new();
        let mut caches = Caches::default();
        overlay.on_event(&pressed(Button::Left), BOUNDS, over(&name), &state, &TAKING, &mut caches);
        let mut expected: Vec<Square> = Vec::new();
        for m in chess::MoveGen::new_legal(&state.game.board) {
            if m.get_source().to_index() == i {
                let dest = Square::nth(m.get_dest().to_index());
                if !expected.contains(&dest) {
                    expected.push(dest);
                }
            }
        }
        assert_eq!(dests(&overlay.hints), expected);
        for hint in overlay.hints.iter() {
            assert_eq!(hint.get_source(), sq);
        }
    }
}

#[test]
fn promotions_collapse_to_the_queen() {
    let state = show(fen("1n5k/P7/8/8/8/8/8/4K3 w - - 0 1"));
    let mut overlay = Overlay::new();
    let mut caches = Caches::default();
    overlay.on_event(&pressed(Button::Left), BOUNDS, over("a7"), &state, &TAKING, &mut caches);
    assert_eq!(overlay.hints.len(), 2);
    assert!(overlay.hints.contains(&promote("a7", "a8", Piece::Queen)));
    assert!(overlay.hints.contains(&promote("a7", "b8", Piece::Queen)));
    assert_eq!(chess::MoveGen::new_legal(&state.game.board).filter(|m| m.get_source() == chess::Square::A7).count(), 8);
}

#[test]
fn collapsing_keeps_one_move_for_each_destination() {
    let moves = vec![
        promote("a7", "a8", Piece::Knight),
        go("b2", "b3"),
        promote("a7", "a8", Piece::Queen),
        promote("a7", "b8", Piece::Rook),
        promote("a7", "a8", Piece::Bishop),
        promote("a7", "b8", Piece::Bishop),
        go("a7", "a6"),
    ];
    let hints = collapse_hints(&moves, at("a7"));
    assert_eq!(
        hints,
        vec![
            promote("a7", "a8", Piece::Queen),
            promote("a7", "b8", Piece::Rook),
            go("a7", "a6"),
        ]
    );
    assert_eq!(collapse_hints(&moves, at("b2")), vec![go("b2", "b3")]);
    assert_eq!(collapse_hints(&moves, at("c2")), Vec::new());
    assert_eq!(collapse_hints(&Vec::new(), at("a7")), Vec::new());
}

#[test]
fn without_a_taker_of_moves_there_are_no_hints() {
    let mut overlay = Overlay::new();
    let mut caches = filled();
    let state = show(GameState::default());
    let response =
        overlay.on_event(&pressed(Button::Left), BOUNDS, over("g1"), &state, &WATCHING, &mut caches);
    assert_eq!(response, Response { publish: None, redraw: true });
    assert_eq!(overlay.selected, Some(at("g1")));
    assert!(overlay.drag.is_some());
    assert!(overlay.hints.is_empty());
}

#[test]
fn left_press_on_an_empty_square_drops_the_selection() {
    let mut overlay = Overlay::new();
    let mut caches = Caches::default();
    let state = show(GameState::default());
    overlay.on_event(&pressed(Button::Left), BOUNDS, over("g1"), &state, &TAKING, &mut caches);
    overlay.on_event(&released(Button::Left), BOUNDS, over("g1"), &state, &TAKING, &mut caches);
    assert_eq!(overlay.selected, Some(at("g1")));
    assert_eq!(overlay.drag, None);
    assert_eq!(overlay.hints.len(), 2);
    let mut caches = filled();
    let response =
        overlay.on_event(&pressed(Button::Left), BOUNDS, over("e4"), &state, &TAKING, &mut caches);
    assert_eq!(response, Response { publish: None, redraw: true });
    assert_eq!(overlay.selected, None);
    assert!(overlay.hints.is_empty());
    assert_eq!(overlay.drag, None);
    assert_eq!(kept(&caches), [true, false, false, false, false]);
}

#[test]
fn click_then_click_proposes_the_move() {
    let mut overlay = Overlay::new();
    let mut caches = Caches::default();
    let state = show(GameState::default());
    overlay.on_event(&pressed(Button::Left), BOUNDS, over("e2"), &state, &TAKING, &mut caches);
    let response =
        overlay.on_event(&released(Button::Left), BOUNDS, over("e2"), &state, &TAKING, &mut caches);
    assert_eq!(response, Response { publish: None, redraw: true });
    assert_eq!(overlay.selected, Some(at("e2")));
    let mut caches = filled();
    let response =
        overlay.on_event(&pressed(Button::Left), BOUNDS, over("e4"), &state, &TAKING, &mut caches);
    assert_eq!(response, Response { publish: Some(go("e2", "e4")), redraw: false });
    assert_eq!(overlay.selected, None);
    assert!(overlay.hints.is_empty());
    assert_eq!(kept(&caches), [true, false, true, true, false]);
}

#[test]
fn drag_and_drop_proposes_the_move() {
    let mut overlay = Overlay::new();
    let mut caches = Caches::default();
    let state = show(GameState::default());
    overlay.on_event(&pressed(Button::Left), BOUNDS, over("e2"), &state, &TAKING, &mut caches);
    let moved = Event::Mouse(MouseEvent::CursorMoved);
    let response = overlay.on_event(&moved, BOUNDS, over("e3"), &state, &TAKING, &mut caches);
    assert_eq!(response, Response { publish: None, redraw: true });
    assert_eq!(overlay.drag, Some(middle("e3")));
    let mut caches = filled();
    let response =
        overlay.on_event(&released(Button::Left), BOUNDS, over("e4"), &state, &TAKING, &mut caches);
    assert_eq!(response, Response { publish: Some(go("e2", "e4")), redraw: true });
    assert_eq!(overlay.selected, None);
    assert_eq!(overlay.drag, None);
    assert!(overlay.hints.is_empty());
    assert_eq!(kept(&caches), [true, false, false, false, false]);
}

#[test]
fn a_drop_elsewhere_keeps_the_selection() {
    let mut overlay = Overlay::new();
    let mut caches = Caches::default();
    let state = show(GameState::default());
    overlay.on_event(&pressed(Button::Left), BOUNDS, over("e2"), &state, &TAKING, &mut caches);
    let mut caches = filled();
    let response =
        overlay.on_event(&released(Button::Left), BOUNDS, over("h5"), &state, &TAKING, &mut caches);
    assert_eq!(response, Response { publish: None, redraw: true });
    assert_eq!(overlay.selected, Some(at("e2")));
    assert_eq!(overlay.drag, None);
    assert_eq!(overlay.hints.len(), 2);
    assert_eq!(kept(&caches), [true, false, false, false, false]);
    let response = overlay.on_event(
        &released(Button::Left),
        BOUNDS,
        Cursor::Unavailable,
        &state,
        &TAKING,
        &mut caches,
    );
    assert_eq!(response, Response { publish: None, redraw: true });
    assert_eq!(overlay.selected, Some(at("e2")));
}

#[test]
fn a_release_with_nothing_dragged_changes_nothing_but_the_layers() {
    let mut overlay = Overlay::new();
    let mut caches = filled();
    let state = show(GameState::default());
    let response =
        overlay.on_event(&released(Button::Left), BOUNDS, over("e4"), &state, &TAKING, &mut caches);
    assert_eq!(response, Response { publish: None, redraw: true });
    assert_eq!(overlay.selected, None);
    assert_eq!(overlay.drag, None);
    assert_eq!(kept(&caches), [true, false, false, false, false]);
}

#[test]
fn a_pointer_move_without_a_drag_is_ignored() {
    let mut overlay = Overlay::new();
    let mut caches = filled();
    let state = show(GameState::default());
    let moved = Event::Mouse(MouseEvent::CursorMoved);
    let response = overlay.on_event(&moved, BOUNDS, over("e3"), &state, &TAKING, &mut caches);
    assert_eq!(response, Response { publish: None, redraw: false });
    assert_eq!(overlay.drag, None);
    assert_eq!(kept(&caches), [true, true, true, true, true]);
}

#[test]
fn a_pointer_move_while_dragging_touches_two_layers() {
    let mut overlay = Overlay::new();
    let mut caches = Caches::default();
    let state = show(GameState::default());
    overlay.on_event(&pressed(Button::Left), BOUNDS, over("e2"), &state, &TAKING, &mut caches);
    let mut caches = filled();
    let moved = Event::Mouse(MouseEvent::CursorMoved);
    let response = overlay.on_event(&moved, BOUNDS, over("e3"), &state, &TAKING, &mut caches);
    assert_eq!(response, Response { publish: None, redraw: true });
    assert_eq!(kept(&caches), [true, false, true, false, true]);
    let mut caches = filled();
    let response =
        overlay.on_event(&moved, BOUNDS, Cursor::Unavailable, &state, &TAKING, &mut caches);
    assert_eq!(response, Response { publish: None, redraw: false });
    assert_eq!(overlay.drag, Some(middle("e3")));
    assert_eq!(kept(&caches), [true, true, true, true, true]);
}

#[test]
fn right_press_sets_the_anchor_and_drops_the_selection() {
    let mut overlay = Overlay::new();
    let mut caches = Caches::default();
    let state = show(GameState::default());
    overlay.on_event(&pressed(Button::Left), BOUNDS, over("e2"), &state, &TAKING, &mut caches);
    let mut caches = filled();
    let response =
        overlay.on_event(&pressed(Button::Right), BOUNDS, over("c3"), &state, &TAKING, &mut caches);
    assert_eq!(response, Response { publish: None, redraw: true });
    assert_eq!(overlay.anchor, Some(at("c3")));
    assert_eq!(overlay.selected, None);
    assert_eq!(overlay.drag, None);
    assert!(overlay.hints.is_empty());
    assert_eq!(kept(&caches), [true, false, true, true, true]);
}

#[test]
fn right_click_toggles_a_mark() {
    let mut overlay = Overlay::new();
    let mut caches = filled();
    let state = show(GameState::default());
    overlay.on_event(&pressed(Button::Right), BOUNDS, over("c3"), &state, &TAKING, &mut caches);
    let mut caches = filled();
    let response =
        overlay.on_event(&released(Button::Right), BOUNDS, over("c3"), &state, &TAKING, &mut caches);
    assert_eq!(response, Response { publish: None, redraw: true });
    assert!(overlay.highlight.contains(at("c3")));
    assert_eq!(overlay.highlight.bits, 1 << 18);
    assert_eq!(overlay.anchor, None);
    assert_eq!(kept(&caches), [true, false, true, true, true]);
    overlay.on_event(&pressed(Button::Right), BOUNDS, over("h8"), &state, &TAKING, &mut caches);
    overlay.on_event(&released(Button::Right), BOUNDS, over("h8"), &state, &TAKING, &mut caches);
    assert_eq!(overlay.highlight.bits, (1 << 18) | (1 << 63));
    overlay.on_event(&pressed(Button::Right), BOUNDS, over("c3"), &state, &TAKING, &mut caches);
    overlay.on_event(&released(Button::Right), BOUNDS, over("c3"), &state, &TAKING, &mut caches);
    assert!(!overlay.highlight.contains(at("c3")));
    assert_eq!(overlay.highlight.bits, 1 << 63);
}

#[test]
fn toggling_a_mark_twice_gives_the_marks_back() {
    let state = show(GameState::default());
    for i in 0..64usize {
        let sq = Square::nth(i);
        let mut set = SquareSet { bits: 0x0123_4567_89ab_cdef };
        set.toggle(sq);
        assert_ne!(set.bits, 0x0123_4567_89ab_cdef);
        set.toggle(sq);
        assert_eq!(set.bits, 0x0123_4567_89ab_cdef);
    }
    let mut overlay = Overlay::new();
    let mut caches = Caches::default();
    overlay.highlight = SquareSet { bits: 0xff00 };
    for _ in 0..2 {
        overlay.on_event(&pressed(Button::Right), BOUNDS, over("a2"), &state, &TAKING, &mut caches);
        overlay.on_event(&released(Button::Right), BOUNDS, over("a2"), &state, &TAKING, &mut caches);
    }
    assert_eq!(overlay.highlight.bits, 0xff00);
}

#[test]
fn right_drag_toggles_an_arrow() {
    let mut overlay = Overlay::new();
    let mut caches = filled();
    let state = show(GameState::default());
    overlay.on_event(&pressed(Button::Right), BOUNDS, over("g1"), &state, &TAKING, &mut caches);
    let mut caches = filled();
    let response =
        overlay.on_event(&released(Button::Right), BOUNDS, over("f3"), &state, &TAKING, &mut caches);
    assert_eq!(response, Response { publish: None, redraw: true });
    assert_eq!(overlay.arrows, vec![go("g1", "f3")]);
    assert_eq!(overlay.anchor, None);
    assert_eq!(overlay.highlight.bits, 0);
    assert_eq!(kept(&caches), [true, true, true, true, false]);
    overlay.on_event(&pressed(Button::Right), BOUNDS, over("a1"), &state, &TAKING, &mut caches);
    overlay.on_event(&released(Button::Right), BOUNDS, over("a8"), &state, &TAKING, &mut caches);
    assert_eq!(overlay.arrows, vec![go("g1", "f3"), go("a1", "a8")]);
    overlay.on_event(&pressed(Button::Right), BOUNDS, over("g1"), &state, &TAKING, &mut caches);
    overlay.on_event(&released(Button::Right), BOUNDS, over("f3"), &state, &TAKING, &mut caches);
    assert_eq!(overlay.arrows, vec![go("a1", "a8")]);
}

#[test]
fn toggling_an_arrow_twice_keeps_the_same_arrows() {
    let state = show(GameState::default());
    let mut overlay = Overlay::new();
    let mut caches = Caches::default();
    overlay.arrows = vec![go("a1", "a8"), go("b1", "c3")];
    for _ in 0..2 {
        overlay.on_event(&pressed(Button::Right), BOUNDS, over("h1"), &state, &TAKING, &mut caches);
        overlay.on_event(&released(Button::Right), BOUNDS, over("h5"), &state, &TAKING, &mut caches);
    }
    assert_eq!(overlay.arrows, vec![go("a1", "a8"), go("b1", "c3")]);
    for _ in 0..2 {
        overlay.on_event(&pressed(Button::Right), BOUNDS, over("b1"), &state, &TAKING, &mut caches);
        overlay.on_event(&released(Button::Right), BOUNDS, over("c3"), &state, &TAKING, &mut caches);
    }
    assert_eq!(overlay.arrows, vec![go("a1", "a8"), go("b1", "c3")]);
    for _ in 0..2 {
        overlay.on_event(&pressed(Button::Right), BOUNDS, over("a1"), &state, &TAKING, &mut caches);
        overlay.on_event(&released(Button::Right), BOUNDS, over("a8"), &state, &TAKING, &mut caches);
    }
    assert_eq!(overlay.arrows, vec![go("b1", "c3"), go("a1", "a8")]);
}

#[test]
fn a_right_release_without_an_anchor_does_nothing() {
    let mut overlay = Overlay::new();
    let mut caches = filled();
    let state = show(GameState::default());
    let response =
        overlay.on_event(&released(Button::Right), BOUNDS, over("c3"), &state, &TAKING, &mut caches);
    assert_eq!(response, Response { publish: None, redraw: false });
    assert_eq!(overlay.highlight.bits, 0);
    assert!(overlay.arrows.is_empty());
    assert_eq!(kept(&caches), [true, true, true, true, true]);
}

#[test]
fn a_right_release_off_the_board_keeps_the_anchor() {
    let mut overlay = Overlay::new();
    let mut caches = Caches::default();
    let state = show(GameState::default());
    overlay.on_event(&pressed(Button::Right), BOUNDS, over("c3"), &state, &TAKING, &mut caches);
    let mut caches = filled();
    let response = overlay.on_event(
        &released(Button::Right),
        BOUNDS,
        Cursor::Unavailable,
        &state,
        &TAKING,
        &mut caches,
    );
    assert_eq!(response, Response { publish: None, redraw: false });
    assert_eq!(overlay.anchor, Some(at("c3")));
    assert_eq!(kept(&caches), [true, true, true, true, true]);
}

#[test]
fn any_left_press_wipes_marks_and_arrows() {
    let mut overlay = Overlay::new();
    let mut caches = Caches::default();
    let state = show(GameState::default());
    overlay.highlight.toggle(at("c3"));
    overlay.arrows = vec![go("a1", "a8")];
    overlay.on_event(&pressed(Button::Left), BOUNDS, over("e5"), &state, &TAKING, &mut caches);
    assert_eq!(overlay.highlight.bits, 0);
    assert!(overlay.arrows.is_empty());
}

#[test]
fn a_press_off_the_board_is_ignored() {
    let mut overlay = Overlay::new();
    let mut caches = filled();
    let state = show(GameState::default());
    overlay.highlight.toggle(at("c3"));
    for button in [Button::Left, Button::Right] {
        let response = overlay.on_event(
            &pressed(button),
            BOUNDS,
            Cursor::Available(Point { x: 5, y: 5 }),
            &state,
            &TAKING,
            &mut caches,
        );
        assert_eq!(response, Response { publish: None, redraw: false });
    }
    assert_eq!(overlay.highlight.bits, 1 << 18);
    assert_eq!(overlay.anchor, None);
    assert_eq!(kept(&caches), [true, true, true, true, true]);
}

#[test]
fn other_events_are_ignored() {
    let mut overlay = Overlay::new();
    let mut caches = filled();
    let state = show(GameState::default());
    for event in [
        Event::Other,
        Event::Mouse(MouseEvent::Other),
        pressed(Button::Other),
        released(Button::Other),
    ] {
        let response = overlay.on_event(&event, BOUNDS, over("e2"), &state, &TAKING, &mut caches);
        assert_eq!(response, Response { publish: None, redraw: false });
    }
    assert_eq!(overlay.selected, None);
    assert_eq!(kept(&caches), [true, true, true, true, true]);
}

#[test]
fn a_stale_hint_is_not_proposed_without_a_taker() {
    let mut overlay = Overlay::new();
    let mut caches = Caches::default();
    let state = show(GameState::default());
    overlay.on_event(&pressed(Button::Left), BOUNDS, over("e2"), &state, &TAKING, &mut caches);
    let response =
        overlay.on_event(&released(Button::Left), BOUNDS, over("e4"), &state, &WATCHING, &mut caches);
    assert_eq!(response, Response { publish: None, redraw: true });
    assert_eq!(overlay.selected, None);
}

#[test]
fn a_drag_always_has_a_selection() {
    let state = show(GameState::default());
    let names = ["e2", "e4", "g1", "f3", "a7", "h8", "d5"];
    let events = [
        pressed(Button::Left),
        Event::Mouse(MouseEvent::CursorMoved),
        pressed(Button::Right),
        released(Button::Left),
        released(Button::Right),
        Event::Other,
    ];
    let mut overlay = Overlay::new();
    let mut caches = Caches::default();
    let mut seed: usize = 12345;
    for _ in 0..4000 {
        seed = seed.wrapping_mul(1103515245).wrapping_add(12345) % 2147483648;
        let event = events[(seed >> 8) % events.len()];
        let cursor = if (seed >> 4) % 11 == 0 {
            Cursor::Unavailable
        } else {
            over(names[(seed >> 16) % names.len()])
        };
        let taking = Messages { on_move: (seed >> 3) % 4 != 0 };
        overlay.on_event(&event, BOUNDS, cursor, &state, &taking, &mut caches);
        assert!(overlay.drag.is_none() || overlay.selected.is_some());
        assert!(overlay.hints.is_empty() || overlay.selected.is_some());
        for (i, a) in overlay.arrows.iter().enumerate() {
            assert!(!overlay.arrows[..i].contains(a));
        }
        for (i, h) in overlay.hints.iter().enumerate() {
            assert_eq!(Some(h.get_source()), overlay.selected);
            assert!(overlay.hints[..i].iter().all(|g| g.get_dest() != h.get_dest()));
        }
    }
}

#[test]
fn the_pointer_shape_follows_the_pieces() {
    let mut overlay = Overlay::new();
    let mut caches = Caches::default();
    let state = show(GameState::default());
    assert_eq!(overlay.mouse_interaction(BOUNDS, over("e2"), &state), Interaction::Grab);
    assert_eq!(overlay.mouse_interaction(BOUNDS, over("e4"), &state), Interaction::Idle);
    assert_eq!(overlay.mouse_interaction(BOUNDS, Cursor::Unavailable, &state), Interaction::Idle);
    overlay.on_event(&pressed(Button::Left), BOUNDS, over("e2"), &state, &TAKING, &mut caches);
    assert_eq!(overlay.mouse_interaction(BOUNDS, over("e4"), &state), Interaction::Grabbing);
    assert_eq!(
        overlay.mouse_interaction(BOUNDS, Cursor::Unavailable, &state),
        Interaction::Grabbing
    );
}

#[test]
fn on_a_flipped_board_the_squares_turn_round() {
    let mut overlay = Overlay::new();
    let mut caches = Caches::default();
    let state = BState { game: GameState::default(), flipped: true };
    overlay.on_event(&pressed(Button::Left), BOUNDS, over("b8"), &state, &TAKING, &mut caches);
    assert_eq!(overlay.selected, Some(at("g1")));
    assert_eq!(overlay.hints.len(), 2);
}

#[test]
fn find_move_goes_by_destination() {
    let mut overlay = Overlay::new();
    overlay.selected = Some(at("e2"));
    overlay.hints = vec![go("e2", "e3"), go("e2", "e4")];
    assert_eq!(overlay.find_move(at("e4")), Some(go("e2", "e4")));
    assert_eq!(overlay.find_move(at("e3")), Some(go("e2", "e3")));
    assert_eq!(overlay.find_move(at("e5")), None);
    assert_eq!(overlay.find_move(at("e2")), None);
}
