//! The interaction state of the board: what is selected, dragged, hinted at,
//! highlighted and pointed at with arrows, and how pointer events change it.

use crate::board::{toggled, ChessMove, File, Piece, Rank, Square, SquareSet};
use crate::engine::{
    checkers, checkers_of, legal_moves, legal_moves_of, piece_at, piece_on, status, status_of,
};
use crate::geometry::{
    lemma_screen_units, spec_board_to_square, spec_cursor_board, spec_cursor_square,
    spec_pos_to_board, spec_pos_to_square, Cursor, Point, Rectangle,
};
use crate::widget::chess_board::event::{Button, Event, Interaction, MouseEvent, Response};
use crate::widget::chess_board::sound::{feedback, spec_feedback, SoundType};
use crate::widget::chess_board::{BState, Caches, Messages, Stale};
use vstd::prelude::*;

verus! {

/// The interaction state.
#[derive(Debug)]
pub struct Overlay {
    /// The moves the selected piece can make, one for each destination.
    pub hints: Vec<ChessMove>,
    /// The square of the piece picked up for a move.
    pub selected: Option<Square>,
    /// The board coordinate under the pointer while a piece is dragged.
    pub drag: Option<Point>,
    /// The squares the user marked.
    pub highlight: SquareSet,
    /// The square on which the right button went down.
    pub anchor: Option<Square>,
    /// The arrows the user drew, oldest first.
    pub arrows: Vec<ChessMove>,
}

#[verifier::ext_equal]
pub struct OverlayView {
    pub hints: Seq<ChessMove>,
    pub selected: Option<Square>,
    pub drag: Option<Point>,
    pub highlight: Set<Square>,
    pub anchor: Option<Square>,
    pub arrows: Seq<ChessMove>,
}

impl View for Overlay {
    type V = OverlayView;

    open spec fn view(&self) -> OverlayView {
        OverlayView {
            hints: self.hints@,
            selected: self.selected,
            drag: self.drag,
            highlight: self.highlight@,
            anchor: self.anchor,
            arrows: self.arrows@,
        }
    }
}

/// Whether a point is a board coordinate.
pub open spec fn on_board(p: Point) -> bool {
    0 <= p.x < 8000 && 0 <= p.y < 8000
}

/// Whether no two of the moves share a destination.
pub open spec fn distinct_dests(moves: Seq<ChessMove>) -> bool {
    forall|i: int, j: int| 0 <= i < j < moves.len() ==> moves[i].dest != moves[j].dest
}

/// Whether one of the moves lands on `dest`.
pub open spec fn reaches(moves: Seq<ChessMove>, dest: Square) -> bool {
    exists|k: int| 0 <= k < moves.len() && #[trigger] moves[k].dest == dest
}

/// The index of the first of the moves that lands on `dest`.
pub open spec fn first_to(moves: Seq<ChessMove>, dest: Square) -> Option<int>
    decreases moves.len(),
{
    if moves.len() == 0 {
        None
    } else {
        match first_to(moves.drop_last(), dest) {
            Some(i) => Some(i),
            None => if moves.last().dest == dest {
                Some(moves.len() - 1)
            } else {
                None
            },
        }
    }
}

/// The first of the hints that lands on `sq`.
pub open spec fn spec_find_move(hints: Seq<ChessMove>, sq: Square) -> Option<ChessMove> {
    match first_to(hints, sq) {
        Some(i) => Some(hints[i]),
        None => None,
    }
}

/// The hints after one more legal move is looked at. A move from another
/// square changes nothing. A move to a destination not hinted at yet is
/// added at the end. A promotion to a queen takes the place of the hint for
/// its destination; any other move to a destination already hinted at is
/// dropped.
pub open spec fn absorb(hints: Seq<ChessMove>, mv: ChessMove, from: Square) -> Seq<ChessMove> {
    if mv.source != from {
        hints
    } else {
        match first_to(hints, mv.dest) {
            None => hints.push(mv),
            Some(k) => if mv.promotion == Some(Piece::Queen) {
                hints.update(k, mv)
            } else {
                hints
            },
        }
    }
}

/// The hints for a piece on `from`, out of the legal moves of the position:
/// one move for each destination the piece can reach, in the order in which
/// the destinations first come up, the promotion to a queen where several
/// promotions share a destination.
pub open spec fn collapse(moves: Seq<ChessMove>, from: Square) -> Seq<ChessMove>
    decreases moves.len(),
{
    if moves.len() == 0 {
        Seq::empty()
    } else {
        absorb(collapse(moves.drop_last(), from), moves.last(), from)
    }
}

/// The arrows after the user draws `arrow`: without it if it was there, with
/// it at the end if it was not.
pub open spec fn toggle_arrow(arrows: Seq<ChessMove>, arrow: ChessMove) -> Seq<ChessMove> {
    match arrows.index_of_first(arrow) {
        Some(i) => arrows.remove(i),
        None => arrows.push(arrow),
    }
}

impl OverlayView {
    /// Nothing selected, dragged, hinted at, marked or drawn.
    pub open spec fn empty() -> OverlayView {
        OverlayView {
            hints: Seq::empty(),
            selected: None,
            drag: None,
            highlight: Set::empty(),
            anchor: None,
            arrows: Seq::empty(),
        }
    }

    /// What holds of every state the board can get into: a piece is dragged
    /// only while one is selected; there are hints only while a piece is
    /// selected, they start on its square, and no two share a destination;
    /// the drag point is on the board; no arrow is there twice.
    pub open spec fn inv(self) -> bool {
        &&& self.drag.is_some() ==> self.selected.is_some()
        &&& self.hints.len() > 0 ==> self.selected.is_some()
        &&& forall|k: int|
            0 <= k < self.hints.len() ==> Some((#[trigger] self.hints[k]).source) == self.selected
        &&& distinct_dests(self.hints)
        &&& self.drag matches Some(p) ==> on_board(p)
        &&& self.arrows.no_duplicates()
    }

    /// The state with the selection, its hints and the drag dropped.
    pub open spec fn clear_selection(self) -> OverlayView {
        OverlayView { hints: Seq::empty(), selected: None, drag: None, ..self }
    }

    /// The state with the marks and the arrows wiped.
    pub open spec fn clear_overlay(self) -> OverlayView {
        OverlayView { arrows: Seq::empty(), highlight: Set::empty(), ..self }
    }
}

/// What an event leads to: the next state, the layers to draw afresh, and
/// what to tell the host.
#[verifier::ext_equal]
pub struct Outcome {
    pub overlay: OverlayView,
    pub stale: Stale,
    pub response: Response,
}

/// The outcome of an event that the board ignores.
pub open spec fn ignored(o: OverlayView) -> Outcome {
    Outcome { overlay: o, stale: Stale::nothing(), response: Response::spec_none() }
}

/// The right button goes down on `sq`: the square becomes the anchor and
/// any selection is dropped. Off the board nothing happens.
pub open spec fn on_right_press(o: OverlayView, sq: Option<Square>) -> Outcome {
    match sq {
        Some(s) => Outcome {
            overlay: OverlayView { anchor: Some(s), ..o.clear_selection() },
            stale: Stale { board_overlay: true, ..Stale::nothing() },
            response: Response { publish: None, redraw: true },
        },
        None => ignored(o),
    }
}

/// The right button comes up on `sq`. On the anchor, the square's mark is
/// toggled; on another square, the arrow from the anchor to it is toggled.
/// Either way the anchor is spent. Without an anchor, or off the board,
/// nothing happens.
pub open spec fn on_right_release(o: OverlayView, sq: Option<Square>) -> Outcome {
    match (o.anchor, sq) {
        (Some(a), Some(s)) => if s == a {
            Outcome {
                overlay: OverlayView { highlight: toggled(o.highlight, s), anchor: None, ..o },
                stale: Stale { board_overlay: true, ..Stale::nothing() },
                response: Response { publish: None, redraw: true },
            }
        } else {
            Outcome {
                overlay: OverlayView {
                    arrows: toggle_arrow(
                        o.arrows,
                        ChessMove { source: a, dest: s, promotion: None },
                    ),
                    anchor: None,
                    ..o
                },
                stale: Stale { overlay: true, ..Stale::nothing() },
                response: Response { publish: None, redraw: true },
            }
        },
        _ => ignored(o),
    }
}

/// The left button goes down at the board coordinate `at`. Marks and arrows
/// are wiped. On the destination of a hint, that move is proposed (if the
/// host takes moves) and the selection dropped. Else, on an empty square
/// (`occupied` is false) the selection is dropped; on a piece, the piece is
/// selected and dragged, with hints out of `moves`, the legal moves of the
/// position, if the host takes moves.
pub open spec fn on_left_press(
    o: OverlayView,
    at: Option<Point>,
    occupied: bool,
    moves: Seq<ChessMove>,
    can_move: bool,
) -> Outcome {
    match at {
        None => ignored(o),
        Some(pos) => {
            let sq = spec_board_to_square(pos.x as int, pos.y as int);
            let wiped = o.clear_overlay();
            match spec_find_move(o.hints, sq) {
                Some(mv) => Outcome {
                    overlay: wiped.clear_selection(),
                    stale: Stale { board_overlay: true, overlay: true, ..Stale::nothing() },
                    response: Response {
                        publish: if can_move {
                            Some(mv)
                        } else {
                            None
                        },
                        redraw: false,
                    },
                },
                None => Outcome {
                    overlay: if occupied {
                        OverlayView {
                            hints: if can_move {
                                collapse(moves, sq)
                            } else {
                                Seq::empty()
                            },
                            selected: Some(sq),
                            drag: Some(pos),
                            ..wiped
                        }
                    } else {
                        wiped.clear_selection()
                    },
                    stale: Stale { board: false, ..Stale::everything() },
                    response: Response { publish: None, redraw: true },
                },
            }
        },
    }
}

/// The left button comes up over `sq`, or off the board. The drag ends. On
/// the destination of a hint, that move is proposed (if the host takes
/// moves) and the selection dropped.
pub open spec fn on_left_release(o: OverlayView, sq: Option<Square>, can_move: bool) -> Outcome {
    let found = match sq {
        Some(s) => spec_find_move(o.hints, s),
        None => None,
    };
    let dropped = OverlayView { drag: None, ..o };
    Outcome {
        overlay: if found.is_some() {
            dropped.clear_selection()
        } else {
            dropped
        },
        stale: Stale { board: false, ..Stale::everything() },
        response: Response {
            publish: if can_move {
                found
            } else {
                None
            },
            redraw: true,
        },
    }
}

/// The pointer moves to the board coordinate `at`. While a piece is
/// dragged, the drag follows.
pub open spec fn on_cursor_moved(o: OverlayView, at: Option<Point>) -> Outcome {
    if o.drag.is_some() && at.is_some() {
        Outcome {
            overlay: OverlayView { drag: at, ..o },
            stale: Stale { drag: true, board_overlay: true, ..Stale::nothing() },
            response: Response { publish: None, redraw: true },
        }
    } else {
        ignored(o)
    }
}

/// The outcome of a pointer event, with the pointer at `cursor` over a
/// board drawn in `bounds` and showing `state`.
pub open spec fn spec_on_event_mouse(
    o: OverlayView,
    event: MouseEvent,
    bounds: Rectangle,
    cursor: Cursor,
    state: BState,
    messages: Messages,
) -> Outcome {
    let sq = spec_cursor_square(bounds, cursor, state.flipped);
    let at = spec_cursor_board(bounds, cursor, state.flipped);
    match event {
        MouseEvent::ButtonPressed(Button::Right) => on_right_press(o, sq),
        MouseEvent::ButtonReleased(Button::Right) => on_right_release(o, sq),
        MouseEvent::ButtonPressed(Button::Left) => on_left_press(
            o,
            at,
            sq matches Some(s) && piece_at(state.game.board, s).is_some(),
            legal_moves_of(state.game.board),
            messages.on_move,
        ),
        MouseEvent::ButtonReleased(Button::Left) => on_left_release(o, sq, messages.on_move),
        MouseEvent::CursorMoved => on_cursor_moved(o, at),
        _ => ignored(o),
    }
}

/// The outcome of any event: pointer events count, the rest is ignored.
pub open spec fn spec_on_event(
    o: OverlayView,
    event: Event,
    bounds: Rectangle,
    cursor: Cursor,
    state: BState,
    messages: Messages,
) -> Outcome {
    match event {
        Event::Mouse(mouse) => spec_on_event_mouse(o, mouse, bounds, cursor, state, messages),
        Event::Other => ignored(o),
    }
}

/// The state after the board is given `next` to show in place of
/// `previous`: as before if the game is the same, else with the selection,
/// the marks and the arrows gone.
pub open spec fn spec_on_diff(o: OverlayView, previous: BState, next: BState) -> OverlayView {
    if previous.game == next.game {
        o
    } else {
        o.clear_selection().clear_overlay()
    }
}

/// The sound for that change: none if the game is the same, else the one
/// sound that fits the new position.
pub open spec fn spec_diff_sound(previous: BState, next: BState) -> Option<SoundType> {
    if previous.game == next.game {
        None
    } else {
        Some(
            spec_feedback(
                status_of(next.game.board),
                checkers_of(next.game.board),
                next.game.annotation,
            ),
        )
    }
}

/// The pointer shape over the board: a closed hand while a piece is
/// dragged, an open hand over a piece, the usual pointer elsewhere.
pub open spec fn spec_mouse_interaction(
    o: OverlayView,
    bounds: Rectangle,
    cursor: Cursor,
    state: BState,
) -> Interaction {
    if o.drag.is_some() {
        Interaction::Grabbing
    } else {
        match spec_cursor_square(bounds, cursor, state.flipped) {
            Some(sq) => if piece_at(state.game.board, sq).is_some() {
                Interaction::Grab
            } else {
                Interaction::Idle
            },
            None => Interaction::Idle,
        }
    }
}

/// What `first_to` finds is the first move to the destination, and it finds
/// none only where there is none.
pub proof fn lemma_first_to(moves: Seq<ChessMove>, dest: Square)
    ensures
        match first_to(moves, dest) {
            Some(i) => {
                &&& 0 <= i < moves.len()
                &&& moves[i].dest == dest
                &&& forall|j: int| 0 <= j < i ==> moves[j].dest != dest
            },
            None => forall|j: int| 0 <= j < moves.len() ==> moves[j].dest != dest,
        },
    decreases moves.len(),
{
    if moves.len() > 0 {
        let before = moves.drop_last();
        lemma_first_to(before, dest);
        assert forall|j: int| 0 <= j < before.len() implies before[j] == moves[j] by {}
        match first_to(before, dest) {
            Some(i) => {
                assert(moves[i] == before[i]);
            },
            None => {
                assert forall|j: int| 0 <= j < moves.len() - 1 implies moves[j].dest != dest by {
                    assert(before[j].dest != dest);
                }
            },
        }
    }
}

/// The first move to a destination is found at `i` if it stands there and
/// none before it goes to the destination.
pub proof fn lemma_first_to_is(moves: Seq<ChessMove>, dest: Square, i: int)
    requires
        0 <= i < moves.len(),
        moves[i].dest == dest,
        forall|j: int| 0 <= j < i ==> moves[j].dest != dest,
    ensures
        first_to(moves, dest) == Some(i),
{
    lemma_first_to(moves, dest);
}

/// The hints hold one move for each destination that the piece on `from`
/// can reach, and nothing else: each hint is a legal move from `from`; no
/// two hints share a destination; every legal move from `from` has its
/// destination hinted at; and where a promotion to a queen is among the
/// legal moves, it is the hint for its destination.
pub proof fn lemma_collapse(moves: Seq<ChessMove>, from: Square)
    ensures
        distinct_dests(collapse(moves, from)),
        forall|k: int|
            0 <= k < collapse(moves, from).len() ==> {
                &&& (#[trigger] collapse(moves, from)[k]).source == from
                &&& moves.contains(collapse(moves, from)[k])
            },
        forall|i: int|
            0 <= i < moves.len() && (#[trigger] moves[i]).source == from ==> reaches(
                collapse(moves, from),
                moves[i].dest,
            ),
        forall|i: int, k: int|
            0 <= i < moves.len() && 0 <= k < collapse(moves, from).len() && (#[trigger] moves[i]).source
                == from && moves[i].promotion == Some(Piece::Queen) && (#[trigger] collapse(
                moves,
                from,
            )[k]).dest == moves[i].dest ==> collapse(moves, from)[k] == moves[i],
    decreases moves.len(),
{
    let hints = collapse(moves, from);
    if moves.len() > 0 {
        let before = moves.drop_last();
        let kept = collapse(before, from);
        let mv = moves.last();
        lemma_collapse(before, from);
        lemma_first_to(kept, mv.dest);
        assert(hints == absorb(kept, mv, from));
        assert(hints.len() >= kept.len());
        assert forall|k: int| 0 <= k < kept.len() implies (#[trigger] hints[k]).dest
            == kept[k].dest by {}
        assert forall|k: int| 0 <= k < hints.len() implies {
            &&& (#[trigger] hints[k]).source == from
            &&& moves.contains(hints[k])
        } by {
            if k < kept.len() && hints[k] == kept[k] {
                let i = choose|i: int| 0 <= i < before.len() && before[i] == kept[k];
                assert(moves[i] == kept[k]);
            } else {
                assert(hints[k] == mv);
                assert(moves[moves.len() - 1] == mv);
            }
        }
        assert forall|i: int| 0 <= i < moves.len() && (#[trigger] moves[i]).source
            == from implies reaches(hints, moves[i].dest) by {
            if i < before.len() {
                assert(before[i] == moves[i]);
                assert(reaches(kept, before[i].dest));
                let k = choose|k: int| 0 <= k < kept.len() && #[trigger] kept[k].dest == before[i].dest;
                assert(hints[k].dest == moves[i].dest);
            } else {
                match first_to(kept, mv.dest) {
                    Some(k) => {
                        assert(hints[k].dest == mv.dest);
                    },
                    None => {
                        assert(hints[kept.len() as int].dest == mv.dest);
                    },
                }
            }
        }
        assert forall|i: int, k: int|
            0 <= i < moves.len() && 0 <= k < hints.len() && (#[trigger] moves[i]).source == from
                && moves[i].promotion == Some(Piece::Queen) && (#[trigger] hints[k]).dest
                == moves[i].dest implies hints[k] == moves[i] by {
            if i < before.len() {
                assert(before[i] == moves[i]);
                if k < kept.len() {
                    assert(kept[k].dest == before[i].dest);
                    assert(kept[k] == before[i]);
                } else {
                    assert(reaches(kept, before[i].dest));
                }
            } else {
                if k < kept.len() && hints[k] == kept[k] {
                    assert(first_to(kept, mv.dest).is_some());
                }
            }
        }
    }
}

/// Toggling an arrow keeps the arrows free of duplicates, and changes for
/// no other arrow whether it is there.
pub proof fn lemma_toggle_arrow(arrows: Seq<ChessMove>, arrow: ChessMove)
    requires
        arrows.no_duplicates(),
    ensures
        toggle_arrow(arrows, arrow).no_duplicates(),
        toggle_arrow(arrows, arrow).contains(arrow) == !arrows.contains(arrow),
        forall|other: ChessMove|
            other != arrow ==> toggle_arrow(arrows, arrow).contains(other) == arrows.contains(
                other,
            ),
{
    let after = toggle_arrow(arrows, arrow);
    arrows.index_of_first_ensures(arrow);
    match arrows.index_of_first(arrow) {
        Some(i) => {
            assert forall|a: int, b: int| 0 <= a < after.len() && 0 <= b < after.len() && a
                != b implies after[a] != after[b] by {
                let a0 = if a < i {
                    a
                } else {
                    a + 1
                };
                let b0 = if b < i {
                    b
                } else {
                    b + 1
                };
                assert(after[a] == arrows[a0] && after[b] == arrows[b0]);
            }
            if after.contains(arrow) {
                let a = choose|a: int| 0 <= a < after.len() && after[a] == arrow;
                let a0 = if a < i {
                    a
                } else {
                    a + 1
                };
                assert(after[a] == arrows[a0]);
            }
            assert forall|other: ChessMove| other != arrow implies after.contains(other)
                == arrows.contains(other) by {
                if arrows.contains(other) {
                    let a0 = choose|a: int| 0 <= a < arrows.len() && arrows[a] == other;
                    let a = if a0 < i {
                        a0
                    } else {
                        a0 - 1
                    };
                    assert(after[a] == other);
                }
                if after.contains(other) {
                    let a = choose|a: int| 0 <= a < after.len() && after[a] == other;
                    let a0 = if a < i {
                        a
                    } else {
                        a + 1
                    };
                    assert(arrows[a0] == other);
                }
            }
        },
        None => {
            assert(after[arrows.len() as int] == arrow);
            assert forall|other: ChessMove| other != arrow implies after.contains(other)
                == arrows.contains(other) by {
                if arrows.contains(other) {
                    let a0 = choose|a: int| 0 <= a < arrows.len() && arrows[a] == other;
                    assert(after[a0] == other);
                }
                if after.contains(other) {
                    let a = choose|a: int| 0 <= a < after.len() && after[a] == other;
                    assert(arrows[a] == other);
                }
            }
        },
    }
}

/// Toggling the same arrow twice leaves the same arrows: none is gained and
/// none is lost.
pub proof fn lemma_toggle_arrow_twice(arrows: Seq<ChessMove>, arrow: ChessMove)
    requires
        arrows.no_duplicates(),
    ensures
        toggle_arrow(toggle_arrow(arrows, arrow), arrow).no_duplicates(),
        toggle_arrow(toggle_arrow(arrows, arrow), arrow).to_set() == arrows.to_set(),
{
    let once = toggle_arrow(arrows, arrow);
    let twice = toggle_arrow(once, arrow);
    lemma_toggle_arrow(arrows, arrow);
    lemma_toggle_arrow(once, arrow);
    assert forall|m: ChessMove| twice.to_set().contains(m) == arrows.to_set().contains(m) by {
        assert(twice.contains(m) == arrows.contains(m));
    }
    assert(twice.to_set() =~= arrows.to_set());
}

/// Toggling the same arrow twice also leaves the arrows in the same order,
/// unless the arrow was there with others drawn after it: then it ends up
/// last.
pub proof fn lemma_toggle_arrow_twice_in_order(arrows: Seq<ChessMove>, arrow: ChessMove)
    requires
        arrows.no_duplicates(),
    ensures
        !arrows.contains(arrow) || arrows.last() == arrow ==> toggle_arrow(
            toggle_arrow(arrows, arrow),
            arrow,
        ) == arrows,
        arrows.contains(arrow) ==> toggle_arrow(toggle_arrow(arrows, arrow), arrow)
            == arrows.remove(arrows.index_of(arrow)).push(arrow),
{
    let once = toggle_arrow(arrows, arrow);
    let twice = toggle_arrow(once, arrow);
    lemma_toggle_arrow(arrows, arrow);
    arrows.index_of_first_ensures(arrow);
    once.index_of_first_ensures(arrow);
    match arrows.index_of_first(arrow) {
        Some(i) => {
            assert(arrows.index_of(arrow) == i);
            assert(twice == arrows.remove(i).push(arrow));
            if arrows.last() == arrow {
                assert(i == arrows.len() - 1);
                assert(twice =~= arrows);
            }
        },
        None => {
            assert(once[arrows.len() as int] == arrow);
            assert(once.index_of_first(arrow) == Some(arrows.len() as int));
            assert(twice =~= arrows);
        },
    }
}

/// The state after a right click on `sq`: the button goes down and comes up
/// on the same square.
pub open spec fn after_right_click(o: OverlayView, sq: Square) -> OverlayView {
    on_right_release(on_right_press(o, Some(sq)).overlay, Some(sq)).overlay
}

/// The state after a right drag from `from` to `to`.
pub open spec fn after_right_drag(o: OverlayView, from: Square, to: Square) -> OverlayView {
    on_right_release(on_right_press(o, Some(from)).overlay, Some(to)).overlay
}

/// A right click on a square toggles its mark and touches no other mark and
/// no arrow; a second click on the same square gives the marks back.
pub proof fn lemma_right_click_twice(o: OverlayView, sq: Square)
    ensures
        after_right_click(o, sq).highlight == toggled(o.highlight, sq),
        after_right_click(o, sq).arrows == o.arrows,
        after_right_click(after_right_click(o, sq), sq).highlight == o.highlight,
{
    crate::board::lemma_toggle_twice(o.highlight, sq);
}

/// A right drag between two squares toggles the arrow between them and
/// touches no mark; a second drag between the same squares leaves the same
/// arrows, none gained and none lost.
pub proof fn lemma_right_drag_twice(o: OverlayView, from: Square, to: Square)
    requires
        o.arrows.no_duplicates(),
        from != to,
    ensures
        after_right_drag(o, from, to).arrows == toggle_arrow(
            o.arrows,
            ChessMove { source: from, dest: to, promotion: None },
        ),
        after_right_drag(o, from, to).highlight == o.highlight,
        after_right_drag(after_right_drag(o, from, to), from, to).arrows.to_set()
            == o.arrows.to_set(),
        after_right_drag(after_right_drag(o, from, to), from, to).arrows.no_duplicates(),
{
    lemma_toggle_arrow_twice(o.arrows, ChessMove { source: from, dest: to, promotion: None });
}

/// After a left press on a piece, not on the destination of a hint, while
/// the host takes moves, the hints are the destinations that the legal
/// moves give the piece, once each: every hint is a legal move of the
/// piece, no two hints share a destination, and every legal move of the
/// piece has its destination among the hints.
pub proof fn lemma_press_hints(o: OverlayView, at: Point, moves: Seq<ChessMove>)
    requires
        spec_find_move(o.hints, spec_board_to_square(at.x as int, at.y as int)).is_none(),
    ensures
        ({
            let sq = spec_board_to_square(at.x as int, at.y as int);
            let hints = on_left_press(o, Some(at), true, moves, true).overlay.hints;
            &&& on_left_press(o, Some(at), true, moves, true).overlay.selected == Some(sq)
            &&& hints == collapse(moves, sq)
            &&& distinct_dests(hints)
            &&& forall|k: int|
                0 <= k < hints.len() ==> (#[trigger] hints[k]).source == sq && moves.contains(
                    hints[k],
                )
            &&& forall|i: int|
                0 <= i < moves.len() && (#[trigger] moves[i]).source == sq ==> reaches(
                    hints,
                    moves[i].dest,
                )
        }),
{
    lemma_collapse(moves, spec_board_to_square(at.x as int, at.y as int));
}

/// Every pointer event keeps what holds of every state.
pub proof fn lemma_events_keep_inv(
    o: OverlayView,
    event: MouseEvent,
    bounds: Rectangle,
    cursor: Cursor,
    state: BState,
    messages: Messages,
)
    requires
        o.inv(),
    ensures
        spec_on_event_mouse(o, event, bounds, cursor, state, messages).overlay.inv(),
{
    let sq = spec_cursor_square(bounds, cursor, state.flipped);
    let at = spec_cursor_board(bounds, cursor, state.flipped);
    lemma_cursor_on_board(bounds, cursor, state.flipped);
    match event {
        MouseEvent::ButtonReleased(Button::Right) => {
            if let (Some(a), Some(s)) = (o.anchor, sq) {
                lemma_toggle_arrow(o.arrows, ChessMove { source: a, dest: s, promotion: None });
            }
        },
        MouseEvent::ButtonPressed(Button::Left) => {
            if let Some(pos) = at {
                lemma_collapse(
                    legal_moves_of(state.game.board),
                    spec_board_to_square(pos.x as int, pos.y as int),
                );
            }
        },
        _ => {},
    }
}

/// The pointer's board coordinate, where it has one, is on the board, and
/// its square is the square of that coordinate.
pub proof fn lemma_cursor_on_board(bounds: Rectangle, cursor: Cursor, flipped: bool)
    ensures
        spec_cursor_board(bounds, cursor, flipped) matches Some(at) ==> on_board(at),
        spec_cursor_square(bounds, cursor, flipped) == match spec_cursor_board(
            bounds,
            cursor,
            flipped,
        ) {
            Some(at) => Some(spec_board_to_square(at.x as int, at.y as int)),
            None => None,
        },
{
    if let Some(pos) = cursor.spec_position_in(bounds) {
        if bounds.on_grid(pos) {
            lemma_screen_units(bounds.spec_extent(), pos.x as int);
            lemma_screen_units(bounds.spec_extent(), pos.y as int);
        }
    }
}

/// The index of the first of the moves that lands on `dest`.
fn index_to(moves: &Vec<ChessMove>, dest: Square) -> (found: Option<usize>)
    ensures
        match found {
            Some(i) => first_to(moves@, dest) == Some(i as int) && i < moves.len(),
            None => first_to(moves@, dest).is_none(),
        },
{
    let mut i: usize = 0;
    while i < moves.len()
        invariant
            i <= moves.len(),
            forall|j: int| 0 <= j < i ==> moves@[j].dest != dest,
        decreases moves.len() - i,
    {
        if moves[i].dest == dest {
            proof {
                lemma_first_to_is(moves@, dest, i as int);
            }
            return Some(i);
        }
        i += 1;
    }
    proof {
        lemma_first_to(moves@, dest);
    }
    None
}

/// Picks the hints for the piece on `from` out of the legal moves of a
/// position: one move for each destination, the promotion to a queen where
/// promotions share one.
pub fn collapse_hints(moves: &Vec<ChessMove>, from: Square) -> (hints: Vec<ChessMove>)
    ensures
        hints@ == collapse(moves@, from),
        distinct_dests(hints@),
        forall|k: int|
            0 <= k < hints.len() ==> (#[trigger] hints@[k]).source == from && moves@.contains(
                hints@[k],
            ),
        forall|i: int|
            0 <= i < moves.len() && (#[trigger] moves@[i]).source == from ==> reaches(
                hints@,
                moves@[i].dest,
            ),
{
    let mut hints: Vec<ChessMove> = Vec::new();
    let mut i: usize = 0;
    while i < moves.len()
        invariant
            i <= moves.len(),
            hints@ == collapse(moves@.take(i as int), from),
        decreases moves.len() - i,
    {
        let mv: ChessMove = moves[i];
        proof {
            assert(moves@.take(i + 1).drop_last() =~= moves@.take(i as int));
            assert(moves@.take(i + 1).last() == mv);
        }
        if mv.source == from {
            match index_to(&hints, mv.dest) {
                None => {
                    hints.push(mv);
                },
                Some(k) => {
                    if mv.promotion == Some(Piece::Queen) {
                        hints.set(k, mv);
                    }
                },
            }
        }
        i += 1;
    }
    proof {
        assert(moves@.take(moves.len() as int) =~= moves@);
        lemma_collapse(moves@, from);
    }
    hints
}

impl Overlay {
    /// The state of a board that nobody has touched.
    pub fn new() -> (overlay: Overlay)
        ensures
            overlay@ == OverlayView::empty(),
            overlay@.inv(),
    {
        Overlay {
            hints: Vec::new(),
            selected: None,
            drag: None,
            highlight: SquareSet::new(),
            anchor: None,
            arrows: Vec::new(),
        }
    }

    fn clear_selection(&mut self)
        ensures
            final(self)@ == old(self)@.clear_selection(),
    {
        self.hints.clear();
        self.selected = None;
        self.drag = None;
    }

    fn clear_overlay(&mut self)
        ensures
            final(self)@ == old(self)@.clear_overlay(),
    {
        self.arrows.clear();
        self.highlight = SquareSet::new();
    }

    /// The board coordinate under a position on the grid.
    pub fn pos_to_board(bounds: Rectangle, pos: Point, flipped: bool) -> (at: Point)
        requires
            bounds.on_grid(pos),
        ensures
            at == spec_pos_to_board(bounds, pos, flipped),
            on_board(at),
    {
        let extent: i64 = bounds.extent() as i64;
        proof {
            lemma_screen_units(extent as int, pos.x as int);
            lemma_screen_units(extent as int, pos.y as int);
        }
        let across: i64 = pos.x as i64 * 8000 / extent;
        let down: i64 = pos.y as i64 * 8000 / extent;
        let x: i64 = if flipped {
            7999 - across
        } else {
            across
        };
        let y: i64 = if flipped {
            down
        } else {
            7999 - down
        };
        Point { x: x as i32, y: y as i32 }
    }

    /// The square that holds a board coordinate.
    pub fn board_to_square(col: i32, row: i32) -> (sq: Square)
        requires
            0 <= col < 8000,
            0 <= row < 8000,
        ensures
            sq == spec_board_to_square(col as int, row as int),
    {
        Square::make_square(
            Rank::from_index((row / 1000) as usize),
            File::from_index((col / 1000) as usize),
        )
    }

    /// The square under a position on the grid.
    pub fn pos_to_square(bounds: Rectangle, pos: Point, flipped: bool) -> (sq: Square)
        requires
            bounds.on_grid(pos),
        ensures
            sq == spec_pos_to_square(bounds, pos, flipped),
    {
        let at = Self::pos_to_board(bounds, pos, flipped);
        Self::board_to_square(at.x, at.y)
    }

    /// The board coordinate under the pointer, if the pointer is on the
    /// grid.
    pub fn cursor_board(bounds: Rectangle, cursor: Cursor, flipped: bool) -> (at: Option<Point>)
        ensures
            at == spec_cursor_board(bounds, cursor, flipped),
            at matches Some(p) ==> on_board(p),
    {
        match cursor.position_in(bounds) {
            Some(pos) => if bounds.grid_contains(pos) {
                Some(Self::pos_to_board(bounds, pos, flipped))
            } else {
                None
            },
            None => None,
        }
    }

    /// The square under the pointer, if the pointer is on the grid.
    pub fn cursor_square(bounds: Rectangle, cursor: Cursor, flipped: bool) -> (sq: Option<Square>)
        ensures
            sq == spec_cursor_square(bounds, cursor, flipped),
    {
        match cursor.position_in(bounds) {
            Some(pos) => if bounds.grid_contains(pos) {
                Some(Self::pos_to_square(bounds, pos, flipped))
            } else {
                None
            },
            None => None,
        }
    }

    /// The hint that lands on `sq`, if there is one.
    pub fn find_move(&self, sq: Square) -> (found: Option<ChessMove>)
        ensures
            found == spec_find_move(self.hints@, sq),
            found matches Some(mv) ==> mv.dest == sq && self.hints@.contains(mv),
            found.is_none() ==> !reaches(self.hints@, sq),
    {
        proof {
            lemma_first_to(self.hints@, sq);
        }
        match index_to(&self.hints, sq) {
            Some(i) => Some(self.hints[i]),
            None => None,
        }
    }

    /// Takes note that the board shows `next` in place of `previous`. If the
    /// game changed, selection, marks and arrows go, and the sound for the new
    /// position comes back.
    pub fn on_diff(&mut self, previous: &BState, next: &BState) -> (sound: Option<SoundType>)
        ensures
            final(self)@ == spec_on_diff(old(self)@, *previous, *next),
            sound == spec_diff_sound(*previous, *next),
            old(self)@.inv() ==> final(self)@.inv(),
    {
        if previous.game == next.game {
            return None;
        }
        self.clear_selection();
        self.clear_overlay();
        let board = &next.game.board;
        Some(feedback(status(board), checkers(board), next.game.annotation))
    }

    /// The pointer shape to show.
    pub fn mouse_interaction(&self, bounds: Rectangle, cursor: Cursor, state: &BState) -> (shape:
        Interaction)
        ensures
            shape == spec_mouse_interaction(self@, bounds, cursor, *state),
    {
        if self.drag.is_some() {
            return Interaction::Grabbing;
        }
        if let Some(sq) = Self::cursor_square(bounds, cursor, state.flipped) {
            if piece_on(&state.game.board, sq).is_some() {
                return Interaction::Grab;
            }
        }
        Interaction::Idle
    }

    /// The right button goes down with the pointer on `sq`, or off the board.
    pub fn press_right(&mut self, sq: Option<Square>, caches: &mut Caches) -> (response: Response)
        ensures
            final(self)@ == on_right_press(old(self)@, sq).overlay,
            final(caches)@ == old(caches)@.invalidated(on_right_press(old(self)@, sq).stale),
            response == on_right_press(old(self)@, sq).response,
            old(self)@.inv() ==> final(self)@.inv(),
    {
        match sq {
            Some(s) => {
                self.anchor = Some(s);
                self.clear_selection();
                caches.board_overlay.clear();
                Response { publish: None, redraw: true }
            },
            None => Response::none(),
        }
    }

    /// The right button comes up with the pointer on `sq`, or off the board.
    pub fn release_right(&mut self, sq: Option<Square>, caches: &mut Caches) -> (response: Response)
        ensures
            final(self)@ == on_right_release(old(self)@, sq).overlay,
            final(caches)@ == old(caches)@.invalidated(on_right_release(old(self)@, sq).stale),
            response == on_right_release(old(self)@, sq).response,
            old(self)@.inv() ==> final(self)@.inv(),
    {
        let anchor = match self.anchor {
            Some(a) => a,
            None => {
                return Response::none();
            },
        };
        let at = match sq {
            Some(s) => s,
            None => {
                return Response::none();
            },
        };
        self.anchor = None;
        if at == anchor {
            self.highlight.toggle(at);
            caches.board_overlay.clear();
        } else {
            let arrow = ChessMove::new(anchor, at, None);
            proof {
                if self.arrows@.no_duplicates() {
                    lemma_toggle_arrow(self.arrows@, arrow);
                }
            }
            match Self::position(&self.arrows, arrow) {
                Some(i) => {
                    self.arrows.remove(i);
                },
                None => {
                    self.arrows.push(arrow);
                },
            }
            caches.overlay.clear();
        }
        Response { publish: None, redraw: true }
    }

    /// Where an arrow first stands among the arrows.
    fn position(arrows: &Vec<ChessMove>, arrow: ChessMove) -> (found: Option<usize>)
        ensures
            match found {
                Some(i) => arrows@.index_of_first(arrow) == Some(i as int) && i < arrows.len(),
                None => arrows@.index_of_first(arrow).is_none(),
            },
    {
        let mut i: usize = 0;
        while i < arrows.len()
            invariant
                i <= arrows.len(),
                forall|j: int| 0 <= j < i ==> arrows@[j] != arrow,
            decreases arrows.len() - i,
        {
            if arrows[i] == arrow {
                proof {
                    assert(arrows@[i as int] == arrow);
                    arrows@.index_of_first_ensures(arrow);
                }
                return Some(i);
            }
            i += 1;
        }
        proof {
            arrows@.index_of_first_ensures(arrow);
        }
        None
    }

    /// The left button goes down with the pointer at the board coordinate
    /// `at`. `occupied` says whether the square there holds a piece, `moves`
    /// are the legal moves of the position, and `can_move` says whether the
    /// host takes moves.
    pub fn press_left(
        &mut self,
        at: Point,
        occupied: bool,
        moves: &Vec<ChessMove>,
        can_move: bool,
        caches: &mut Caches,
    ) -> (response: Response)
        requires
            on_board(at),
        ensures
            final(self)@ == on_left_press(old(self)@, Some(at), occupied, moves@, can_move).overlay,
            final(caches)@ == old(caches)@.invalidated(
                on_left_press(old(self)@, Some(at), occupied, moves@, can_move).stale,
            ),
            response == on_left_press(old(self)@, Some(at), occupied, moves@, can_move).response,
            old(self)@.inv() ==> final(self)@.inv(),
    {
        let square = Self::board_to_square(at.x, at.y);
        let found = self.find_move(square);
        self.clear_overlay();
        caches.overlay.clear();
        caches.board_overlay.clear();
        if let Some(mv) = found {
            self.clear_selection();
            return Response {
                publish: if can_move {
                    Some(mv)
                } else {
                    None
                },
                redraw: false,
            };
        }
        caches.pieces.clear();
        caches.drag.clear();
        if !occupied {
            self.clear_selection();
            return Response { publish: None, redraw: true };
        }
        self.hints = if can_move {
            collapse_hints(moves, square)
        } else {
            Vec::new()
        };
        self.selected = Some(square);
        self.drag = Some(at);
        Response { publish: None, redraw: true }
    }

    /// The left button comes up with the pointer on `sq`, or off the board.
    pub fn release_left(&mut self, sq: Option<Square>, can_move: bool, caches: &mut Caches) -> (response:
        Response)
        ensures
            final(self)@ == on_left_release(old(self)@, sq, can_move).overlay,
            final(caches)@ == old(caches)@.invalidated(
                on_left_release(old(self)@, sq, can_move).stale,
            ),
            response == on_left_release(old(self)@, sq, can_move).response,
            old(self)@.inv() ==> final(self)@.inv(),
    {
        self.drag = None;
        let found = match sq {
            Some(s) => self.find_move(s),
            None => None,
        };
        if found.is_some() {
            self.clear_selection();
        }
        caches.board_overlay.clear();
        caches.pieces.clear();
        caches.drag.clear();
        caches.overlay.clear();
        Response {
            publish: if can_move {
                found
            } else {
                None
            },
            redraw: true,
        }
    }

    /// The pointer moves to the board coordinate `at`, or off the board.
    pub fn move_cursor(&mut self, at: Option<Point>, caches: &mut Caches) -> (response: Response)
        requires
            at matches Some(p) ==> on_board(p),
        ensures
            final(self)@ == on_cursor_moved(old(self)@, at).overlay,
            final(caches)@ == old(caches)@.invalidated(on_cursor_moved(old(self)@, at).stale),
            response == on_cursor_moved(old(self)@, at).response,
            old(self)@.inv() ==> final(self)@.inv(),
            final(caches)@.board == old(caches)@.board,
            final(caches)@.pieces == old(caches)@.pieces,
            final(caches)@.overlay == old(caches)@.overlay,
    {
        if self.drag.is_some() && at.is_some() {
            self.drag = at;
            caches.drag.clear();
            caches.board_overlay.clear();
            Response { publish: None, redraw: true }
        } else {
            Response::none()
        }
    }

    /// Takes an event from the host, with the pointer at `cursor` over a
    /// board drawn in `bounds` and showing `state`. Events other than the
    /// pointer's change nothing.
    pub fn on_event(
        &mut self,
        event: &Event,
        bounds: Rectangle,
        cursor: Cursor,
        state: &BState,
        messages: &Messages,
        caches: &mut Caches,
    ) -> (response: Response)
        ensures
            final(self)@ == spec_on_event(
                old(self)@,
                *event,
                bounds,
                cursor,
                *state,
                *messages,
            ).overlay,
            final(caches)@ == old(caches)@.invalidated(
                spec_on_event(old(self)@, *event, bounds, cursor, *state, *messages).stale,
            ),
            response == spec_on_event(
                old(self)@,
                *event,
                bounds,
                cursor,
                *state,
                *messages,
            ).response,
            old(self)@.inv() ==> final(self)@.inv(),
    {
        match event {
            Event::Mouse(mouse) => self.on_event_mouse(
                mouse,
                bounds,
                cursor,
                state,
                messages,
                caches,
            ),
            Event::Other => Response::none(),
        }
    }

    fn on_event_mouse(
        &mut self,
        event: &MouseEvent,
        bounds: Rectangle,
        cursor: Cursor,
        state: &BState,
        messages: &Messages,
        caches: &mut Caches,
    ) -> (response: Response)
        ensures
            final(self)@ == spec_on_event_mouse(
                old(self)@,
                *event,
                bounds,
                cursor,
                *state,
                *messages,
            ).overlay,
            final(caches)@ == old(caches)@.invalidated(
                spec_on_event_mouse(old(self)@, *event, bounds, cursor, *state, *messages).stale,
            ),
            response == spec_on_event_mouse(
                old(self)@,
                *event,
                bounds,
                cursor,
                *state,
                *messages,
            ).response,
            old(self)@.inv() ==> final(self)@.inv(),
    {
        proof {
            lemma_cursor_on_board(bounds, cursor, state.flipped);
        }
        match event {
            MouseEvent::ButtonPressed(Button::Right) => {
                let sq = Self::cursor_square(bounds, cursor, state.flipped);
                self.press_right(sq, caches)
            },
            MouseEvent::ButtonReleased(Button::Right) => {
                let sq = Self::cursor_square(bounds, cursor, state.flipped);
                self.release_right(sq, caches)
            },
            MouseEvent::ButtonPressed(Button::Left) => {
                match Self::cursor_board(bounds, cursor, state.flipped) {
                    Some(at) => {
                        let square = Self::board_to_square(at.x, at.y);
                        let occupied = piece_on(&state.game.board, square).is_some();
                        let moves = if messages.on_move {
                            legal_moves(&state.game.board)
                        } else {
                            Vec::new()
                        };
                        self.press_left(at, occupied, &moves, messages.on_move, caches)
                    },
                    None => Response::none(),
                }
            },
            MouseEvent::ButtonReleased(Button::Left) => {
                let sq = Self::cursor_square(bounds, cursor, state.flipped);
                self.release_left(sq, messages.on_move, caches)
            },
            MouseEvent::CursorMoved => {
                let at = Self::cursor_board(bounds, cursor, state.flipped);
                self.move_cursor(at, caches)
            },
            _ => Response::none(),
        }
    }
}

} // verus!
