//! Roles, game states, and how an applied move is classified.

use crate::board::{ChessMove, Color, Piece, Square};
use crate::engine::{
    color_at, en_passant, en_passant_of, initial_board, initial_color, initial_piece, legal,
    legal_moves_of, make_move_new, piece_at, piece_on, position_after, same_position,
    side_to_move, side_to_move_of,
};
use vstd::prelude::*;

verus! {

/// Who sits at the board, which decides whose moves the pointer may make.
#[derive(Clone, Copy, Debug, PartialEq, Eq, Structural)]
pub enum BoardRole {
    /// Plays one side, and moves only when that side is to move.
    Player(Color),
    /// May move for either side.
    Analyst,
    /// May not move at all.
    Spectator,
}

/// What kind of move led to a position.
#[derive(Clone, Copy, Debug, PartialEq, Eq, Structural)]
pub enum Move {
    Normal,
    Capture,
    EnPassant,
    Castling,
    Promotion,
}

/// The move that produced a position, and its kind.
#[derive(Clone, Copy, Debug, PartialEq, Eq, Structural)]
pub struct Annotation {
    pub mv: ChessMove,
    pub kind: Move,
}

impl BoardRole {
    pub open spec fn spec_can_move(self, color: Color) -> bool {
        match self {
            BoardRole::Player(own) => color == own,
            BoardRole::Analyst => true,
            BoardRole::Spectator => false,
        }
    }

    /// Whether this role may move while `color` is to move.
    pub fn can_move(&self, color: &Color) -> (allowed: bool)
        ensures
            allowed == self.spec_can_move(*color),
    {
        match self {
            BoardRole::Player(own) => *color == *own,
            BoardRole::Analyst => true,
            BoardRole::Spectator => false,
        }
    }
}

/// A position, with the move that led to it. The initial position has no
/// such move.
#[derive(Clone, Copy, Debug)]
pub struct GameState {
    pub board: ::chess::Board,
    pub annotation: Option<Annotation>,
}

impl PartialEq for GameState {
    fn eq(&self, other: &GameState) -> (r: bool) {
        same_position(&self.board, &other.board) && self.annotation == other.annotation
    }
}

impl Eq for GameState {

}

impl vstd::std_specs::cmp::PartialEqSpecImpl for GameState {
    open spec fn obeys_eq_spec() -> bool {
        true
    }

    open spec fn eq_spec(&self, other: &GameState) -> bool {
        self.board == other.board && self.annotation == other.annotation
    }
}

impl Default for GameState {
    /// The initial position, White to move, with no annotation.
    fn default() -> (state: GameState)
        ensures
            state.annotation.is_none(),
            forall|sq: Square| #[trigger] piece_at(state.board, sq) == initial_piece(sq),
            forall|sq: Square| #[trigger] color_at(state.board, sq) == initial_color(sq),
            side_to_move_of(state.board) == Color::White,
            en_passant_of(state.board).is_none(),
    {
        GameState { board: initial_board(), annotation: None }
    }
}

/// How many files lie between two squares' files.
pub open spec fn file_distance(a: Square, b: Square) -> int {
    if a.file.index() >= b.file.index() {
        a.file.index() - b.file.index()
    } else {
        b.file.index() - a.file.index()
    }
}

/// The kind of a move, from what the position held before it was made:
/// `moved` on its source, `captured` on its destination, `en_passant` as the
/// pawn that could be taken in passing, `mover` to move. The first rule that
/// applies decides: a promotion; a capture; a king that crosses two files
/// (taken as castling); a pawn that lands right behind the pawn that can be
/// taken in passing; else a normal move.
pub open spec fn spec_classify(
    mv: ChessMove,
    moved: Option<Piece>,
    captured: Option<Piece>,
    en_passant: Option<Square>,
    mover: Color,
) -> Move {
    if mv.promotion.is_some() {
        Move::Promotion
    } else if captured.is_some() {
        Move::Capture
    } else if moved == Some(Piece::King) && file_distance(mv.source, mv.dest) == 2 {
        Move::Castling
    } else if moved == Some(Piece::Pawn) && en_passant.is_some() && en_passant
        == mv.dest.spec_backward(mover) {
        Move::EnPassant
    } else {
        Move::Normal
    }
}

/// Classifies a move from what the position held before it was made.
pub fn classify(
    mv: ChessMove,
    moved: Option<Piece>,
    captured: Option<Piece>,
    en_passant: Option<Square>,
    mover: Color,
) -> (kind: Move)
    ensures
        kind == spec_classify(mv, moved, captured, en_passant, mover),
{
    let from: usize = mv.source.file.to_index();
    let to: usize = mv.dest.file.to_index();
    let two_files: bool = (from >= to && from - to == 2) || (to > from && to - from == 2);
    if mv.promotion.is_some() {
        Move::Promotion
    } else if captured.is_some() {
        Move::Capture
    } else if moved == Some(Piece::King) && two_files {
        Move::Castling
    } else if moved == Some(Piece::Pawn) && en_passant.is_some() && en_passant
        == mv.dest.backward(mover) {
        Move::EnPassant
    } else {
        Move::Normal
    }
}

/// A move that names a promotion piece is a promotion, whatever else holds
/// of it; without one, a move onto an occupied square is a capture; without
/// either, a king's move across two files is castling.
pub proof fn lemma_classification_precedence(
    mv: ChessMove,
    moved: Option<Piece>,
    captured: Option<Piece>,
    en_passant: Option<Square>,
    mover: Color,
)
    ensures
        mv.promotion.is_some() ==> spec_classify(mv, moved, captured, en_passant, mover)
            == Move::Promotion,
        mv.promotion.is_none() && captured.is_some() ==> spec_classify(
            mv,
            moved,
            captured,
            en_passant,
            mover,
        ) == Move::Capture,
        mv.promotion.is_none() && captured.is_none() && moved == Some(Piece::King)
            && file_distance(mv.source, mv.dest) == 2 ==> spec_classify(
            mv,
            moved,
            captured,
            en_passant,
            mover,
        ) == Move::Castling,
{
}

impl GameState {
    /// The state that follows from making `mv`: the engine's next position,
    /// annotated with the move and its kind.
    pub open spec fn spec_make_move(self, mv: ChessMove) -> GameState {
        GameState {
            board: position_after(self.board, mv),
            annotation: Some(
                Annotation {
                    mv,
                    kind: spec_classify(
                        mv,
                        piece_at(self.board, mv.source),
                        piece_at(self.board, mv.dest),
                        en_passant_of(self.board),
                        side_to_move_of(self.board),
                    ),
                },
            ),
        }
    }

    /// Applies a legal move and returns the new state; this one stays as it
    /// is.
    pub fn make_move(&mut self, mv: ChessMove) -> (next: GameState)
        requires
            legal_moves_of(old(self).board).contains(mv),
        ensures
            *final(self) == *old(self),
            next == old(self).spec_make_move(mv),
    {
        let moved = piece_on(&self.board, mv.source);
        let captured = piece_on(&self.board, mv.dest);
        let kind = classify(mv, moved, captured, en_passant(&self.board), side_to_move(&self.board));
        GameState { board: make_move_new(&self.board, mv), annotation: Some(Annotation { mv, kind }) }
    }

    /// Applies `mv` if the engine lists it as legal in this position, and
    /// returns nothing otherwise.
    pub fn try_make_move(&self, mv: ChessMove) -> (next: Option<GameState>)
        ensures
            next == if legal_moves_of(self.board).contains(mv) {
                Some(self.spec_make_move(mv))
            } else {
                None
            },
    {
        if legal(&self.board, mv) {
            let mut current = *self;
            Some(current.make_move(mv))
        } else {
            None
        }
    }
}

} // verus!
