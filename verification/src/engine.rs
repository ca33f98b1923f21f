//! The rules engine. Positions are `chess::Board` values, opaque here; what
//! the widget asks of one goes through the functions of this module, whose
//! contracts are taken on trust from the `chess` crate.

use crate::board::{ChessMove, Color, File, Piece, Rank, Square};
use vstd::prelude::*;

verus! {

#[verifier::external_type_specification]
#[verifier::external_body]
pub struct ExBoard(::chess::Board);

/// How a game stands.
#[derive(Clone, Copy, Debug, PartialEq, Eq, Hash, Structural)]
pub enum BoardStatus {
    Ongoing,
    Stalemate,
    Checkmate,
}

/// The kind of piece that `Board::piece_on` reports on a square.
pub uninterp spec fn piece_at(board: ::chess::Board, sq: Square) -> Option<Piece>;

/// The side that `Board::color_on` reports on a square.
pub uninterp spec fn color_at(board: ::chess::Board, sq: Square) -> Option<Color>;

/// The side that `Board::side_to_move` reports.
pub uninterp spec fn side_to_move_of(board: ::chess::Board) -> Color;

/// The square that `Board::en_passant` reports: that of the pawn which has
/// just advanced two ranks and can be taken in passing.
pub uninterp spec fn en_passant_of(board: ::chess::Board) -> Option<Square>;

/// What `Board::status` reports.
pub uninterp spec fn status_of(board: ::chess::Board) -> BoardStatus;

/// The bits of `Board::checkers`: bit `i` is set where the piece on square
/// number `i` gives check to the side to move.
pub uninterp spec fn checkers_of(board: ::chess::Board) -> u64;

/// The moves that `MoveGen::new_legal` yields for a position, in its order.
pub uninterp spec fn legal_moves_of(board: ::chess::Board) -> Seq<ChessMove>;

/// The position that `Board::make_move_new` gives.
pub uninterp spec fn position_after(board: ::chess::Board, mv: ChessMove) -> ::chess::Board;

/// The kind of piece on a square of the initial position.
pub open spec fn initial_piece(sq: Square) -> Option<Piece> {
    match sq.rank {
        Rank::First | Rank::Eighth => Some(
            match sq.file {
                File::A | File::H => Piece::Rook,
                File::B | File::G => Piece::Knight,
                File::C | File::F => Piece::Bishop,
                File::D => Piece::Queen,
                File::E => Piece::King,
            },
        ),
        Rank::Second | Rank::Seventh => Some(Piece::Pawn),
        _ => None,
    }
}

/// The side that owns a square of the initial position.
pub open spec fn initial_color(sq: Square) -> Option<Color> {
    match sq.rank {
        Rank::First | Rank::Second => Some(Color::White),
        Rank::Seventh | Rank::Eighth => Some(Color::Black),
        _ => None,
    }
}

/// `Board::default`: the initial position, White to move, nothing to take in
/// passing.
#[verifier::external_body]
pub(crate) fn initial_board() -> (board: ::chess::Board)
    ensures
        forall|sq: Square| #[trigger] piece_at(board, sq) == initial_piece(sq),
        forall|sq: Square| #[trigger] color_at(board, sq) == initial_color(sq),
        side_to_move_of(board) == Color::White,
        en_passant_of(board).is_none(),
{
    ::chess::Board::default()
}

/// `==` on `Board`, which `chess` derives over every field of a position.
#[verifier::external_body]
pub(crate) fn same_position(a: &::chess::Board, b: &::chess::Board) -> (r: bool)
    ensures
        r == (*a == *b),
{
    a == b
}

/// `Board::piece_on`.
#[verifier::external_body]
pub(crate) fn piece_on(board: &::chess::Board, sq: Square) -> (r: Option<Piece>)
    ensures
        r == piece_at(*board, sq),
{
    board.piece_on(::chess::ALL_SQUARES[sq.to_index()]).map(|p| Piece::from_index(p.to_index()))
}

/// `Board::color_on`.
#[verifier::external_body]
pub(crate) fn color_on(board: &::chess::Board, sq: Square) -> (r: Option<Color>)
    ensures
        r == color_at(*board, sq),
{
    board.color_on(::chess::ALL_SQUARES[sq.to_index()]).map(|c| Color::from_index(c.to_index()))
}

/// `Board::side_to_move`.
#[verifier::external_body]
pub(crate) fn side_to_move(board: &::chess::Board) -> (r: Color)
    ensures
        r == side_to_move_of(*board),
{
    Color::from_index(board.side_to_move().to_index())
}

/// `Board::en_passant`.
#[verifier::external_body]
pub(crate) fn en_passant(board: &::chess::Board) -> (r: Option<Square>)
    ensures
        r == en_passant_of(*board),
{
    board.en_passant().map(|sq| Square::from_index(sq.to_index()))
}

/// `Board::status`.
#[verifier::external_body]
pub(crate) fn status(board: &::chess::Board) -> (r: BoardStatus)
    ensures
        r == status_of(*board),
{
    match board.status() {
        ::chess::BoardStatus::Ongoing => BoardStatus::Ongoing,
        ::chess::BoardStatus::Stalemate => BoardStatus::Stalemate,
        ::chess::BoardStatus::Checkmate => BoardStatus::Checkmate,
    }
}

/// `Board::checkers`, as the bits of the `BitBoard` it returns.
#[verifier::external_body]
pub(crate) fn checkers(board: &::chess::Board) -> (r: u64)
    ensures
        r == checkers_of(*board),
{
    board.checkers().0
}

/// `MoveGen::new_legal`, run to its end.
#[verifier::external_body]
pub(crate) fn legal_moves(board: &::chess::Board) -> (r: Vec<ChessMove>)
    ensures
        r@ == legal_moves_of(*board),
{
    ::chess::MoveGen::new_legal(board).map(
        |m|
            ChessMove::new(
                Square::from_index(m.get_source().to_index()),
                Square::from_index(m.get_dest().to_index()),
                m.get_promotion().map(|p| Piece::from_index(p.to_index())),
            ),
    ).collect()
}

/// `Board::legal`: whether `MoveGen::new_legal` yields the move.
#[verifier::external_body]
pub(crate) fn legal(board: &::chess::Board, mv: ChessMove) -> (r: bool)
    ensures
        r == legal_moves_of(*board).contains(mv),
{
    board.legal(
        ::chess::ChessMove::new(
            ::chess::ALL_SQUARES[mv.source.to_index()],
            ::chess::ALL_SQUARES[mv.dest.to_index()],
            mv.promotion.map(|p| ::chess::ALL_PIECES[p.to_index()]),
        ),
    )
}

/// `Board::make_move_new`. It is made for legal moves only: on a move from
/// an empty square it panics.
#[verifier::external_body]
pub(crate) fn make_move_new(board: &::chess::Board, mv: ChessMove) -> (r: ::chess::Board)
    requires
        legal_moves_of(*board).contains(mv),
    ensures
        r == position_after(*board, mv),
{
    board.make_move_new(
        ::chess::ChessMove::new(
            ::chess::ALL_SQUARES[mv.source.to_index()],
            ::chess::ALL_SQUARES[mv.dest.to_index()],
            mv.promotion.map(|p| ::chess::ALL_PIECES[p.to_index()]),
        ),
    )
}

} // verus!
