//! The sound that answers a change of position.

use crate::chess::{Annotation, Move};
use crate::engine::BoardStatus;
use vstd::prelude::*;

verus! {

/// The sounds a board can make.
#[derive(Clone, Copy, Debug, PartialEq, Eq, Hash, Structural)]
pub enum SoundType {
    Castle,
    GameEnd,
    GameStart,
    Illegal,
    Notify,
    Premove,
    TenSeconds,
    Capture,
    Promote,
    MoveCheck,
    MoveSelf,
    MoveOpponent,
}

/// The sound for a position that has just come up. `checkers` is the set of
/// pieces that give check, as bits; `annotation` is the move that led here.
/// Checkmate ends the game. A position that no move led to starts one.
/// Otherwise a check sounds as such, and a move without check by its kind.
pub open spec fn spec_feedback(
    status: BoardStatus,
    checkers: u64,
    annotation: Option<Annotation>,
) -> SoundType {
    if status == BoardStatus::Checkmate {
        SoundType::GameEnd
    } else {
        match annotation {
            None => SoundType::GameStart,
            Some(ant) => if checkers != 0 {
                SoundType::MoveCheck
            } else {
                match ant.kind {
                    Move::Promotion => SoundType::Promote,
                    Move::Capture | Move::EnPassant => SoundType::Capture,
                    Move::Castling => SoundType::Castle,
                    Move::Normal => SoundType::MoveSelf,
                }
            },
        }
    }
}

/// Picks the one sound for a position that has just come up.
pub fn feedback(status: BoardStatus, checkers: u64, annotation: Option<Annotation>) -> (sound:
    SoundType)
    ensures
        sound == spec_feedback(status, checkers, annotation),
{
    if status == BoardStatus::Checkmate {
        return SoundType::GameEnd;
    }
    match annotation {
        None => SoundType::GameStart,
        Some(ant) => if checkers != 0 {
            SoundType::MoveCheck
        } else {
            match ant.kind {
                Move::Promotion => SoundType::Promote,
                Move::Capture | Move::EnPassant => SoundType::Capture,
                Move::Castling => SoundType::Castle,
                Move::Normal => SoundType::MoveSelf,
            }
        },
    }
}

} // verus!
