//! Interaction state machine and layered render model of an embeddable
//! chessboard widget.
//!
//! The crate decides; it never paints, plays or reads input itself. A host
//! hands it pointer events, bounds and the current game, and gets back move
//! proposals, the render layers that went stale, the shapes of each layer and
//! the feedback sound to play.

pub mod board;
pub mod chess;
pub mod engine;
pub mod geometry;
pub mod style;
pub mod widget;
