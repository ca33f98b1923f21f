//! What the host tells the board about the pointer, and what the board
//! tells the host in return.

use crate::board::ChessMove;
use vstd::prelude::*;

verus! {

/// A pointer button.
#[derive(Clone, Copy, Debug, PartialEq, Eq, Hash, Structural)]
pub enum Button {
    Left,
    Right,
    Other,
}

/// Something the pointer did.
#[derive(Clone, Copy, Debug, PartialEq, Eq, Hash, Structural)]
pub enum MouseEvent {
    ButtonPressed(Button),
    ButtonReleased(Button),
    CursorMoved,
    Other,
}

/// Something the host reports to the widget.
#[derive(Clone, Copy, Debug, PartialEq, Eq, Hash, Structural)]
pub enum Event {
    Mouse(MouseEvent),
    Other,
}

/// The pointer shape the board asks for.
#[derive(Clone, Copy, Debug, PartialEq, Eq, Hash, Structural)]
pub enum Interaction {
    Idle,
    Grab,
    Grabbing,
}

/// What the board asks of the host after an event: to pass a move on, and
/// to draw again.
#[derive(Clone, Copy, Debug, PartialEq, Eq, Structural)]
pub struct Response {
    pub publish: Option<ChessMove>,
    pub redraw: bool,
}

impl Response {
    /// Nothing to pass on and nothing to draw.
    pub open spec fn spec_none() -> Response {
        Response { publish: None, redraw: false }
    }

    pub fn none() -> (r: Response)
        ensures
            r == Response::spec_none(),
    {
        Response { publish: None, redraw: false }
    }
}

} // verus!
