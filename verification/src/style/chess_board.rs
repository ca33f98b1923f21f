//! Colours of the board and of what is drawn over it.

use crate::style::Rgba;
use vstd::prelude::*;

verus! {

/// The two colours of the tiles.
#[derive(Clone, Copy, Debug, PartialEq, Eq, Structural)]
pub struct BoardStyle {
    pub light: Rgba,
    pub dark: Rgba,
}

/// The colours of the markers drawn over the board.
#[derive(Clone, Copy, Debug, PartialEq, Eq, Structural)]
pub struct OverlayStyle {
    /// Shading of the selected square.
    pub selected: Rgba,
    /// Shading of the squares of the last move.
    pub prev_move: Rgba,
    /// Markers on the squares a selected piece can go to.
    pub drag: Rgba,
    /// Outline of the square under a dragged piece.
    pub hover: Rgba,
    /// Shading of the squares the user marked.
    pub highlight: Rgba,
    /// Fill of the arrows the user drew.
    pub arrow: Rgba,
}

#[derive(Clone, Copy, Debug, PartialEq, Eq, Structural)]
pub struct Style {
    pub board: BoardStyle,
    pub overlay: OverlayStyle,
}

/// The style used where none is chosen: green and cream tiles, yellow for
/// selection and last move, red highlights, orange arrows.
pub open spec fn spec_default() -> Style {
    Style {
        board: BoardStyle {
            light: Rgba { r: 235, g: 236, b: 208, a: 100 },
            dark: Rgba { r: 115, g: 149, b: 82, a: 100 },
        },
        overlay: OverlayStyle {
            prev_move: Rgba { r: 255, g: 255, b: 51, a: 50 },
            selected: Rgba { r: 255, g: 255, b: 51, a: 50 },
            drag: Rgba { r: 0, g: 0, b: 0, a: 14 },
            hover: Rgba { r: 255, g: 255, b: 255, a: 65 },
            highlight: Rgba { r: 235, g: 97, b: 80, a: 80 },
            arrow: Rgba { r: 255, g: 170, b: 0, a: 64 },
        },
    }
}

pub fn default() -> (style: Style)
    ensures
        style == spec_default(),
{
    Style {
        board: BoardStyle {
            light: Rgba::from_rgb8(235, 236, 208),
            dark: Rgba::from_rgb8(115, 149, 82),
        },
        overlay: OverlayStyle {
            prev_move: Rgba::from_rgba8(255, 255, 51, 50),
            selected: Rgba::from_rgba8(255, 255, 51, 50),
            drag: Rgba::from_rgba8(0, 0, 0, 14),
            hover: Rgba::from_rgba8(255, 255, 255, 65),
            highlight: Rgba::from_rgba8(235, 97, 80, 80),
            arrow: Rgba::from_rgba8(255, 170, 0, 64),
        },
    }
}

} // verus!
