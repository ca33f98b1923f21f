//! Colours of the widgets.

use vstd::prelude::*;

pub mod chess_board;
pub mod game_buttons;

verus! {

/// A colour: red, green and blue from 0 to 255, and opacity in percent.
#[derive(Clone, Copy, Debug, PartialEq, Eq, Hash, Structural)]
pub struct Rgba {
    pub r: u8,
    pub g: u8,
    pub b: u8,
    pub a: u8,
}

impl Rgba {
    /// An opaque colour.
    pub fn from_rgb8(r: u8, g: u8, b: u8) -> (color: Rgba)
        ensures
            color == (Rgba { r, g, b, a: 100 }),
    {
        Rgba { r, g, b, a: 100 }
    }

    /// A colour that is `a` percent opaque.
    pub fn from_rgba8(r: u8, g: u8, b: u8, a: u8) -> (color: Rgba)
        ensures
            color == (Rgba { r, g, b, a }),
    {
        Rgba { r, g, b, a }
    }
}

} // verus!
