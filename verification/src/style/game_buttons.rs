//! Colours of the navigation buttons.

use crate::style::Rgba;
use vstd::prelude::*;

verus! {

#[derive(Clone, Copy, Debug, PartialEq, Eq, Structural)]
pub struct Button {
    pub background: Rgba,
    pub font: Rgba,
}

#[derive(Clone, Copy, Debug, PartialEq, Eq, Structural)]
pub struct Style {
    pub button: Button,
}

/// The style used where none is chosen: light grey on dark grey.
pub open spec fn spec_default() -> Style {
    Style {
        button: Button {
            background: Rgba { r: 54, g: 52, b: 52, a: 100 },
            font: Rgba { r: 198, g: 197, b: 197, a: 100 },
        },
    }
}

pub fn default() -> (style: Style)
    ensures
        style == spec_default(),
{
    Style {
        button: Button {
            background: Rgba::from_rgb8(54, 52, 52),
            font: Rgba::from_rgb8(198, 197, 197),
        },
    }
}

} // verus!
