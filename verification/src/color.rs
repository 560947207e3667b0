//! Opaque colors.

use vstd::prelude::*;

verus! {

/// An opaque color given by its red, green and blue parts.
#[derive(Clone, Copy, Debug, PartialEq, Eq, Structural)]
pub struct Color {
    pub r: u8,
    pub g: u8,
    pub b: u8,
}

impl Color {
    /// The opaque color with the given parts.
    pub fn from_rgb(r: u8, g: u8, b: u8) -> (c: Color)
        ensures
            c == (Color { r, g, b }),
    {
        Color { r, g, b }
    }

    /// The fill of a node that has just been created.
    pub open spec fn spec_node_default() -> Color {
        Color { r: 100, g: 150, b: 250 }
    }

    /// The fill of a node that has just been created.
    #[verifier::when_used_as_spec(spec_node_default)]
    pub fn node_default() -> (c: Color)
        ensures
            c == Color::spec_node_default(),
    {
        Color { r: 100, g: 150, b: 250 }
    }

    /// The color in which every label is written: white.
    pub open spec fn spec_label_text() -> Color {
        Color { r: 255, g: 255, b: 255 }
    }

    /// The color in which every label is written: white.
    #[verifier::when_used_as_spec(spec_label_text)]
    pub fn label_text() -> (c: Color)
        ensures
            c == Color::spec_label_text(),
    {
        Color { r: 255, g: 255, b: 255 }
    }

    /// The color of the outline that marks the selected node: yellow.
    pub open spec fn spec_selection_outline() -> Color {
        Color { r: 255, g: 255, b: 0 }
    }

    /// The color of the outline that marks the selected node: yellow.
    #[verifier::when_used_as_spec(spec_selection_outline)]
    pub fn selection_outline() -> (c: Color)
        ensures
            c == Color::spec_selection_outline(),
    {
        Color { r: 255, g: 255, b: 0 }
    }
}

} // verus!
