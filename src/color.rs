//! Colours as 8-bit channels, and the palette entries that the built-in styles
//! read.

use vstd::prelude::*;

verus! {

/// A colour with 8-bit red, green, blue and alpha channels; alpha 255 is opaque.
#[derive(Clone, Copy, Debug, PartialEq, Eq, Structural)]
pub struct Rgba {
    pub r: u8,
    pub g: u8,
    pub b: u8,
    pub a: u8,
}

/// Alpha of a half-transparent background.
pub const ALPHA_HALF: u8 = 128;

/// Alpha of a faint background.
pub const ALPHA_FAINT: u8 = 77;

/// The alpha a hovered background takes: halfway from `a` to opaque, rounded
/// towards opaque.
pub open spec fn spec_hover_alpha(a: u8) -> u8 {
    (255 - (255 - a) / 2) as u8
}

pub fn hover_alpha(a: u8) -> (r: u8)
    ensures
        r == spec_hover_alpha(a),
{
    255 - (255 - a) / 2
}

/// Raising the alpha for hover makes a translucent colour strictly more opaque
/// and leaves an opaque one as it is.
pub proof fn lemma_hover_alpha_raises(a: u8)
    ensures
        a < 255 ==> spec_hover_alpha(a) > a,
        a == 255 ==> spec_hover_alpha(a) == 255,
        spec_hover_alpha(a) >= a,
{
}

impl Rgba {
    pub open spec fn spec_with_alpha(self, a: u8) -> Rgba {
        Rgba { a, ..self }
    }

    /// The same colour with alpha `a`.
    pub fn with_alpha(self, a: u8) -> (r: Rgba)
        ensures
            r == self.spec_with_alpha(a),
    {
        Rgba { a, ..self }
    }

    pub fn transparent() -> (r: Rgba)
        ensures
            r == (Rgba { r: 0, g: 0, b: 0, a: 0 }),
    {
        Rgba { r: 0, g: 0, b: 0, a: 0 }
    }

    pub fn black() -> (r: Rgba)
        ensures
            r == (Rgba { r: 0, g: 0, b: 0, a: 255 }),
    {
        Rgba { r: 0, g: 0, b: 0, a: 255 }
    }

    pub fn white() -> (r: Rgba)
        ensures
            r == (Rgba { r: 255, g: 255, b: 255, a: 255 }),
    {
        Rgba { r: 255, g: 255, b: 255, a: 255 }
    }

    /// The dark grey of default header text.
    pub fn dark_grey() -> (r: Rgba)
        ensures
            r == (Rgba { r: 26, g: 26, b: 26, a: 255 }),
    {
        Rgba { r: 26, g: 26, b: 26, a: 255 }
    }
}

/// The palette entries that the built-in styles read from a theme.
#[derive(Clone, Copy, Debug, PartialEq, Eq, Structural)]
pub struct Palette {
    /// The theme's primary colour.
    pub primary_base: Rgba,
    /// The theme's strong variant of the primary colour.
    pub primary_strong: Rgba,
}

} // verus!
