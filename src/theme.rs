//! The host theme, from which the built-in styles take their colours.

use crate::color::{Palette, Rgba};
use iced::Theme;
use vstd::prelude::*;

verus! {

#[verifier::external_type_specification]
#[verifier::external_body]
pub struct ExTheme(iced::Theme);

/// The primary base and primary strong colours of a theme's extended palette,
/// as bytes.
pub uninterp spec fn palette_of(theme: Theme) -> Palette;

/// Relies on iced's `Theme::extended_palette`, whose result depends on the
/// theme alone, and on `Color::into_rgba8`, which only turns each colour into
/// bytes: the palette read is the one `palette_of` names for the theme.
#[verifier::external_body]
pub(crate) fn primary_palette(theme: &Theme) -> (r: Palette)
    ensures
        r == palette_of(*theme),
{
    let primary = &theme.extended_palette().primary;
    let [r, g, b, a] = primary.base.color.into_rgba8();
    let [sr, sg, sb, sa] = primary.strong.color.into_rgba8();
    Palette { primary_base: Rgba { r, g, b, a }, primary_strong: Rgba { r: sr, g: sg, b: sb, a: sa } }
}

} // verus!
