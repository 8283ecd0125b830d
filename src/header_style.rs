//! How a table header looks: the appearance record, the capability that
//! produces it, and the built-in styles.

use crate::color::{spec_hover_alpha, hover_alpha, Palette, Rgba};
use crate::theme::{palette_of, primary_palette};
use iced::Theme;
use std::rc::Rc;
use vstd::prelude::*;

verus! {

/// The paint attributes of a table header in one state.
#[derive(Clone, Copy, Debug, PartialEq, Eq, Structural)]
pub struct Appearance {
    /// The header's background; none paints it transparent.
    pub background: Option<Rgba>,
    /// The header's text colour.
    pub text_color: Rgba,
    /// The radius of the header's corners.
    pub border_radius: u16,
    /// The width of the header's border.
    pub border_width: u16,
    /// The colour of the header's border.
    pub border_color: Rgba,
    /// How far the background starts right of the header's left edge.
    pub offset_left: u16,
    /// How much narrower than the header the background is.
    pub offset_right: u16,
}

pub open spec fn spec_default_appearance() -> Appearance {
    Appearance {
        background: None,
        text_color: Rgba { r: 26, g: 26, b: 26, a: 255 },
        border_radius: 0,
        border_width: 0,
        border_color: Rgba { r: 0, g: 0, b: 0, a: 0 },
        offset_left: 0,
        offset_right: 0,
    }
}

impl Default for Appearance {
    fn default() -> (r: Appearance)
        ensures
            r == spec_default_appearance(),
    {
        Appearance {
            background: None,
            text_color: Rgba::dark_grey(),
            border_radius: 0,
            border_width: 0,
            border_color: Rgba::transparent(),
            offset_left: 0,
            offset_right: 0,
        }
    }
}

/// `a` with its background's alpha raised for hover; every other attribute is
/// kept.
pub open spec fn spec_hover_of(a: Appearance) -> Appearance {
    Appearance {
        background: match a.background {
            Some(c) => Some(c.spec_with_alpha(spec_hover_alpha(c.a))),
            None => None,
        },
        ..a
    }
}

/// The hovered appearance derived from `a`.
pub fn hover_of(a: &Appearance) -> (r: Appearance)
    ensures
        r == spec_hover_of(*a),
{
    let background = match a.background {
        Some(c) => Some(c.with_alpha(hover_alpha(c.a))),
        None => None,
    };
    Appearance { background, ..*a }
}

/// The appearance of the built-in default header style over `p`.
pub open spec fn spec_default_style(p: Palette) -> Appearance {
    Appearance {
        background: Some(p.primary_base),
        text_color: p.primary_strong,
        border_radius: 0,
        border_width: 0,
        border_color: Rgba { r: 0, g: 0, b: 0, a: 0 },
        offset_left: 0,
        offset_right: 0,
    }
}

/// A caller-supplied way to produce header appearances from the host theme.
///
/// The two spec functions name what the two methods give; code outside Verus
/// implements each of them by calling its method.
pub trait StyleSheet {
    /// What `appearance` gives under `theme`.
    spec fn spec_appearance(&self, theme: &Theme) -> Appearance;

    /// What `hovered` gives under `theme`.
    spec fn spec_hovered(&self, theme: &Theme) -> Appearance;

    /// The header's appearance when the cursor is not over it.
    fn appearance(&self, theme: &Theme) -> (r: Appearance)
        ensures
            r == self.spec_appearance(theme),
    ;

    /// The header's appearance when the cursor is over it.
    fn hovered(&self, theme: &Theme) -> (r: Appearance)
        ensures
            r == self.spec_hovered(theme),
    ;
}

/// The styles a table header can take: the built-in one, or a caller-supplied
/// style sheet.
pub enum TableHeaderStyles<S: ?Sized + StyleSheet = dyn StyleSheet> {
    Default,
    Custom(Rc<S>),
}

impl<S: ?Sized + StyleSheet> Default for TableHeaderStyles<S> {
    fn default() -> (r: Self)
        ensures
            r is Default,
    {
        TableHeaderStyles::Default
    }
}

impl<S: StyleSheet> TableHeaderStyles<S> {
    /// A style that asks `sheet` for every appearance.
    pub fn custom(sheet: S) -> (r: Self)
        ensures
            r matches TableHeaderStyles::Custom(rc) && *rc == sheet,
    {
        TableHeaderStyles::Custom(Rc::new(sheet))
    }
}

impl<S: ?Sized + StyleSheet> TableHeaderStyles<S> {
    /// The appearance of a built-in style over `p`, hovered or not.
    pub open spec fn spec_builtin(&self, p: Palette, hovered: bool) -> Appearance {
        if hovered {
            spec_hover_of(spec_default_style(p))
        } else {
            spec_default_style(p)
        }
    }

    /// The appearance of a built-in style over the palette `p`.
    pub fn appearance_with(&self, p: &Palette, hovered: bool) -> (r: Appearance)
        requires
            self is Default,
        ensures
            r == self.spec_builtin(*p, hovered),
    {
        let base = Appearance {
            background: Some(p.primary_base),
            text_color: p.primary_strong,
            border_radius: 0,
            border_width: 0,
            border_color: Rgba::transparent(),
            offset_left: 0,
            offset_right: 0,
        };
        if hovered {
            hover_of(&base)
        } else {
            base
        }
    }

    /// What this style gives under `theme`, hovered or not: a built-in style
    /// reads the theme's palette, a caller-supplied sheet is asked.
    pub open spec fn spec_resolve(&self, theme: &Theme, hovered: bool) -> Appearance {
        match self {
            TableHeaderStyles::Default => self.spec_builtin(palette_of(*theme), hovered),
            TableHeaderStyles::Custom(sheet) => if hovered {
                sheet.spec_hovered(theme)
            } else {
                sheet.spec_appearance(theme)
            },
        }
    }

    /// The appearance under `theme`.
    pub fn resolve(&self, theme: &Theme, hovered: bool) -> (r: Appearance)
        ensures
            r == self.spec_resolve(theme, hovered),
    {
        match self {
            TableHeaderStyles::Default => {
                let p = primary_palette(theme);
                self.appearance_with(&p, hovered)
            },
            TableHeaderStyles::Custom(sheet) => {
                if hovered {
                    sheet.hovered(theme)
                } else {
                    sheet.appearance(theme)
                }
            },
        }
    }
}

/// The built-in header style, under every theme, draws a hovered header with
/// the same attributes as the plain one but for background alpha, which is
/// never lower and strictly higher wherever the plain background is not
/// opaque.
pub proof fn lemma_hover_raises_alpha<S: ?Sized + StyleSheet>(style: TableHeaderStyles<S>, theme: Theme)
    requires
        style is Default,
    ensures
        ({
            let plain = style.spec_resolve(&theme, false);
            let hovered = style.spec_resolve(&theme, true);
            &&& plain.background is Some
            &&& hovered.background is Some
            &&& hovered == Appearance { background: hovered.background, ..plain }
            &&& hovered.background->0 == plain.background->0.spec_with_alpha(
                hovered.background->0.a,
            )
            &&& hovered.background->0.a >= plain.background->0.a
            &&& plain.background->0.a < 255 ==> hovered.background->0.a > plain.background->0.a
        }),
{
    crate::color::lemma_hover_alpha_raises(palette_of(theme).primary_base.a);
}

/// Resolving a style twice under one theme, hovered or not, gives the same
/// appearance both times.
pub proof fn lemma_resolve_is_repeatable<S: ?Sized + StyleSheet>(
    style: TableHeaderStyles<S>,
    theme: Theme,
    hovered: bool,
    first: Appearance,
    second: Appearance,
)
    requires
        first == style.spec_resolve(&theme, hovered),
        second == style.spec_resolve(&theme, hovered),
    ensures
        first == second,
{
}

} // verus!
