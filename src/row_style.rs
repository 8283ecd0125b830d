//! How a table row looks: one appearance record for the whole row and one for
//! each cell, the capability that produces them, and the built-in styles.

use crate::color::{spec_hover_alpha, hover_alpha, Palette, Rgba, ALPHA_FAINT, ALPHA_HALF};
use crate::theme::{palette_of, primary_palette};
use iced::Theme;
use std::rc::Rc;
use vstd::prelude::*;

verus! {

/// The paint attributes of a whole row, or of one cell, in one state.
#[derive(Clone, Copy, Debug, PartialEq, Eq, Structural)]
pub struct RowOrCellAppearance {
    /// The background; a row or cell is always drawn with one.
    pub background: Option<Rgba>,
    /// The text colour.
    pub text_color: Rgba,
    /// The radius of the corners.
    pub border_radius: u16,
    /// The width of the border.
    pub border_width: u16,
    /// The colour of the border.
    pub border_color: Rgba,
    /// How far the background starts right of the left edge.
    pub offset_left: u16,
    /// How much narrower than the bounds the background is.
    pub offset_right: u16,
}

pub open spec fn spec_default_row_or_cell() -> RowOrCellAppearance {
    RowOrCellAppearance {
        background: None,
        text_color: Rgba { r: 255, g: 255, b: 255, a: 255 },
        border_radius: 0,
        border_width: 0,
        border_color: Rgba { r: 0, g: 0, b: 0, a: 0 },
        offset_left: 0,
        offset_right: 0,
    }
}

impl Default for RowOrCellAppearance {
    fn default() -> (r: RowOrCellAppearance)
        ensures
            r == spec_default_row_or_cell(),
    {
        RowOrCellAppearance {
            background: None,
            text_color: Rgba::white(),
            border_radius: 0,
            border_width: 0,
            border_color: Rgba::transparent(),
            offset_left: 0,
            offset_right: 0,
        }
    }
}

/// The appearance of a row: the whole row's, and each cell's.
#[derive(Clone, Copy, Debug, PartialEq, Eq, Structural)]
pub struct Appearance {
    pub row: RowOrCellAppearance,
    pub cell: RowOrCellAppearance,
}

impl Default for Appearance {
    fn default() -> (r: Appearance)
        ensures
            r.row == spec_default_row_or_cell(),
            r.cell == spec_default_row_or_cell(),
    {
        Appearance { row: RowOrCellAppearance::default(), cell: RowOrCellAppearance::default() }
    }
}

/// `a` with its background's alpha raised for hover; every other attribute is
/// kept.
pub open spec fn spec_hover_part(a: RowOrCellAppearance) -> RowOrCellAppearance {
    RowOrCellAppearance {
        background: match a.background {
            Some(c) => Some(c.spec_with_alpha(spec_hover_alpha(c.a))),
            None => None,
        },
        ..a
    }
}

pub open spec fn spec_hover_of(a: Appearance) -> Appearance {
    Appearance { row: spec_hover_part(a.row), cell: spec_hover_part(a.cell) }
}

fn hover_part(a: &RowOrCellAppearance) -> (r: RowOrCellAppearance)
    ensures
        r == spec_hover_part(*a),
{
    let background = match a.background {
        Some(c) => Some(c.with_alpha(hover_alpha(c.a))),
        None => None,
    };
    RowOrCellAppearance { background, ..*a }
}

/// The hovered appearance derived from `a`.
pub fn hover_of(a: &Appearance) -> (r: Appearance)
    ensures
        r == spec_hover_of(*a),
{
    Appearance { row: hover_part(&a.row), cell: hover_part(&a.cell) }
}

/// A square, offset-free appearance with the given colours and border.
pub open spec fn spec_plain(text: Rgba, background: Rgba, border_width: u16, border_color: Rgba) -> RowOrCellAppearance {
    RowOrCellAppearance {
        background: Some(background),
        text_color: text,
        border_radius: 0,
        border_width,
        border_color,
        offset_left: 0,
        offset_right: 0,
    }
}

fn plain(text: Rgba, background: Rgba, border_width: u16, border_color: Rgba) -> (r: RowOrCellAppearance)
    ensures
        r == spec_plain(text, background, border_width, border_color),
{
    RowOrCellAppearance {
        background: Some(background),
        text_color: text,
        border_radius: 0,
        border_width,
        border_color,
        offset_left: 0,
        offset_right: 0,
    }
}

/// A caller-supplied way to produce row appearances from the host theme and
/// the row's identity.
///
/// The two spec functions name what the two methods give; code outside Verus
/// implements each of them by calling its method.
pub trait StyleSheet {
    /// What `appearance` gives under `theme` for row `row_id`.
    spec fn spec_appearance(&self, theme: &Theme, row_id: u16) -> Appearance;

    /// What `hovered` gives under `theme` for row `row_id`.
    spec fn spec_hovered(&self, theme: &Theme, row_id: u16) -> Appearance;

    /// The row's appearance when the cursor is not over it.
    fn appearance(&self, theme: &Theme, row_id: u16) -> (r: Appearance)
        ensures
            r == self.spec_appearance(theme, row_id),
    ;

    /// The row's appearance when the cursor is over it.
    fn hovered(&self, theme: &Theme, row_id: u16) -> (r: Appearance)
        ensures
            r == self.spec_hovered(theme, row_id),
    ;
}

/// The styles a table row can take: five built-in ones, or a caller-supplied
/// style sheet.
pub enum TableRowStyles<S: ?Sized + StyleSheet = dyn StyleSheet> {
    /// The primary colour, with black cell borders.
    Default,
    /// The primary colour at half opacity.
    TableRowAlternate,
    /// The primary colour, faint.
    TableRowHighlight,
    /// A transparent background with text in the primary colour.
    TableRowLowlight,
    /// The primary colour, without cell borders.
    TableRowSelected,
    /// Asks the style sheet.
    Custom(Rc<S>),
}

impl<S: ?Sized + StyleSheet> Default for TableRowStyles<S> {
    fn default() -> (r: Self)
        ensures
            r is Default,
    {
        TableRowStyles::Default
    }
}

impl<S: StyleSheet> TableRowStyles<S> {
    /// A style that asks `sheet` for every appearance.
    pub fn custom(sheet: S) -> (r: Self)
        ensures
            r matches TableRowStyles::Custom(rc) && *rc == sheet,
    {
        TableRowStyles::Custom(Rc::new(sheet))
    }
}

impl<S: ?Sized + StyleSheet> TableRowStyles<S> {
    /// The plain appearance of a built-in style over the palette `p`.
    pub open spec fn spec_base(&self, p: Palette) -> Appearance {
        let transparent = Rgba { r: 0, g: 0, b: 0, a: 0 };
        match self {
            TableRowStyles::Default => Appearance {
                row: spec_plain(p.primary_strong, p.primary_base, 0, transparent),
                cell: spec_plain(p.primary_strong, p.primary_base, 1, Rgba { r: 0, g: 0, b: 0, a: 255 }),
            },
            TableRowStyles::TableRowAlternate => Appearance {
                row: spec_plain(p.primary_strong, p.primary_base.spec_with_alpha(ALPHA_HALF), 0, transparent),
                cell: spec_plain(p.primary_strong, p.primary_base.spec_with_alpha(ALPHA_HALF), 0, transparent),
            },
            TableRowStyles::TableRowHighlight => Appearance {
                row: spec_plain(p.primary_strong, p.primary_base.spec_with_alpha(ALPHA_FAINT), 0, transparent),
                cell: spec_plain(p.primary_strong, p.primary_base.spec_with_alpha(ALPHA_FAINT), 0, transparent),
            },
            TableRowStyles::TableRowLowlight => Appearance {
                row: spec_plain(p.primary_base, transparent, 0, transparent),
                cell: spec_plain(p.primary_base, transparent, 0, transparent),
            },
            _ => Appearance {
                row: spec_plain(p.primary_strong, p.primary_base, 0, transparent),
                cell: spec_plain(p.primary_strong, p.primary_base, 0, transparent),
            },
        }
    }

    /// The appearance of a built-in style over `p`, hovered or not.
    pub open spec fn spec_builtin(&self, p: Palette, hovered: bool) -> Appearance {
        if hovered {
            spec_hover_of(self.spec_base(p))
        } else {
            self.spec_base(p)
        }
    }

    /// The appearance of a built-in style over the palette `p`, for the row
    /// `row_id`; the built-in styles look the same on every row.
    pub fn appearance_with(&self, p: &Palette, row_id: u16, hovered: bool) -> (r: Appearance)
        requires
            !(self is Custom),
        ensures
            r == self.spec_builtin(*p, hovered),
    {
        let transparent = Rgba::transparent();
        let strong = p.primary_strong;
        let base = p.primary_base;
        let a = match self {
            TableRowStyles::Default => Appearance {
                row: plain(strong, base, 0, transparent),
                cell: plain(strong, base, 1, Rgba::black()),
            },
            TableRowStyles::TableRowAlternate => {
                let half = base.with_alpha(ALPHA_HALF);
                Appearance { row: plain(strong, half, 0, transparent), cell: plain(strong, half, 0, transparent) }
            },
            TableRowStyles::TableRowHighlight => {
                let faint = base.with_alpha(ALPHA_FAINT);
                Appearance { row: plain(strong, faint, 0, transparent), cell: plain(strong, faint, 0, transparent) }
            },
            TableRowStyles::TableRowLowlight => Appearance {
                row: plain(base, transparent, 0, transparent),
                cell: plain(base, transparent, 0, transparent),
            },
            _ => Appearance {
                row: plain(strong, base, 0, transparent),
                cell: plain(strong, base, 0, transparent),
            },
        };
        if hovered {
            hover_of(&a)
        } else {
            a
        }
    }

    /// What this style gives under `theme` for row `row_id`, hovered or not:
    /// a built-in style reads the theme's palette, a caller-supplied sheet is
    /// asked.
    pub open spec fn spec_resolve(&self, theme: &Theme, row_id: u16, hovered: bool) -> Appearance {
        match self {
            TableRowStyles::Custom(sheet) => if hovered {
                sheet.spec_hovered(theme, row_id)
            } else {
                sheet.spec_appearance(theme, row_id)
            },
            _ => self.spec_builtin(palette_of(*theme), hovered),
        }
    }

    /// The appearance of row `row_id` under `theme`.
    pub fn resolve(&self, theme: &Theme, row_id: u16, hovered: bool) -> (r: Appearance)
        ensures
            r == self.spec_resolve(theme, row_id, hovered),
    {
        match self {
            TableRowStyles::Custom(sheet) => {
                if hovered {
                    sheet.hovered(theme, row_id)
                } else {
                    sheet.appearance(theme, row_id)
                }
            },
            _ => {
                let p = primary_palette(theme);
                self.appearance_with(&p, row_id, hovered)
            },
        }
    }
}

/// Raising a part's background for hover changes only that background's
/// alpha, never lowers it, and strictly raises a translucent one.
pub open spec fn raised_for_hover(plain: RowOrCellAppearance, hovered: RowOrCellAppearance) -> bool {
    &&& plain.background is Some
    &&& hovered.background is Some
    &&& hovered == RowOrCellAppearance { background: hovered.background, ..plain }
    &&& hovered.background->0 == plain.background->0.spec_with_alpha(hovered.background->0.a)
    &&& hovered.background->0.a >= plain.background->0.a
    &&& plain.background->0.a < 255 ==> hovered.background->0.a > plain.background->0.a
}

/// Every built-in row style, under every theme and for every row, draws a
/// hovered row and its cells with the same attributes as the plain ones but
/// for background alpha, which is strictly higher wherever the plain
/// background is not opaque.
pub proof fn lemma_hover_raises_alpha<S: ?Sized + StyleSheet>(
    style: TableRowStyles<S>,
    theme: Theme,
    row_id: u16,
)
    requires
        !(style is Custom),
    ensures
        raised_for_hover(
            style.spec_resolve(&theme, row_id, false).row,
            style.spec_resolve(&theme, row_id, true).row,
        ),
        raised_for_hover(
            style.spec_resolve(&theme, row_id, false).cell,
            style.spec_resolve(&theme, row_id, true).cell,
        ),
{
    let a = style.spec_base(palette_of(theme));
    crate::color::lemma_hover_alpha_raises(a.row.background->0.a);
    crate::color::lemma_hover_alpha_raises(a.cell.background->0.a);
}

/// Resolving a style twice under one theme for one row, hovered or not, gives
/// the same appearance both times.
pub proof fn lemma_resolve_is_repeatable<S: ?Sized + StyleSheet>(
    style: TableRowStyles<S>,
    theme: Theme,
    row_id: u16,
    hovered: bool,
    first: Appearance,
    second: Appearance,
)
    requires
        first == style.spec_resolve(&theme, row_id, hovered),
        second == style.spec_resolve(&theme, row_id, hovered),
    ensures
        first == second,
{
}

} // verus!
