//! The table row's model: its identity, its hit-test height, its style, and
//! what it paints and which cursor it asks for.

use crate::color::Rgba;
use crate::geometry::{cursor_or_origin, spec_cursor_or_origin, Interaction, Point, Quad, Rectangle};
use crate::row_style::{Appearance, RowOrCellAppearance, StyleSheet, TableRowStyles};
use iced::Theme;
use vstd::prelude::*;

verus! {

/// What a row paints: one quad for the whole row, then one per cell, in order.
#[derive(Clone, Debug)]
pub struct RowPaint {
    pub row: Quad,
    pub cells: Vec<Quad>,
}

/// The quad that paints part appearance `a` over `bounds`, inset by its
/// offsets where `inset` holds.
pub open spec fn spec_part_quad(a: RowOrCellAppearance, bounds: Rectangle, inset: bool) -> Quad {
    Quad {
        bounds: if inset {
            bounds.spec_inset(a.offset_left, a.offset_right)
        } else {
            bounds
        },
        background: match a.background {
            Some(c) => c,
            None => Rgba { r: 0, g: 0, b: 0, a: 0 },
        },
        border_width: a.border_width,
        border_color: a.border_color,
        border_radius: a.border_radius,
    }
}

fn part_quad(a: &RowOrCellAppearance, bounds: Rectangle, inset: bool) -> (r: Quad)
    ensures
        r == spec_part_quad(*a, bounds, inset),
{
    let background = match a.background {
        Some(c) => c,
        None => Rgba::transparent(),
    };
    Quad {
        bounds: if inset {
            bounds.inset(a.offset_left, a.offset_right)
        } else {
            bounds
        },
        background,
        border_width: a.border_width,
        border_color: a.border_color,
        border_radius: a.border_radius,
    }
}

/// Whether `r` paints appearance `a` over a row drawn in `bounds` with cells
/// in `cells`: the row's quad covers the full drawn bounds, inset by the row's
/// offsets; each cell's quad covers that cell.
pub open spec fn paints(r: RowPaint, a: Appearance, bounds: Rectangle, cells: Seq<Rectangle>) -> bool {
    &&& r.row == spec_part_quad(a.row, bounds, true)
    &&& r.cells@.len() == cells.len()
    &&& forall|i: int| 0 <= i < cells.len() ==> #[trigger] r.cells@[i] == spec_part_quad(a.cell, cells[i], false)
}

/// What a row with appearance `a` paints, drawn in `bounds` with cells in
/// `cells`.
pub fn paint_with(a: &Appearance, bounds: Rectangle, cells: &Vec<Rectangle>) -> (r: RowPaint)
    ensures
        paints(r, *a, bounds, cells@),
{
    let row = part_quad(&a.row, bounds, true);
    let mut quads: Vec<Quad> = Vec::new();
    let mut i: usize = 0;
    while i < cells.len()
        invariant
            i <= cells@.len(),
            quads@.len() == i,
            forall|j: int| 0 <= j < i ==> #[trigger] quads@[j] == spec_part_quad(a.cell, cells@[j], false),
        decreases cells@.len() - i,
    {
        quads.push(part_quad(&a.cell, cells[i], false));
        i = i + 1;
    }
    RowPaint { row, cells: quads }
}

/// A selectable table row's model.
pub struct TableRow<S: ?Sized + StyleSheet = dyn StyleSheet> {
    /// The row's identity, handed to the style.
    pub row_id: u16,
    /// The height of the area that reacts to the cursor, where it differs from
    /// the drawn height.
    pub inner_row_height: Option<u32>,
    /// How the row is painted.
    pub style: TableRowStyles<S>,
}

impl<S: ?Sized + StyleSheet> TableRow<S> {
    /// A row with identity `row_id`, reacting to the cursor over all of its
    /// drawn height, in the default style.
    pub fn new(row_id: u16) -> (r: Self)
        ensures
            r.row_id == row_id,
            r.inner_row_height is None,
            r.style is Default,
    {
        TableRow { row_id, inner_row_height: None, style: TableRowStyles::Default }
    }

    /// Sets the style.
    pub fn style(self, style: TableRowStyles<S>) -> (r: Self)
        ensures
            r.style == style,
            r.row_id == self.row_id,
            r.inner_row_height == self.inner_row_height,
    {
        TableRow { style, ..self }
    }

    /// Makes only the top `height` pixels of the row react to the cursor.
    pub fn inner_row_height(self, height: u32) -> (r: Self)
        ensures
            r.inner_row_height == Some(height),
            r.row_id == self.row_id,
            r.style == self.style,
    {
        TableRow { inner_row_height: Some(height), ..self }
    }

    /// The area that reacts to the cursor: the drawn bounds, cut to the inner
    /// row height where one is set.
    pub open spec fn spec_hit_bounds(&self, bounds: Rectangle) -> Rectangle {
        match self.inner_row_height {
            Some(h) => Rectangle { height: h, ..bounds },
            None => bounds,
        }
    }

    pub fn hit_bounds(&self, bounds: Rectangle) -> (r: Rectangle)
        ensures
            r == self.spec_hit_bounds(bounds),
    {
        match self.inner_row_height {
            Some(h) => Rectangle { height: h, ..bounds },
            None => bounds,
        }
    }

    /// Whether the row is drawn hovered: the cursor (the origin where there is
    /// none) lies in the area that reacts to it.
    pub open spec fn spec_is_hovered(&self, bounds: Rectangle, cursor: Option<Point>) -> bool {
        self.spec_hit_bounds(bounds).spec_contains(spec_cursor_or_origin(cursor))
    }

    pub fn is_hovered(&self, bounds: Rectangle, cursor: Option<Point>) -> (r: bool)
        ensures
            r == self.spec_is_hovered(bounds, cursor),
    {
        self.hit_bounds(bounds).contains(cursor_or_origin(cursor))
    }

    /// What the row paints under `theme`, drawn in `bounds` with cells in
    /// `cells`: the hovered appearance where the cursor is over the area that
    /// reacts to it, the plain one elsewhere. None where that appearance lacks
    /// a background for the row or for the cells.
    pub fn paint(&self, theme: &Theme, bounds: Rectangle, cells: &Vec<Rectangle>, cursor: Option<Point>) -> (r: Option<RowPaint>)
        ensures
            ({
                let a = self.style.spec_resolve(theme, self.row_id, self.spec_is_hovered(bounds, cursor));
                if a.row.background is Some && a.cell.background is Some {
                    r matches Some(p) && paints(p, a, bounds, cells@)
                } else {
                    r is None
                }
            }),
    {
        let hovered = self.is_hovered(bounds, cursor);
        let a = self.style.resolve(theme, self.row_id, hovered);
        if a.row.background.is_none() || a.cell.background.is_none() {
            return None;
        }
        Some(paint_with(&a, bounds, cells))
    }

    /// The cursor the row asks for: a pointer where the cursor is over the row
    /// or over one of its cells, the default elsewhere.
    pub fn mouse_interaction(&self, bounds: Rectangle, cells: &Vec<Rectangle>, cursor: Option<Point>) -> (r: Interaction)
        ensures
            r == if bounds.spec_contains(spec_cursor_or_origin(cursor)) || exists|i: int|
                0 <= i < cells@.len() && #[trigger] cells@[i].spec_contains(spec_cursor_or_origin(cursor)) {
                Interaction::Pointer
            } else {
                Interaction::Idle
            },
    {
        let p = cursor_or_origin(cursor);
        if bounds.contains(p) {
            return Interaction::Pointer;
        }
        let mut i: usize = 0;
        while i < cells.len()
            invariant
                i <= cells@.len(),
                p == spec_cursor_or_origin(cursor),
                !bounds.spec_contains(p),
                forall|j: int| 0 <= j < i ==> !#[trigger] cells@[j].spec_contains(p),
            decreases cells@.len() - i,
        {
            if cells[i].contains(p) {
                assert(cells@[i as int].spec_contains(p));
                return Interaction::Pointer;
            }
            i = i + 1;
        }
        Interaction::Idle
    }
}

} // verus!
