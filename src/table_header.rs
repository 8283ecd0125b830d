//! The table header's model: column names, margins, and the resize-by-drag
//! state machine that runs on the header's input events.

use crate::geometry::{cursor_or_origin, spec_cursor_or_origin, Interaction, Point, Quad, Rectangle};
use crate::header_style::{Appearance, StyleSheet, TableHeaderStyles};
use crate::color::Rgba;
use iced::Theme;
use vstd::prelude::*;

verus! {

/// The narrowest a column can be dragged to, in pixels.
pub const MIN_COLUMN_WIDTH: u32 = 30;

/// The resize state of a header, kept by the application between frames.
#[derive(Clone, Copy, Debug, PartialEq, Eq)]
pub struct TableHeaderState {
    /// The cursor is within the leeway of a divider.
    pub resize_hovering: bool,
    /// A drag is in progress.
    pub resizing: bool,
    /// Where the drag started; present exactly while dragging.
    pub starting_cursor_pos: Option<Point>,
    /// The width of the column left of the divider when the drag started.
    pub starting_left_width: u32,
    /// The width of the column right of the divider when the drag started.
    pub starting_right_width: u32,
    /// The child index of the column left of the hovered or dragged divider.
    pub resizing_idx: usize,
}

impl Default for TableHeaderState {
    fn default() -> (r: TableHeaderState)
        ensures
            !r.resize_hovering,
            !r.resizing,
            r.starting_cursor_pos is None,
            r.starting_left_width == 0,
            r.starting_right_width == 0,
            r.resizing_idx == 0,
    {
        TableHeaderState {
            resize_hovering: false,
            resizing: false,
            starting_cursor_pos: None,
            starting_left_width: 0,
            starting_right_width: 0,
            resizing_idx: 0,
        }
    }
}

/// What a drag reports.
#[derive(Clone, Debug)]
pub enum ResizeEvent {
    /// The two columns beside the dragged divider, with their new widths.
    ResizeColumn { left_name: String, left_width: u16, right_name: String, right_width: u16 },
    /// A drag has ended. Reserved: releasing the button does not report it.
    Finished,
}

/// An input event, as far as the header reads it.
#[derive(Clone, Copy, Debug, PartialEq, Eq, Structural)]
pub enum HeaderEvent {
    /// The left mouse button went down.
    LeftPressed,
    /// The left mouse button went up.
    LeftReleased,
    /// The cursor moved to `position`.
    CursorMoved { position: Point },
    /// Anything else.
    Other,
}

/// What became of an event that the header handled.
#[derive(Clone, Debug)]
pub enum EventResponse {
    /// The header took no action: hand the event on to the header's children.
    Forward,
    /// The header consumed the event.
    Captured,
    /// The header consumed the event, and the columns were resized.
    Resized(ResizeEvent),
}

/// Whether `x` lies strictly within `leeway` pixels of `d`.
pub open spec fn near(x: int, d: int, leeway: int) -> bool {
    d - leeway < x && x < d + leeway
}

/// `v` limited to `lo ..= hi`, where `lo <= hi`.
pub open spec fn clamp(v: int, lo: int, hi: int) -> int {
    if v < lo {
        lo
    } else if v > hi {
        hi
    } else {
        v
    }
}

/// The widths of the two columns beside a divider after a drag by `delta`:
/// the left one follows the cursor, the right one takes what is left of their
/// sum, and neither goes under the minimum. Where the sum is too small for two
/// minimum columns, both take half of it.
pub open spec fn spec_resize_widths(left: u32, right: u32, delta: int) -> (int, int) {
    let total = left + right;
    if total >= 2 * MIN_COLUMN_WIDTH {
        let l = clamp(left + delta, MIN_COLUMN_WIDTH as int, total - MIN_COLUMN_WIDTH);
        (l, total - l)
    } else {
        (total / 2, total - total / 2)
    }
}

/// `v` limited to what a `u16` holds.
pub open spec fn saturate_u16(v: int) -> u16 {
    if v > u16::MAX {
        u16::MAX
    } else {
        v as u16
    }
}

/// The reported widths of the two columns beside a divider after a drag by
/// `delta`, each limited to what a `u16` holds.
pub fn resize_widths(left: u32, right: u32, delta: i64) -> (r: (u16, u16))
    ensures
        r.0 == saturate_u16(spec_resize_widths(left, right, delta as int).0),
        r.1 == saturate_u16(spec_resize_widths(left, right, delta as int).1),
{
    let total: i64 = left as i64 + right as i64;
    let min: i64 = MIN_COLUMN_WIDTH as i64;
    let (l, rr): (i64, i64) = if total >= 2 * min {
        let wanted: i64 = if delta > total {
            total
        } else if delta < -total {
            0
        } else {
            left as i64 + delta
        };
        let l: i64 = if wanted < min {
            min
        } else if wanted > total - min {
            total - min
        } else {
            wanted
        };
        (l, total - l)
    } else {
        (total / 2, total - total / 2)
    };
    let lw: u16 = if l > u16::MAX as i64 {
        u16::MAX
    } else {
        l as u16
    };
    let rw: u16 = if rr > u16::MAX as i64 {
        u16::MAX
    } else {
        rr as u16
    };
    (lw, rw)
}

/// The quad that paints appearance `a` over `bounds`: inset by the offsets,
/// transparent where `a` has no background.
pub open spec fn spec_background_quad(a: Appearance, bounds: Rectangle) -> Quad {
    Quad {
        bounds: bounds.spec_inset(a.offset_left, a.offset_right),
        background: match a.background {
            Some(c) => c,
            None => Rgba { r: 0, g: 0, b: 0, a: 0 },
        },
        border_width: a.border_width,
        border_color: a.border_color,
        border_radius: a.border_radius,
    }
}

pub fn background_quad(a: &Appearance, bounds: Rectangle) -> (r: Quad)
    ensures
        r == spec_background_quad(*a, bounds),
{
    let background = match a.background {
        Some(c) => c,
        None => Rgba::transparent(),
    };
    Quad {
        bounds: bounds.inset(a.offset_left, a.offset_right),
        background,
        border_width: a.border_width,
        border_color: a.border_color,
        border_radius: a.border_radius,
    }
}

/// A drag keeps the sum of the two columns' widths, whenever that sum fits
/// the reported width type.
pub proof fn lemma_resize_conserves_total(left: u32, right: u32, delta: int)
    requires
        left + right <= u16::MAX,
    ensures
        saturate_u16(spec_resize_widths(left, right, delta).0) + saturate_u16(
            spec_resize_widths(left, right, delta).1,
        ) == left + right,
{
}

/// A drag never makes either column narrower than the minimum, however far
/// the cursor goes, whenever the two columns together are wide enough for two
/// minimum columns.
pub proof fn lemma_resize_respects_minimum(left: u32, right: u32, delta: int)
    requires
        left + right >= 2 * MIN_COLUMN_WIDTH,
    ensures
        saturate_u16(spec_resize_widths(left, right, delta).0) >= MIN_COLUMN_WIDTH,
        saturate_u16(spec_resize_widths(left, right, delta).1) >= MIN_COLUMN_WIDTH,
{
}

/// An idle resizable header whose cursor moves, inside its bounds, to within
/// one pixel less than the leeway of a divider starts hovering that divider,
/// unless a divider further left is within reach too.
pub proof fn lemma_hover_within_leeway<S: ?Sized + StyleSheet>(
    header: TableHeader<S>,
    bounds: Rectangle,
    children: Seq<Rectangle>,
    idx: int,
    cursor: Point,
)
    requires
        header.resizable,
        header.leeway >= 1,
        !header.state.resizing,
        !header.state.resize_hovering,
        children.len() == header.child_count(),
        children.len() <= usize::MAX,
        header.is_divider(idx),
        bounds.spec_contains(cursor),
        cursor.x == children[idx].spec_right() + (header.leeway - 1) || cursor.x
            == children[idx].spec_right() - (header.leeway - 1),
        forall|j: int| j < idx ==> !#[trigger] header.near_divider(children, cursor.x as int, j),
    ensures
        header.spec_next_state(
            HeaderEvent::CursorMoved { position: cursor },
            bounds,
            children,
            cursor,
        ).resize_hovering,
        header.spec_next_state(
            HeaderEvent::CursorMoved { position: cursor },
            bounds,
            children,
            cursor,
        ).resizing_idx == idx,
        !header.spec_next_state(
            HeaderEvent::CursorMoved { position: cursor },
            bounds,
            children,
            cursor,
        ).resizing,
{
    let x = cursor.x as int;
    assert(header.first_near(children, x, idx));
    let k = choose|k: int| header.first_near(children, x, k);
    assert(k == idx) by {
        if k < idx {
            assert(!header.near_divider(children, x, k));
        } else if idx < k {
            assert(!header.near_divider(children, x, idx));
        }
    }
}

/// A cursor one pixel more than the leeway away from a divider never makes an
/// idle header hover that divider.
pub proof fn lemma_no_hover_beyond_leeway<S: ?Sized + StyleSheet>(
    header: TableHeader<S>,
    event: HeaderEvent,
    bounds: Rectangle,
    children: Seq<Rectangle>,
    idx: int,
    cursor: Point,
)
    requires
        !header.state.resizing,
        !header.state.resize_hovering,
        children.len() == header.child_count(),
        children.len() <= usize::MAX,
        header.is_divider(idx),
        cursor.x == children[idx].spec_right() + (header.leeway + 1) || cursor.x
            == children[idx].spec_right() - (header.leeway + 1),
    ensures
        !(header.spec_next_state(event, bounds, children, cursor).resize_hovering
            && header.spec_next_state(event, bounds, children, cursor).resizing_idx == idx),
{
    let x = cursor.x as int;
    assert(!header.near_divider(children, x, idx));
    if header.resizable && exists|i: int| header.first_near(children, x, i) {
        let k = choose|k: int| header.first_near(children, x, k);
        assert(header.near_divider(children, x, k));
        assert(k != idx);
        assert(k < children.len());
    }
}

/// The header's model: the names of its columns, whether margin spacers stand
/// before and after them, the resize settings, the resize state, and the style.
/// Its children, in order, are the left margin if any, one per column, and the
/// right margin if any.
pub struct TableHeader<S: ?Sized + StyleSheet = dyn StyleSheet> {
    /// One name per column, margins excluded.
    pub names: Vec<String>,
    /// A margin spacer stands before the columns.
    pub left_margin: bool,
    /// A margin spacer stands after the columns.
    pub right_margin: bool,
    /// How near a divider, in pixels, the cursor must be to grab it.
    pub leeway: u16,
    /// Resizing is switched on.
    pub resizable: bool,
    /// The resize state.
    pub state: TableHeaderState,
    /// How the header is painted.
    pub style: TableHeaderStyles<S>,
}

impl<S: ?Sized + StyleSheet> TableHeader<S> {
    /// The child index of the first column.
    pub open spec fn start_offset(&self) -> int {
        if self.left_margin {
            1
        } else {
            0
        }
    }

    /// The number of children: the columns and the margins.
    pub open spec fn child_count(&self) -> int {
        self.names@.len() + self.start_offset() + if self.right_margin {
            1int
        } else {
            0int
        }
    }

    /// Whether a resizable divider stands right of child `idx`: `idx` is a
    /// column and so is the child after it.
    pub open spec fn is_divider(&self, idx: int) -> bool {
        self.start_offset() <= idx && idx + 1 < self.start_offset() + self.names@.len()
    }

    /// Whether the cursor at `x` is within the leeway of the divider right of
    /// child `idx`, given the children's bounds.
    pub open spec fn near_divider(&self, children: Seq<Rectangle>, x: int, idx: int) -> bool {
        &&& self.is_divider(idx)
        &&& near(x, children[idx].spec_right(), self.leeway as int)
    }

    /// Whether `idx` is the leftmost divider near `x`.
    pub open spec fn first_near(&self, children: Seq<Rectangle>, x: int, idx: int) -> bool {
        &&& self.near_divider(children, x, idx)
        &&& forall|j: int| j < idx ==> !#[trigger] self.near_divider(children, x, j)
    }

    /// The state once the cursor's place is taken into account: a drag keeps
    /// its divider; otherwise, where resizing is on, the header hovers over the
    /// leftmost divider near `x`, if any, and hovers over none where resizing
    /// is off.
    pub open spec fn spec_hover(&self, children: Seq<Rectangle>, x: int) -> TableHeaderState {
        let s = self.state;
        if s.resizing {
            s
        } else if self.resizable && exists|i: int| self.first_near(children, x, i) {
            TableHeaderState {
                resize_hovering: true,
                resizing_idx: (choose|i: int| self.first_near(children, x, i)) as usize,
                ..s
            }
        } else {
            TableHeaderState { resize_hovering: false, ..s }
        }
    }

    /// The header is consistent with its state: a drag has an anchor and an
    /// anchor has a drag, and a dragged divider is a divider.
    pub open spec fn wf(&self) -> bool {
        &&& self.state.starting_cursor_pos.is_some() == self.state.resizing
        &&& self.state.resizing ==> self.is_divider(self.state.resizing_idx as int)
    }

    /// The state after an event, given the children's bounds and the cursor.
    pub open spec fn spec_next_state(
        &self,
        event: HeaderEvent,
        bounds: Rectangle,
        children: Seq<Rectangle>,
        cursor: Point,
    ) -> TableHeaderState {
        let s = self.state;
        if !(s.resizing || bounds.spec_contains(cursor)) {
            TableHeaderState { resize_hovering: false, ..s }
        } else {
            let h = self.spec_hover(children, cursor.x as int);
            match event {
                HeaderEvent::LeftPressed => if h.resize_hovering {
                    TableHeaderState {
                        resizing: true,
                        starting_cursor_pos: Some(cursor),
                        starting_left_width: children[h.resizing_idx as int].width,
                        starting_right_width: children[h.resizing_idx + 1].width,
                        ..h
                    }
                } else {
                    h
                },
                HeaderEvent::LeftReleased => if h.resizing {
                    TableHeaderState { resizing: false, starting_cursor_pos: None, ..h }
                } else {
                    h
                },
                _ => h,
            }
        }
    }

    /// Whether `r` is what the header answers to an event: a press that grabs
    /// a divider and a release that ends a drag are consumed; a move during a
    /// drag reports the two columns beside the divider with their new widths
    /// (or is only consumed where resizing is off); anything else goes on to
    /// the children.
    pub open spec fn spec_response(
        &self,
        event: HeaderEvent,
        bounds: Rectangle,
        children: Seq<Rectangle>,
        cursor: Point,
        r: EventResponse,
    ) -> bool {
        let s = self.state;
        if !(s.resizing || bounds.spec_contains(cursor)) {
            r is Forward
        } else {
            let h = self.spec_hover(children, cursor.x as int);
            match event {
                HeaderEvent::LeftPressed => if h.resize_hovering {
                    r is Captured
                } else {
                    r is Forward
                },
                HeaderEvent::LeftReleased => if h.resizing {
                    r is Captured
                } else {
                    r is Forward
                },
                HeaderEvent::CursorMoved { position } => if h.resizing {
                    if self.resizable {
                        let i = h.resizing_idx - self.start_offset();
                        let w = spec_resize_widths(
                            h.starting_left_width,
                            h.starting_right_width,
                            position.x - h.starting_cursor_pos->0.x,
                        );
                        r matches EventResponse::Resized(
                            ResizeEvent::ResizeColumn { left_name, left_width, right_name, right_width },
                        ) && left_name@ == self.names@[i]@ && right_name@ == self.names@[i + 1]@
                            && left_width == saturate_u16(w.0) && right_width == saturate_u16(w.1)
                    } else {
                        r is Captured
                    }
                } else {
                    r is Forward
                },
                HeaderEvent::Other => r is Forward,
            }
        }
    }

    /// A header with the given state and columns, with or without margins,
    /// resizing off and the default style.
    pub fn new(state: TableHeaderState, names: Vec<String>, left_margin: bool, right_margin: bool) -> (r: Self)
        ensures
            r.state == state,
            r.names@ == names@,
            r.left_margin == left_margin,
            r.right_margin == right_margin,
            r.leeway == 0,
            !r.resizable,
            r.style is Default,
    {
        TableHeader {
            names,
            left_margin,
            right_margin,
            leeway: 0,
            resizable: false,
            state,
            style: TableHeaderStyles::Default,
        }
    }

    /// Whether the header and its state are consistent.
    pub fn is_consistent(&self) -> (r: bool)
        ensures
            r == self.wf(),
    {
        let s = &self.state;
        if s.starting_cursor_pos.is_some() != s.resizing {
            return false;
        }
        if s.resizing {
            let start: usize = if self.left_margin {
                1
            } else {
                0
            };
            s.resizing_idx >= start && self.names.len() > 0 && s.resizing_idx - start < self.names.len() - 1
        } else {
            true
        }
    }

    /// Moves the hover onto the leftmost divider near `x`, as `spec_hover` says.
    fn update_hover(&mut self, children: &Vec<Rectangle>, x: i32)
        requires
            children@.len() == old(self).child_count(),
            old(self).wf(),
        ensures
            final(self).state == old(self).spec_hover(children@, x as int),
            final(self).names == old(self).names,
            final(self).left_margin == old(self).left_margin,
            final(self).right_margin == old(self).right_margin,
            final(self).leeway == old(self).leeway,
            final(self).resizable == old(self).resizable,
            final(self).style == old(self).style,
    {
        if self.state.resizing {
            return;
        }
        self.state.resize_hovering = false;
        if !self.resizable {
            return;
        }
        let ghost s0 = self.state;
        let start: usize = if self.left_margin {
            1
        } else {
            0
        };
        let n = self.names.len();
        let leeway = self.leeway as i64;
        let xx = x as i64;
        let total = children.len();
        assert(start + n <= total);
        let end: usize = if n == 0 {
            start
        } else {
            start + n - 1
        };
        let mut idx: usize = start;
        while idx < end
            invariant
                start as int == self.start_offset(),
                n == self.names@.len(),
                end == if n == 0 {
                    start as int
                } else {
                    start + n - 1
                },
                leeway == self.leeway,
                xx == x,
                children@.len() == self.child_count(),
                start <= idx <= end,
                !self.state.resizing,
                self.state.starting_cursor_pos == s0.starting_cursor_pos,
                self.state.starting_left_width == s0.starting_left_width,
                self.state.starting_right_width == s0.starting_right_width,
                self.state.resize_hovering <==> exists|j: int|
                    j < idx && #[trigger] old(self).near_divider(children@, x as int, j),
                self.state.resize_hovering ==> old(self).first_near(
                    children@,
                    x as int,
                    self.state.resizing_idx as int,
                ),
                !self.state.resize_hovering ==> self.state.resizing_idx == s0.resizing_idx,
                self.names == old(self).names,
                self.left_margin == old(self).left_margin,
                self.right_margin == old(self).right_margin,
                self.leeway == old(self).leeway,
                self.resizable == old(self).resizable,
                self.style == old(self).style,
                s0 == (TableHeaderState { resize_hovering: false, ..old(self).state }),
            decreases end - idx,
        {
            let ghost before = self.state;
            let d = children[idx].right();
            let hit = d - leeway < xx && xx < d + leeway;
            assert(hit == old(self).near_divider(children@, x as int, idx as int));
            if hit {
                if !self.state.resize_hovering {
                    self.state.resizing_idx = idx;
                }
                self.state.resize_hovering = true;
            }
            proof {
                let c = children@;
                let x_ = x as int;
                if hit {
                    assert(old(self).near_divider(c, x_, idx as int));
                    if !before.resize_hovering {
                        assert forall|j: int| j < idx implies !#[trigger] old(self).near_divider(
                            c,
                            x_,
                            j,
                        ) by {}
                    }
                } else if !before.resize_hovering {
                    assert forall|j: int| j < idx + 1 implies !#[trigger] old(self).near_divider(
                        c,
                        x_,
                        j,
                    ) by {}
                } else {
                    let w = choose|j: int| j < idx && #[trigger] old(self).near_divider(c, x_, j);
                    assert(w < idx + 1 && old(self).near_divider(c, x_, w));
                }
            }
            idx = idx + 1;
        }
        proof {
            let x_ = x as int;
            let c = children@;
            assert forall|j: int| j >= idx implies !#[trigger] old(self).near_divider(c, x_, j) by {}
            if self.state.resize_hovering {
                let i = self.state.resizing_idx as int;
                assert(old(self).first_near(c, x_, i));
                let k = choose|k: int| old(self).first_near(c, x_, k);
                assert(k == i) by {
                    if k < i {
                        assert(!old(self).near_divider(c, x_, k));
                    } else if i < k {
                        assert(!old(self).near_divider(c, x_, i));
                    }
                }
            } else {
                assert forall|k: int| !old(self).first_near(c, x_, k) by {
                    if old(self).first_near(c, x_, k) {
                        assert(old(self).near_divider(c, x_, k));
                    }
                }
            }
        }
    }

    /// Handles one input event, given the header's bounds, its children's
    /// bounds in order, and the cursor (the origin where there is none).
    pub fn on_event(
        &mut self,
        event: HeaderEvent,
        bounds: Rectangle,
        children: &Vec<Rectangle>,
        cursor: Option<Point>,
    ) -> (r: EventResponse)
        requires
            old(self).wf(),
            children@.len() == old(self).child_count(),
        ensures
            final(self).wf(),
            final(self).state == old(self).spec_next_state(
                event,
                bounds,
                children@,
                spec_cursor_or_origin(cursor),
            ),
            old(self).spec_response(event, bounds, children@, spec_cursor_or_origin(cursor), r),
            final(self).names == old(self).names,
            final(self).left_margin == old(self).left_margin,
            final(self).right_margin == old(self).right_margin,
            final(self).leeway == old(self).leeway,
            final(self).resizable == old(self).resizable,
            final(self).style == old(self).style,
    {
        let cur = cursor_or_origin(cursor);
        let in_bounds = bounds.contains(cur);
        if !(self.state.resizing || in_bounds) {
            self.state.resize_hovering = false;
            return EventResponse::Forward;
        }
        let total = children.len();
        self.update_hover(children, cur.x);
        let ghost h = self.state;
        assert(old(self).is_divider(h.resizing_idx as int) || !(h.resizing || h.resize_hovering))
            by {
            if old(self).state.resizing {
            } else if old(self).resizable && exists|i: int| old(self).first_near(children@, cur.x as int, i) {
                let i = choose|i: int| old(self).first_near(children@, cur.x as int, i);
                assert(old(self).near_divider(children@, cur.x as int, i));
                assert(i < total);
                assert(h.resizing_idx as int == i);
            }
        }
        match event {
            HeaderEvent::LeftPressed => {
                if self.state.resize_hovering {
                    let idx = self.state.resizing_idx;
                    self.state.resizing = true;
                    self.state.starting_cursor_pos = Some(cur);
                    self.state.starting_left_width = children[idx].width;
                    self.state.starting_right_width = children[idx + 1].width;
                    return EventResponse::Captured;
                }
            },
            HeaderEvent::LeftReleased => {
                if self.state.resizing {
                    self.state.resizing = false;
                    self.state.starting_cursor_pos = None;
                    return EventResponse::Captured;
                }
            },
            HeaderEvent::CursorMoved { position } => {
                if self.state.resizing {
                    let anchor = match self.state.starting_cursor_pos {
                        Some(p) => p,
                        None => Point { x: 0, y: 0 },
                    };
                    let delta = position.x as i64 - anchor.x as i64;
                    let (left_width, right_width) = resize_widths(
                        self.state.starting_left_width,
                        self.state.starting_right_width,
                        delta,
                    );
                    if !self.resizable {
                        return EventResponse::Captured;
                    }
                    let start: usize = if self.left_margin {
                        1
                    } else {
                        0
                    };
                    let i = self.state.resizing_idx - start;
                    let left_name = self.names[i].clone();
                    let right_name = self.names[i + 1].clone();
                    return EventResponse::Resized(
                        ResizeEvent::ResizeColumn { left_name, left_width, right_name, right_width },
                    );
                }
            },
            HeaderEvent::Other => {},
        }
        EventResponse::Forward
    }
    /// Switches resizing on, with the cursor grabbing a divider within
    /// `leeway` pixels of it.
    pub fn on_resize(self, leeway: u16) -> (r: Self)
        ensures
            r.leeway == leeway,
            r.resizable,
            r.names == self.names,
            r.left_margin == self.left_margin,
            r.right_margin == self.right_margin,
            r.state == self.state,
            r.style == self.style,
    {
        TableHeader { leeway, resizable: true, ..self }
    }

    /// Sets the style.
    pub fn style(self, style: TableHeaderStyles<S>) -> (r: Self)
        ensures
            r.style == style,
            r.names == self.names,
            r.left_margin == self.left_margin,
            r.right_margin == self.right_margin,
            r.leeway == self.leeway,
            r.resizable == self.resizable,
            r.state == self.state,
    {
        TableHeader { style, ..self }
    }

    /// Whether the header is drawn hovered: the cursor (the origin where there
    /// is none) lies in its bounds.
    pub fn is_hovered(&self, bounds: Rectangle, cursor: Option<Point>) -> (r: bool)
        ensures
            r == bounds.spec_contains(spec_cursor_or_origin(cursor)),
    {
        bounds.contains(cursor_or_origin(cursor))
    }

    /// The header's background quad under `theme`: the hovered appearance
    /// where the cursor is over the header, the plain one elsewhere.
    pub fn background(&self, theme: &Theme, bounds: Rectangle, cursor: Option<Point>) -> (r: Quad)
        ensures
            r == spec_background_quad(
                self.style.spec_resolve(theme, bounds.spec_contains(spec_cursor_or_origin(cursor))),
                bounds,
            ),
    {
        let hovered = self.is_hovered(bounds, cursor);
        let a = self.style.resolve(theme, hovered);
        background_quad(&a, bounds)
    }

    /// The cursor the header asks for: a pointer over the header, the default
    /// elsewhere.
    pub fn mouse_interaction(&self, bounds: Rectangle, cursor: Option<Point>) -> (r: Interaction)
        ensures
            r == if bounds.spec_contains(spec_cursor_or_origin(cursor)) {
                Interaction::Pointer
            } else {
                Interaction::Idle
            },
    {
        if bounds.contains(cursor_or_origin(cursor)) {
            Interaction::Pointer
        } else {
            Interaction::Idle
        }
    }
}

/// Every drag step keeps the sum of the two columns' widths at what it was
/// when the drag started, whenever that sum fits the reported width type; and
/// neither column is reported under the minimum width whenever the sum leaves
/// room for two minimum columns.
pub proof fn lemma_drag_step_widths<S: ?Sized + StyleSheet>(
    header: TableHeader<S>,
    event: HeaderEvent,
    bounds: Rectangle,
    children: Seq<Rectangle>,
    cursor: Point,
    r: EventResponse,
)
    requires
        header.spec_response(event, bounds, children, cursor, r),
    ensures
        r matches EventResponse::Resized(ResizeEvent::ResizeColumn { left_width, right_width, .. })
            ==> {
            let total = header.state.starting_left_width + header.state.starting_right_width;
            &&& total <= u16::MAX ==> left_width + right_width == total
            &&& total >= 2 * MIN_COLUMN_WIDTH ==> left_width >= MIN_COLUMN_WIDTH && right_width
                >= MIN_COLUMN_WIDTH
        },
{
    let s = header.state;
    if r is Resized {
        let h = header.spec_hover(children, cursor.x as int);
        assert(h.starting_left_width == s.starting_left_width);
        assert(h.starting_right_width == s.starting_right_width);
        if let HeaderEvent::CursorMoved { position } = event {
            let delta = position.x - h.starting_cursor_pos->0.x;
            if s.starting_left_width + s.starting_right_width <= u16::MAX {
                lemma_resize_conserves_total(s.starting_left_width, s.starting_right_width, delta);
            }
            if s.starting_left_width + s.starting_right_width >= 2 * MIN_COLUMN_WIDTH {
                lemma_resize_respects_minimum(s.starting_left_width, s.starting_right_width, delta);
            }
        }
    }
}

} // verus!
