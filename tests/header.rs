use iced::Theme;
use iced_table::color::{hover_alpha, Palette, Rgba};
use iced_table::geometry::{Interaction, Point, Rectangle};
use iced_table::header_style::{Appearance, StyleSheet, TableHeaderStyles};
use iced_table::table_header::{
    background_quad, resize_widths, EventResponse, HeaderEvent, ResizeEvent, TableHeader,
    TableHeaderState, MIN_COLUMN_WIDTH,
};

fn rect(x: i32, y: i32, width: u32, height: u32) -> Rectangle {
    Rectangle { x, y, width, height }
}

fn pt(x: i32, y: i32) -> Point {
    Point { x, y }
}

fn names(list: &[&str]) -> Vec<String> {
    list.iter().map(|s| s.to_string()).collect()
}

/// Columns A, B and C, 100 pixels each, no margins.
fn abc(leeway: u16) -> TableHeader {
    let header: TableHeader = TableHeader::new(TableHeaderState::default(), names(&["A", "B", "C"]), false, false);
    header.on_resize(leeway)
}

fn abc_children() -> Vec<Rectangle> {
    vec![rect(0, 0, 100, 30), rect(100, 0, 100, 30), rect(200, 0, 100, 30)]
}

fn header_bounds() -> Rectangle {
    rect(0, 0, 300, 30)
}

fn move_to(header: &mut TableHeader, x: i32) -> EventResponse {
    let p = pt(x, 10);
    header.on_event(HeaderEvent::CursorMoved { position: p }, header_bounds(), &abc_children(), Some(p))
}

#[test]
fn drag_between_first_two_columns() {
    let mut header = abc(5);
    let r = move_to(&mut header, 100);
    assert!(matches!(r, EventResponse::Forward));
    assert!(header.state.resize_hovering);
    assert_eq!(header.state.resizing_idx, 0);
    assert!(!header.state.resizing);

    let r = header.on_event(HeaderEvent::LeftPressed, header_bounds(), &abc_children(), Some(pt(100, 10)));
    assert!(matches!(r, EventResponse::Captured));
    assert!(header.state.resizing);
    assert_eq!(header.state.starting_cursor_pos, Some(pt(100, 10)));
    assert_eq!(header.state.starting_left_width, 100);
    assert_eq!(header.state.starting_right_width, 100);

    match move_to(&mut header, 110) {
        EventResponse::Resized(ResizeEvent::ResizeColumn { left_name, left_width, right_name, right_width }) => {
            assert_eq!(left_name, "A");
            assert_eq!(right_name, "B");
            assert_eq!(left_width, 110);
            assert_eq!(right_width, 90);
        }
        _ => panic!("a move during a drag reports the new widths"),
    }

    let r = header.on_event(HeaderEvent::LeftReleased, header_bounds(), &abc_children(), Some(pt(110, 10)));
    assert!(matches!(r, EventResponse::Captured));
    assert!(!header.state.resizing);
    assert_eq!(header.state.starting_cursor_pos, None);
}

#[test]
fn drag_far_right_stops_at_minimum_width() {
    let mut header = abc(5);
    move_to(&mut header, 200);
    assert_eq!(header.state.resizing_idx, 1);
    header.on_event(HeaderEvent::LeftPressed, header_bounds(), &abc_children(), Some(pt(200, 10)));
    match move_to(&mut header, 5000) {
        EventResponse::Resized(ResizeEvent::ResizeColumn { left_name, left_width, right_name, right_width }) => {
            assert_eq!(left_name, "B");
            assert_eq!(right_name, "C");
            assert_eq!(left_width, 170);
            assert_eq!(right_width, 30);
        }
        _ => panic!("a move during a drag reports the new widths"),
    }
}

#[test]
fn drag_continues_outside_the_header() {
    let mut header = abc(5);
    move_to(&mut header, 100);
    header.on_event(HeaderEvent::LeftPressed, header_bounds(), &abc_children(), Some(pt(100, 10)));
    let far = pt(60, 500);
    let r = header.on_event(HeaderEvent::CursorMoved { position: far }, header_bounds(), &abc_children(), Some(far));
    match r {
        EventResponse::Resized(ResizeEvent::ResizeColumn { left_width, right_width, .. }) => {
            assert_eq!(left_width, 60);
            assert_eq!(right_width, 140);
        }
        _ => panic!("the drag goes on outside the header"),
    }
}

#[test]
fn hover_within_leeway_minus_one() {
    for x in [104, 96] {
        let mut header = abc(5);
        move_to(&mut header, x);
        assert!(header.state.resize_hovering, "x = {}", x);
        assert_eq!(header.state.resizing_idx, 0);
    }
}

#[test]
fn no_hover_at_leeway_plus_one() {
    for x in [106, 94, 105, 95] {
        let mut header = abc(5);
        move_to(&mut header, x);
        assert!(!header.state.resize_hovering, "x = {}", x);
    }
}

#[test]
fn last_column_right_edge_is_no_divider() {
    let mut header = abc(5);
    move_to(&mut header, 299);
    assert!(!header.state.resize_hovering);
}

#[test]
fn without_resizing_no_hover() {
    let mut header: TableHeader = TableHeader::new(TableHeaderState::default(), names(&["A", "B", "C"]), false, false);
    let r = move_to(&mut header, 100);
    assert!(matches!(r, EventResponse::Forward));
    assert!(!header.state.resize_hovering);
    let r = header.on_event(HeaderEvent::LeftPressed, header_bounds(), &abc_children(), Some(pt(100, 10)));
    assert!(matches!(r, EventResponse::Forward));
    assert!(!header.state.resizing);
}

#[test]
fn leaving_the_header_clears_hover() {
    let mut header = abc(5);
    move_to(&mut header, 100);
    assert!(header.state.resize_hovering);
    let out = pt(100, 40);
    let r = header.on_event(HeaderEvent::CursorMoved { position: out }, header_bounds(), &abc_children(), Some(out));
    assert!(matches!(r, EventResponse::Forward));
    assert!(!header.state.resize_hovering);
}

#[test]
fn press_away_from_divider_goes_to_children() {
    let mut header = abc(5);
    move_to(&mut header, 50);
    let r = header.on_event(HeaderEvent::LeftPressed, header_bounds(), &abc_children(), Some(pt(50, 10)));
    assert!(matches!(r, EventResponse::Forward));
    assert!(!header.state.resizing);
}

#[test]
fn release_without_drag_goes_to_children() {
    let mut header = abc(5);
    let r = header.on_event(HeaderEvent::LeftReleased, header_bounds(), &abc_children(), Some(pt(50, 10)));
    assert!(matches!(r, EventResponse::Forward));
}

#[test]
fn margins_shift_the_dividers() {
    let state = TableHeaderState::default();
    let mut header: TableHeader = TableHeader::new(state, names(&["A", "B"]), true, true).on_resize(3);
    let children = vec![rect(0, 0, 20, 30), rect(20, 0, 100, 30), rect(120, 0, 100, 30), rect(220, 0, 20, 30)];
    let bounds = rect(0, 0, 240, 30);
    let edge = pt(20, 5);
    header.on_event(HeaderEvent::Other, bounds, &children, Some(edge));
    assert!(!header.state.resize_hovering, "the left margin's edge is no divider");
    let edge = pt(220, 5);
    header.on_event(HeaderEvent::Other, bounds, &children, Some(edge));
    assert!(!header.state.resize_hovering, "the last column's edge is no divider");
    let mid = pt(121, 5);
    header.on_event(HeaderEvent::Other, bounds, &children, Some(mid));
    assert!(header.state.resize_hovering);
    assert_eq!(header.state.resizing_idx, 1);
    header.on_event(HeaderEvent::LeftPressed, bounds, &children, Some(mid));
    match header.on_event(HeaderEvent::CursorMoved { position: pt(100, 5) }, bounds, &children, Some(pt(100, 5))) {
        EventResponse::Resized(ResizeEvent::ResizeColumn { left_name, left_width, right_name, right_width }) => {
            assert_eq!(left_name, "A");
            assert_eq!(right_name, "B");
            assert_eq!(left_width, 79);
            assert_eq!(right_width, 121);
        }
        _ => panic!("a move during a drag reports the new widths"),
    }
}

#[test]
fn first_of_two_near_dividers_wins() {
    let mut header: TableHeader =
        TableHeader::new(TableHeaderState::default(), names(&["A", "B", "C"]), false, false).on_resize(5);
    let children = vec![rect(0, 0, 100, 30), rect(100, 0, 4, 30), rect(104, 0, 100, 30)];
    header.on_event(HeaderEvent::Other, rect(0, 0, 204, 30), &children, Some(pt(102, 5)));
    assert!(header.state.resize_hovering);
    assert_eq!(header.state.resizing_idx, 0);
}

#[test]
fn no_cursor_counts_as_origin() {
    let mut header = abc(5);
    let r = header.on_event(HeaderEvent::Other, rect(-10, -10, 20, 20), &abc_children(), None);
    assert!(matches!(r, EventResponse::Forward));
    assert!(!header.state.resize_hovering);
    assert_eq!(header.mouse_interaction(rect(-10, -10, 20, 20), None), Interaction::Pointer);
    assert_eq!(header.mouse_interaction(rect(1, 1, 20, 20), None), Interaction::Idle);
}

#[test]
fn consistency_check() {
    let header = abc(5);
    assert!(header.is_consistent());
    let mut state = TableHeaderState::default();
    state.resizing = true;
    let broken: TableHeader = TableHeader::new(state, names(&["A", "B"]), false, false);
    assert!(!broken.is_consistent());
    state.starting_cursor_pos = Some(pt(0, 0));
    state.resizing_idx = 1;
    let broken: TableHeader = TableHeader::new(state, names(&["A", "B"]), false, false);
    assert!(!broken.is_consistent());
    state.resizing_idx = 0;
    let fine: TableHeader = TableHeader::new(state, names(&["A", "B"]), false, false);
    assert!(fine.is_consistent());
}

#[test]
fn resize_widths_follow_the_cursor() {
    assert_eq!(resize_widths(100, 100, 10), (110, 90));
    assert_eq!(resize_widths(100, 100, -10), (90, 110));
    assert_eq!(resize_widths(100, 100, 0), (100, 100));
}

#[test]
fn resize_widths_clamp_to_minimum() {
    assert_eq!(resize_widths(100, 100, 1000), (170, 30));
    assert_eq!(resize_widths(100, 100, -1000), (30, 170));
    assert_eq!(resize_widths(100, 100, i64::MAX), (170, 30));
    assert_eq!(resize_widths(100, 100, i64::MIN), (30, 170));
    assert_eq!(resize_widths(30, 30, 7), (30, 30));
}

#[test]
fn resize_widths_conserve_total() {
    for delta in [-500i64, -71, -1, 0, 1, 13, 69, 500] {
        let (l, r) = resize_widths(80, 60, delta);
        assert_eq!(l as u32 + r as u32, 140);
        assert!(l as u32 >= MIN_COLUMN_WIDTH && r as u32 >= MIN_COLUMN_WIDTH);
    }
}

#[test]
fn resize_widths_split_a_narrow_pair_evenly() {
    assert_eq!(resize_widths(40, 10, 5), (25, 25));
    assert_eq!(resize_widths(40, 11, -30), (25, 26));
    assert_eq!(resize_widths(0, 0, 3), (0, 0));
}

#[test]
fn resize_widths_saturate_wide_columns() {
    assert_eq!(resize_widths(u32::MAX, u32::MAX, 0), (u16::MAX, u16::MAX));
}

#[test]
fn hover_alpha_values() {
    assert_eq!(hover_alpha(0), 128);
    assert_eq!(hover_alpha(77), 166);
    assert_eq!(hover_alpha(128), 192);
    assert_eq!(hover_alpha(254), 255);
    assert_eq!(hover_alpha(255), 255);
}

fn palette() -> Palette {
    Palette {
        primary_base: Rgba { r: 10, g: 20, b: 30, a: 200 },
        primary_strong: Rgba { r: 1, g: 2, b: 3, a: 255 },
    }
}

#[test]
fn header_default_style_values() {
    let style: TableHeaderStyles = TableHeaderStyles::Default;
    let plain = style.appearance_with(&palette(), false);
    assert_eq!(plain.background, Some(Rgba { r: 10, g: 20, b: 30, a: 200 }));
    assert_eq!(plain.text_color, Rgba { r: 1, g: 2, b: 3, a: 255 });
    assert_eq!(plain.border_width, 0);
    assert_eq!(plain.border_color, Rgba { r: 0, g: 0, b: 0, a: 0 });
    let hovered = style.appearance_with(&palette(), true);
    assert_eq!(hovered.background, Some(Rgba { r: 10, g: 20, b: 30, a: 228 }));
    assert_eq!(Appearance { background: plain.background, ..hovered }, plain);
}

#[test]
fn header_appearance_is_repeatable() {
    let style: TableHeaderStyles = TableHeaderStyles::Default;
    assert_eq!(style.appearance_with(&palette(), false), style.appearance_with(&palette(), false));
    assert_eq!(style.appearance_with(&palette(), true), style.appearance_with(&palette(), true));
}

#[test]
fn header_default_appearance() {
    let a = Appearance::default();
    assert_eq!(a.background, None);
    assert_eq!(a.text_color, Rgba { r: 26, g: 26, b: 26, a: 255 });
}

#[test]
fn header_background_quad_insets_and_fills() {
    let a = Appearance { offset_left: 5, offset_right: 12, ..Appearance::default() };
    let q = background_quad(&a, rect(10, 20, 100, 30));
    assert_eq!(q.bounds, rect(15, 20, 88, 30));
    assert_eq!(q.background, Rgba { r: 0, g: 0, b: 0, a: 0 });
    let a = Appearance { offset_right: 500, background: Some(Rgba { r: 1, g: 1, b: 1, a: 1 }), ..Appearance::default() };
    let q = background_quad(&a, rect(i32::MAX, 0, 100, 30));
    assert_eq!(q.bounds, rect(i32::MAX, 0, 0, 30));
    assert_eq!(q.background, Rgba { r: 1, g: 1, b: 1, a: 1 });
}

fn theme_primary(theme: &Theme) -> (Rgba, Rgba) {
    let p = &theme.extended_palette().primary;
    let [r, g, b, a] = p.base.color.into_rgba8();
    let [sr, sg, sb, sa] = p.strong.color.into_rgba8();
    (Rgba { r, g, b, a }, Rgba { r: sr, g: sg, b: sb, a: sa })
}

#[test]
fn header_background_reads_the_theme() {
    let theme = Theme::Dark;
    let (base, strong) = theme_primary(&theme);
    let header = abc(5);
    let away = header.background(&theme, header_bounds(), Some(pt(500, 500)));
    assert_eq!(away.background, base);
    assert_eq!(away.bounds, header_bounds());
    let over = header.background(&theme, header_bounds(), Some(pt(5, 5)));
    assert_eq!(over.background, base.with_alpha(hover_alpha(base.a)));
    assert_ne!(strong, Rgba { r: 0, g: 0, b: 0, a: 0 });
}

#[test]
fn header_pointer_over_bounds() {
    let header = abc(5);
    assert_eq!(header.mouse_interaction(header_bounds(), Some(pt(0, 0))), Interaction::Pointer);
    assert_eq!(header.mouse_interaction(header_bounds(), Some(pt(300, 0))), Interaction::Idle);
}

#[test]
fn drag_keeps_its_divider_without_hover() {
    let state = TableHeaderState {
        resize_hovering: false,
        resizing: true,
        starting_cursor_pos: Some(pt(200, 10)),
        starting_left_width: 100,
        starting_right_width: 100,
        resizing_idx: 1,
    };
    let mut header: TableHeader =
        TableHeader::new(state, names(&["A", "B", "C"]), false, false).on_resize(5);
    let p = pt(100, 500);
    match header.on_event(HeaderEvent::CursorMoved { position: p }, header_bounds(), &abc_children(), Some(p)) {
        EventResponse::Resized(ResizeEvent::ResizeColumn { left_name, left_width, right_name, right_width }) => {
            assert_eq!(left_name, "B");
            assert_eq!(right_name, "C");
            assert_eq!(left_width, 30);
            assert_eq!(right_width, 170);
        }
        _ => panic!("a move during a drag reports the new widths"),
    }
    assert_eq!(header.state, state);
}

#[test]
fn stale_hover_of_a_missing_divider_is_dropped() {
    let state = TableHeaderState { resize_hovering: true, resizing_idx: 7, ..TableHeaderState::default() };
    let mut header: TableHeader = TableHeader::new(state, names(&["A", "B", "C"]), false, false).on_resize(5);
    assert!(header.is_consistent());
    let r = header.on_event(HeaderEvent::LeftPressed, header_bounds(), &abc_children(), Some(pt(50, 10)));
    assert!(matches!(r, EventResponse::Forward));
    assert!(!header.state.resize_hovering);
    assert!(!header.state.resizing);
}

#[test]
fn header_resolve_reads_the_theme_palette() {
    let style: TableHeaderStyles = TableHeaderStyles::Default;
    for theme in [Theme::Light, Theme::Dark, Theme::Nord] {
        let (base, strong) = theme_primary(&theme);
        let p = Palette { primary_base: base, primary_strong: strong };
        for hovered in [false, true] {
            assert_eq!(style.resolve(&theme, hovered), style.appearance_with(&p, hovered));
            assert_eq!(style.resolve(&theme, hovered), style.resolve(&theme, hovered));
        }
    }
}

struct Framed;

impl StyleSheet for Framed {
    fn spec_appearance(&self, theme: &Theme) -> Appearance {
        self.appearance(theme)
    }

    fn spec_hovered(&self, theme: &Theme) -> Appearance {
        self.hovered(theme)
    }

    fn appearance(&self, _theme: &Theme) -> Appearance {
        Appearance { border_width: 2, offset_left: 3, ..Appearance::default() }
    }

    fn hovered(&self, _theme: &Theme) -> Appearance {
        Appearance { border_width: 4, ..Appearance::default() }
    }
}

#[test]
fn custom_header_style_is_asked() {
    let style = TableHeaderStyles::custom(Framed);
    assert_eq!(style.resolve(&Theme::Light, false), Framed.appearance(&Theme::Light));
    assert_eq!(style.resolve(&Theme::Light, true), Framed.hovered(&Theme::Light));
    let header = TableHeader::new(TableHeaderState::default(), names(&["A"]), false, false).style(style);
    let away = header.background(&Theme::Light, header_bounds(), Some(pt(900, 900)));
    assert_eq!(away.border_width, 2);
    assert_eq!(away.bounds, rect(3, 0, 300, 30));
    let over = header.background(&Theme::Light, header_bounds(), Some(pt(1, 1)));
    assert_eq!(over.border_width, 4);
}
