use oh_my_tab_settings::collapse::{set_rows_visible, Neighbour};
use oh_my_tab_settings::document::{
    collect_debug_layout, debug_validate_settings_page, fit_page_document_height,
    fit_settings_document_height, rect_inside, rects_overlap, required_document_height,
    scroll_page_to_top, stable_document_height, LayoutEntry, LayoutFault, PageChild, ViewNode,
};
use oh_my_tab_settings::geometry::{rect_contains_point, Measure, Point, Rect, Size};
use oh_my_tab_settings::layout::{
    add_page_title, add_settings_card, centered_text_field_cell_frame, derived_label_width,
    place_row, ControlFacts, RowKind, SettingsLayout, SettingsSection, CONTROL_H,
    SINGLE_LINE_ROW_H,
};
use oh_my_tab_settings::select_layout::{
    settings_select_centered_text_geometry, settings_select_make_item, settings_select_needs_wrap,
    settings_select_open_layout, settings_select_panel_geometry,
};
use oh_my_tab_settings::sidebar::{
    build_settings_sidebar, sidebar_item_frames, SettingsSidebarGeometry,
};

/// A length in points as the library counts it.
fn pt(v: f64) -> i64 {
    (v * 1000.0).round() as i64
}

fn rect(x: f64, y: f64, w: f64, h: f64) -> Rect {
    Rect::new(pt(x), pt(y), pt(w), pt(h))
}

const SETTINGS_CONTROL_TRAILING_INSET: f64 = 24.0;

#[test]
fn layout_keeps_controls_aligned_to_the_trailing_inset() {
    let layout = SettingsLayout::new(pt(600.0), pt(SETTINGS_CONTROL_TRAILING_INSET));
    assert_eq!(
        layout.control_x + layout.control_w,
        pt(600.0 - SETTINGS_CONTROL_TRAILING_INSET)
    );
    assert_eq!(layout.row_h, pt(34.0));
    assert_eq!(layout.described_row_h, pt(54.0));
    assert_eq!(CONTROL_H, pt(34.0));
    assert_eq!(SINGLE_LINE_ROW_H, pt(54.0));
    assert_eq!(layout.section_step, pt(48.0));
    assert_eq!(layout.row_gap, pt(8.0));
    assert_eq!(layout.card_bottom(pt(100.0)), pt(90.0));
    assert_eq!(layout.card_top(pt(100.0)), pt(96.0));
    assert_eq!(layout.card_padding, pt(4.0));
    assert_eq!(
        layout.next_row_cursor_with_extra(pt(100.0), pt(54.0), pt(18.0)),
        pt(20.0)
    );
}

#[test]
fn sidebar_frames_share_the_same_vertical_center() {
    let (icon, label) = sidebar_item_frames(pt(240.0));
    let icon_center = 2 * icon.y + icon.h;
    let label_center = 2 * label.y + label.h;
    assert_eq!(icon_center, label_center);
    assert_eq!(icon.x, pt(16.0));
    assert_eq!(label.x, pt(46.0));
}

#[test]
fn settings_select_centers_single_line_and_wraps_only_when_needed() {
    let finite = |v: f64| Measure::Finite(pt(v));
    assert!(!settings_select_needs_wrap(finite(98.0), pt(152.0), false));
    assert!(settings_select_needs_wrap(finite(175.0), pt(152.0), false));
    assert!(settings_select_needs_wrap(finite(40.0), pt(152.0), true));
    assert_eq!(
        settings_select_centered_text_geometry(pt(34.0), finite(16.0)),
        (pt(9.0), pt(16.0))
    );
    assert_eq!(
        settings_select_centered_text_geometry(pt(34.0), finite(32.0)),
        (pt(1.0), pt(32.0))
    );
}

#[test]
fn settings_select_panel_is_bounded_by_the_screen_not_the_host_window() {
    let screen = rect(0.0, 0.0, 1512.0, 944.0);
    let trigger = rect(600.0, 300.0, 290.0, 26.0);
    let panel = settings_select_panel_geometry(trigger, screen, 8, pt(32.0));

    assert!(!panel.scrolls, "264pt fits on a 944pt screen");
    assert_eq!(panel.panel_h, panel.natural_h);
    let frame = Rect::new(trigger.x, panel.panel_y, pt(290.0), panel.panel_h);
    assert!(
        rect_inside(screen, frame, -pt(0.001)),
        "the panel must stay inside the screen: {panel:?}"
    );
}

#[test]
fn settings_select_panel_still_scrolls_when_the_screen_cannot_fit_it() {
    let screen = rect(0.0, 0.0, 400.0, 300.0);
    let trigger = rect(40.0, 140.0, 290.0, 26.0);
    let panel = settings_select_panel_geometry(trigger, screen, 8, pt(32.0));

    assert!(panel.scrolls);
    assert!(panel.panel_h < panel.natural_h);
    assert!(panel.panel_h >= pt(40.0), "at least one row stays visible");
    let frame = Rect::new(trigger.x, panel.panel_y, pt(290.0), panel.panel_h);
    assert!(
        rect_inside(screen, frame, -pt(0.001)),
        "the whole panel must stay inside the screen: {panel:?}"
    );
}

#[test]
fn settings_select_panel_keeps_full_height_when_it_fits() {
    let host = rect(0.0, 0.0, 660.0, 760.0);
    let trigger = rect(420.0, 300.0, 200.0, 30.0);
    let panel = settings_select_panel_geometry(trigger, host, 8, pt(32.0));

    assert!(!panel.scrolls);
    assert_eq!(panel.panel_h, pt(8.0 * 32.0 + 8.0));
    assert_eq!(panel.panel_y, pt(300.0) - pt(8.0) - panel.panel_h);
}

#[test]
fn label_width_follows_control_leading_edge() {
    assert_eq!(
        derived_label_width(pt(319.0), pt(12.0), pt(18.0)),
        pt(289.0)
    );
    assert_eq!(derived_label_width(pt(20.0), pt(12.0), pt(18.0)), pt(1.0));
}

#[test]
fn document_height_tracks_content_without_dropping_below_viewport() {
    assert_eq!(
        required_document_height(pt(840.0), pt(600.0), pt(24.0), pt(24.0)),
        pt(864.0)
    );
    assert_eq!(
        required_document_height(pt(420.0), pt(600.0), pt(24.0), pt(24.0)),
        pt(600.0)
    );
    assert_eq!(
        required_document_height(pt(0.0), pt(0.0), pt(24.0), pt(24.0)),
        pt(49.0)
    );
}

#[test]
fn stable_document_height_never_shrinks_after_children_are_laid_out() {
    assert_eq!(
        stable_document_height(pt(1_120.0), pt(840.0)),
        pt(1_120.0)
    );
    assert_eq!(stable_document_height(pt(700.0), pt(840.0)), pt(840.0));
    assert_eq!(stable_document_height(pt(0.0), pt(0.0)), pt(1.0));
}

#[test]
fn layout_rect_predicates_catch_crossing_rows_and_escape() {
    let page = rect(0.0, 0.0, 400.0, 300.0);
    let first = rect(20.0, 100.0, 160.0, 34.0);
    let second = rect(20.0, 130.0, 160.0, 34.0);
    let outside = rect(20.0, 280.0, 160.0, 34.0);
    assert!(rects_overlap(first, second, pt(0.5)));
    assert!(!rects_overlap(first, outside, pt(0.5)));
    assert!(rect_inside(page, first, pt(0.0)));
    assert!(!rect_inside(page, outside, pt(0.0)));
}

#[test]
fn edges_count_as_inside() {
    let r = rect(10.0, 20.0, 30.0, 40.0);
    assert!(rect_contains_point(r, Point { x: pt(10.0), y: pt(60.0) }));
    assert!(rect_contains_point(r, Point { x: pt(40.0), y: pt(20.0) }));
    assert!(!rect_contains_point(r, Point { x: pt(40.001), y: pt(20.0) }));
    assert!(!rect_contains_point(r, Point { x: pt(9.999), y: pt(20.0) }));
}

#[test]
fn a_section_has_its_heading_above_its_card() {
    let s = SettingsSection::attach(rect(6.0, 100.0, 588.0, 80.0));
    assert_eq!(s.header, rect(6.0, 184.0, 588.0, 20.0));
    assert_eq!(s.card, rect(6.0, 106.0, 588.0, 74.0));
}

#[test]
fn a_card_without_area_has_no_shadow() {
    assert_eq!(add_settings_card(rect(6.0, 10.0, 0.0, 20.0)), None);
    assert_eq!(
        add_settings_card(rect(6.0, 10.0, 100.0, 20.0)),
        Some(rect(-30.0, -26.0, 172.0, 92.0))
    );
}

#[test]
fn row_parts_share_the_center_of_their_row() {
    let control = ControlFacts {
        frame: rect(376.0, 0.0, 200.0, 34.0),
        is_text_field: false,
        is_editable: false,
        measured: Measure::Absent,
    };
    let frames = place_row(
        RowKind::Plain,
        pt(12.0),
        pt(300.0),
        pt(220.0),
        pt(54.0),
        Measure::Finite(pt(18.0)),
        control,
    );
    assert_eq!(frames.control, rect(376.0, 310.0, 200.0, 34.0));
    assert_eq!(frames.label, rect(12.0, 318.0, 346.0, 18.0));
}

#[test]
fn a_readonly_text_takes_its_own_height_in_a_plain_row() {
    let control = ControlFacts {
        frame: rect(157.0, 0.0, 120.0, 34.0),
        is_text_field: true,
        is_editable: false,
        measured: Measure::Finite(pt(16.0)),
    };
    let frames = place_row(
        RowKind::Plain,
        pt(12.0),
        pt(0.0),
        pt(220.0),
        pt(54.0),
        Measure::Absent,
        control,
    );
    assert_eq!(frames.control, rect(157.0, 19.0, 120.0, 16.0));
    assert_eq!(frames.label.h, pt(46.0));
}

#[test]
fn input_text_is_centered_with_a_small_lift() {
    assert_eq!(
        centered_text_field_cell_frame(rect(0.0, 0.0, 200.0, 34.0)),
        rect(8.0, 8.0, 184.0, 22.0)
    );
    assert_eq!(
        centered_text_field_cell_frame(rect(0.0, 0.0, 6.0, 20.0)),
        rect(6.0, 0.0, 1.0, 20.0)
    );
}

#[test]
fn a_page_title_grows_downwards() {
    let (frame, h) = add_page_title(pt(6.0), pt(500.0), pt(588.0), Measure::Finite(pt(51.2)));
    assert_eq!(h, pt(52.0));
    assert_eq!(frame, rect(6.0, 458.0, 588.0, 52.0));
    assert_eq!(
        add_page_title(pt(6.0), pt(500.0), pt(588.0), Measure::Absent).1,
        pt(44.0)
    );
}

#[test]
fn an_open_select_tiles_its_panel_with_rows() {
    let open = settings_select_open_layout(
        rect(600.0, 300.0, 290.0, 26.0),
        Some(rect(0.0, 0.0, 1512.0, 944.0)),
        3,
        pt(32.0),
    );
    assert_eq!(open.rows.len(), 3);
    assert_eq!(open.rows[0].y - open.rows[1].y, pt(32.0));
    assert_eq!(open.rows[1].y - open.rows[2].y, pt(32.0));
    assert_eq!(open.panel.h, pt(3.0 * 32.0 + 8.0));
}

#[test]
fn option_text_ends_before_the_check_mark() {
    let row = settings_select_make_item(
        pt(290.0),
        pt(32.0),
        false,
        Measure::Finite(pt(16.0)),
        0,
    );
    assert!(row.label.x + row.label.w <= row.check.x);
}

#[test]
fn fitting_a_document_twice_changes_nothing() {
    let children = vec![rect(0.0, 40.0, 100.0, 700.0), rect(0.0, 300.0, 100.0, 500.0)];
    let (height, changed) =
        fit_settings_document_height(Some(pt(600.0)), &children, pt(600.0), pt(24.0), pt(24.0));
    assert!(changed);
    assert_eq!(
        fit_settings_document_height(Some(height), &children, pt(600.0), pt(24.0), pt(24.0)),
        (height, false)
    );
}

#[test]
fn a_page_without_document_is_left_alone() {
    let fit = fit_page_document_height(None, &Vec::new(), pt(600.0), pt(24.0));
    assert!(!fit.changed);
    assert!(fit.moved.is_empty());
}

#[test]
fn a_short_page_gets_the_height_of_its_window() {
    let children = vec![PageChild {
        view: 1,
        frame: rect(0.0, 900.0, 100.0, 50.0),
        top_anchored: false,
    }];
    let fit = fit_page_document_height(Some(pt(1_000.0)), &children, pt(600.0), pt(24.0));
    assert_eq!(fit.height, pt(600.0));
    assert!(fit.changed);
    assert_eq!(fit.moved[0].frame, rect(0.0, 500.0, 100.0, 50.0));
}

#[test]
fn a_page_is_never_lower_than_its_window() {
    let fit = fit_page_document_height(Some(pt(500.0)), &Vec::new(), pt(600.0), pt(24.0));
    assert_eq!(fit.height, pt(600.0));
    assert!(fit.changed);
    assert!(fit.moved.is_empty());
    let children = vec![PageChild {
        view: 1,
        frame: rect(0.0, 24.3, 100.0, 50.0),
        top_anchored: false,
    }];
    let fit = fit_page_document_height(Some(pt(500.0)), &children, pt(600.0), pt(24.0));
    assert_eq!(fit.height, pt(600.0));
    assert!(fit.changed);
    assert_eq!(fit.moved[0].frame, rect(0.0, 124.3, 100.0, 50.0));
    let again = fit_page_document_height(Some(fit.height), &fit.moved, pt(600.0), pt(24.0));
    assert_eq!(again.height, pt(600.0));
    assert_eq!(again.moved[0].frame, fit.moved[0].frame);
    let fit = fit_page_document_height(Some(pt(700.0)), &children, pt(600.0), pt(24.0));
    assert_eq!(fit.height, pt(700.0));
    assert!(!fit.changed);
    assert!(fit.moved.is_empty());
}

#[test]
fn a_page_closes_up_where_rows_are_hidden() {
    let neighbour = |view: usize, frame: Rect, surface: bool| Neighbour {
        view,
        frame,
        surface,
    };
    let before = vec![
        neighbour(1, rect(0.0, 300.0, 100.0, 34.0), false),
        neighbour(2, rect(0.0, 190.0, 100.0, 160.0), true),
        neighbour(3, rect(0.0, 100.0, 100.0, 34.0), false),
        neighbour(4, rect(0.0, 80.0, 100.0, 70.0), true),
    ];
    let hidden = set_rows_visible(&before, pt(290.0), pt(44.0), false);
    assert_eq!(hidden[0], before[0]);
    assert_eq!(hidden[1].frame, rect(0.0, 234.0, 100.0, 116.0));
    assert_eq!(hidden[2].frame, rect(0.0, 144.0, 100.0, 34.0));
    assert_eq!(hidden[3].frame, rect(0.0, 124.0, 100.0, 70.0));
    assert_eq!(set_rows_visible(&hidden, pt(290.0), pt(44.0), true), before);
}

#[test]
fn scrolling_to_the_top_shows_the_upper_edge() {
    assert_eq!(scroll_page_to_top(pt(900.0), pt(600.0)), pt(300.0));
    assert_eq!(scroll_page_to_top(pt(500.0), pt(600.0)), pt(0.0));
}

fn entry(index: usize, frame: Rect) -> LayoutEntry {
    LayoutEntry {
        index,
        frame,
        interactive: true,
        text_height: None,
    }
}

#[test]
fn overlapping_and_escaping_views_are_reported() {
    let document = Size {
        w: pt(400.0),
        h: pt(300.0),
    };
    let clean = vec![
        entry(0, rect(20.0, 100.0, 160.0, 30.0)),
        entry(1, rect(20.0, 140.0, 160.0, 30.0)),
    ];
    assert!(debug_validate_settings_page(document, &clean).is_empty());
    let crossing = vec![
        entry(0, rect(20.0, 100.0, 160.0, 34.0)),
        entry(1, rect(20.0, 130.0, 160.0, 34.0)),
    ];
    assert!(matches!(
        debug_validate_settings_page(document, &crossing)[0],
        LayoutFault::Overlap { .. }
    ));
    let escaping = vec![entry(0, rect(20.0, 280.0, 160.0, 34.0))];
    assert!(matches!(
        debug_validate_settings_page(document, &escaping)[0],
        LayoutFault::Escapes { .. }
    ));
    let cut_off = vec![LayoutEntry {
        index: 0,
        frame: rect(20.0, 100.0, 160.0, 14.0),
        interactive: false,
        text_height: Some(pt(20.0)),
    }];
    assert!(matches!(
        debug_validate_settings_page(document, &cut_off)[0],
        LayoutFault::TextTooHigh { .. }
    ));
}

#[test]
fn hidden_views_are_not_collected() {
    let node = |hidden: bool| ViewNode {
        hidden,
        frame: rect(10.0, 10.0, 50.0, 20.0),
        interactive: true,
        is_text: false,
        text_height: None,
        children: Vec::new(),
    };
    let mut entries = Vec::new();
    collect_debug_layout(
        &vec![node(true), node(false)],
        Point { x: pt(100.0), y: 0 },
        &mut entries,
        false,
    );
    assert_eq!(entries.len(), 1);
    assert_eq!(entries[0].frame, rect(110.0, 10.0, 50.0, 20.0));
}

#[test]
fn sidebar_rows_are_in_order_and_disjoint() {
    let plan = build_settings_sidebar(
        SettingsSidebarGeometry {
            content_h: pt(700.0),
            view_w: pt(240.0),
            card_margin: pt(8.0),
            card_w: pt(224.0),
        },
        pt(38.0),
        true,
        false,
    );
    assert_eq!(plan.rows.len(), 7);
    for pair in plan.rows.windows(2) {
        assert!(pair[1].frame.y + pair[1].frame.h <= pair[0].frame.y);
    }
    assert!(plan.update_mark);
}
