use oh_my_tab_settings::document::{make_settings_page, refit_settings_page};
use oh_my_tab_settings::geometry::{Measure, Point, Rect, Size};
use oh_my_tab_settings::layout::{
    add_row_separator, card_shadow_layers, center_control, center_label,
    center_readonly_text_control, settings_card_shadow_rect, settings_pane_highlight_draw_rect,
    ControlFacts,
};
use oh_my_tab_settings::palette::{style_html_button, SettingsButtonRole, UiPalette};
use oh_my_tab_settings::select::{
    settings_select_apply_visual, settings_select_item_views, PanelChild, SelectEffect,
    SelectRegistry,
};
use oh_my_tab_settings::select_layout::{
    option_label_width, select_arrow, settings_select_required_control_height,
    settings_select_required_option_row_height, settings_select_set_title, TitleMeasure,
};
use oh_my_tab_settings::sidebar::{
    center_sidebar_label, hover_pill_color, set_sidebar_hovered, set_sidebar_title,
    set_sidebar_update_indicator, settings_sidebar_required_row_height,
    sidebar_button_under_pointer, sidebar_tracking_rect, HoverEffect, SettingsSidebar,
    SidebarCandidate, SidebarHover, UpdateMark,
};
use oh_my_tab_settings::text::{
    decimal_text, eq_ignore_ascii_case, hexadecimal_text, parse_u32, signed_text,
};
use oh_my_tab_settings::tooltip::{
    bubble_entry, bubble_exit, BubbleEntry, BubbleExit, SettingsTooltip, TooltipEffect,
};
use oh_my_tab_settings::widgets::{
    center_settings_button_label, configure_settings_button_wrapping, external_link_mouse_down,
    html_switch_apply_visual, html_switch_set_state, ExternalLink,
};

fn palette(dark: bool) -> UiPalette {
    UiPalette {
        dark,
        window_bg: 0x01,
        sidebar_bg: 0x02,
        detail_bg: 0x03,
        card_bg: 0x04,
        card_border: 0x05,
        field_bg: 0x06,
        separator: 0x07,
        shadow: 0x08,
        selection_bg: 0x09,
        hover_bg: 0x0A,
        button_bg: 0x0B,
        footer_button_bg: 0x0C,
        button_text: 0x0D,
        accent: 0x0A84FFFF,
        accent_hover: 0x0E,
        destructive: 0x0F,
        destructive_hover: 0x10,
        primary_text: 0x11,
        secondary_text: 0x12,
        sidebar_text: 0x13,
        muted_text: 0x14,
        disabled_text: 0x15,
    }
}

fn items(n: usize) -> Vec<String> {
    (0..n).map(|i| i.to_string()).collect()
}

/// A registry with two selects, the first of them open.
fn with_open_select() -> SelectRegistry {
    let mut r = SelectRegistry::new();
    r.make_popup(1, items(3), 0);
    r.make_popup(2, items(2), 1);
    let (_, row) = r.settings_select_open(1, true);
    assert_eq!(row, Some(0));
    let effects = r.settings_select_opened(1, 10, 11);
    assert_eq!(
        effects,
        vec![
            SelectEffect::ApplyVisual {
                select: 1,
                open: true
            },
            SelectEffect::InstallMonitor,
        ]
    );
    r.install_select_monitor(99);
    r
}

#[test]
fn closing_a_select_runs_to_the_end_of_its_fade() {
    let mut r = with_open_select();
    assert_eq!(
        r.settings_select_close(1),
        vec![
            SelectEffect::CancelReveals { panel: 10 },
            SelectEffect::FadeOutPanel { panel: 10 },
            SelectEffect::ScheduleFinishClose {
                select: 1,
                panel: 10
            },
            SelectEffect::ApplyVisual {
                select: 1,
                open: false
            },
        ]
    );
    assert_eq!(r.settings_select_finish_close(1, 77), vec![]);
    assert_eq!(
        r.settings_select_finish_close(1, 10),
        vec![
            SelectEffect::DropItemLabels { panel: 10 },
            SelectEffect::RemovePanel { panel: 10 },
            SelectEffect::ClosePopup { popup: 11 },
            SelectEffect::RemoveMonitor { monitor: 99 },
        ]
    );
    assert!(r.active.is_none());
}

#[test]
fn a_select_whose_window_is_gone_opens_again() {
    let mut r = with_open_select();
    let effects = r.settings_select_mouse_down(1, true, false);
    assert_eq!(
        effects,
        vec![
            SelectEffect::ClosePopup { popup: 11 },
            SelectEffect::ApplyVisual {
                select: 1,
                open: false
            },
            SelectEffect::Open { select: 1 },
        ]
    );
    assert!(!r.settings_select_is_open(1));
    assert_eq!(r.settings_select_mouse_down(1, false, false), vec![]);
}

#[test]
fn keys_open_and_close_a_select() {
    let mut r = with_open_select();
    assert_eq!(r.settings_select_key_down(1, 125), vec![]);
    assert_eq!(
        r.settings_select_key_down(2, 126),
        vec![SelectEffect::Open { select: 2 }]
    );
    assert_eq!(
        r.settings_select_key_down(1, 12),
        vec![SelectEffect::InterpretKey]
    );
    assert_eq!(r.settings_select_key_down(1, 53).len(), 4);
    assert!(!r.settings_select_is_open(1));
    assert_eq!(
        r.settings_select_key_down(1, 36),
        vec![SelectEffect::Open { select: 1 }]
    );
}

#[test]
fn rows_of_a_scrolling_panel_are_found() {
    let children = vec![
        PanelChild::Row(4),
        PanelChild::Scroll(Some(vec![5, 0, 6])),
        PanelChild::Scroll(None),
        PanelChild::Row(0),
    ];
    let rows = settings_select_item_views(&children);
    assert_eq!(rows, vec![4, 5, 6]);
    let mut r = SelectRegistry::new();
    r.item_label_views.insert(5, 50);
    r.item_label_views.insert(7, 70);
    r.settings_select_remove_item_labels(&rows);
    assert!(!r.item_label_views.contains_key(&5));
    assert!(r.item_label_views.contains_key(&7));
}

#[test]
fn options_light_up_when_chosen_or_hovered() {
    let r = with_open_select();
    let p = palette(false);
    assert_eq!(
        r.settings_select_item_apply_background(1, 0, false, p),
        (0xF5F5F5FF, p.primary_text)
    );
    assert_eq!(
        r.settings_select_item_apply_background(1, 1, false, p),
        (0, p.muted_text)
    );
    assert_eq!(
        r.settings_select_item_apply_background(1, 1, true, palette(true)),
        (0x1C1C1CFF, p.primary_text)
    );
    let look = settings_select_apply_visual(p, false, true, true);
    assert!(look.arrow_turned && look.animate_arrow && !look.arrow_turned_before);
    assert_eq!(look.tint, p.muted_text);
    assert_eq!(look.background, 0xFCFCFCFF);
}

#[test]
fn titles_and_arrows_share_a_trigger() {
    let one_line = TitleMeasure {
        natural_width: Measure::Finite(98_000),
        natural_height: Measure::Finite(16_000),
        wrapped_height: Measure::Finite(32_000),
        has_explicit_newline: false,
    };
    let bounds = Size {
        w: 200_000,
        h: 34_000,
    };
    let title = settings_select_set_title(bounds, one_line);
    assert!(title.single_line);
    assert_eq!(title.frame, Rect::new(12_000, 9_000, 152_000, 16_000));
    let long = TitleMeasure {
        natural_width: Measure::Finite(175_000),
        ..one_line
    };
    let title = settings_select_set_title(bounds, long);
    assert!(!title.single_line);
    assert_eq!(title.frame, Rect::new(12_000, 1_000, 152_000, 32_000));
    let (arrow, center) = select_arrow(Rect::new(0, 0, 200_000, 34_000));
    assert_eq!(arrow, Rect::new(172_000, 9_000, 16_000, 16_000));
    assert_eq!((center.x, center.y), (180_000, 17_000));
    assert!(title.frame.x + title.frame.w <= arrow.x);
}

#[test]
fn option_rows_are_as_high_as_the_tallest_title() {
    let heights = vec![
        Measure::Finite(16_500),
        Measure::Absent,
        Measure::Unbounded,
        Measure::Finite(-5_000),
    ];
    assert_eq!(
        settings_select_required_control_height(&heights, 10_000),
        17_000
    );
    assert_eq!(settings_select_required_option_row_height(&heights), 32_000);
    let tall = vec![Measure::Finite(30_200)];
    assert_eq!(settings_select_required_option_row_height(&tall), 39_000);
    assert_eq!(option_label_width(200_000, true), 134_000);
    assert_eq!(option_label_width(200_000, false), 154_000);
}

#[test]
fn the_sidebar_is_tracked_down_to_its_last_row() {
    let area = sidebar_tracking_rect(14_000, 500_000, 200_000, 38_000);
    assert_eq!(area, Rect::new(14_000, 248_000, 200_000, 290_000));
    let rows = SettingsSidebar::build(14_000, 500_000, 200_000, 38_000);
    for row in &rows {
        assert!(area.y <= row.frame.y);
        assert!(row.frame.y + row.frame.h <= area.y + area.h);
    }
    assert_eq!(rows[6].frame.y, area.y);
}

#[test]
fn sidebar_rows_grow_with_their_titles() {
    assert_eq!(settings_sidebar_required_row_height(&vec![]), 38_000);
    let heights = vec![Measure::Finite(17_000), Measure::Finite(34_200)];
    assert_eq!(settings_sidebar_required_row_height(&heights), 43_000);
    let label = Rect::new(46_000, 0, 100_000, 38_000);
    assert_eq!(
        center_sidebar_label(label, Measure::Finite(18_000), 38_000),
        Rect::new(46_000, 10_000, 100_000, 18_000)
    );
    assert_eq!(center_sidebar_label(label, Measure::Absent, 38_000), label);
}

#[test]
fn sidebar_rows_are_tinted() {
    let p = palette(false);
    assert_eq!(set_sidebar_title(p, true), (p.accent, true));
    assert_eq!(set_sidebar_title(p, false), (p.sidebar_text, false));
    let hover = SidebarHover {
        selected: 2,
        hovered: 0,
        visible: false,
        primed: false,
        highlight: 9,
    };
    assert_eq!(set_sidebar_hovered(p, &hover, 5, 2, true), None);
    assert_eq!(
        set_sidebar_hovered(p, &hover, 5, 1, true),
        Some(p.primary_text)
    );
    assert_eq!(
        set_sidebar_hovered(p, &hover, 5, 1, false),
        Some(p.sidebar_text)
    );
    assert_eq!(hover_pill_color(p), 0x0000000B);
    assert_eq!(hover_pill_color(palette(true)), 0xFFFFFF22);
}

#[test]
fn the_update_mark_is_made_once() {
    let row = Size {
        w: 200_000,
        h: 38_000,
    };
    let icon = Some(Size {
        w: 18_000,
        h: 18_000,
    });
    assert_eq!(
        set_sidebar_update_indicator(0, true, false, icon, row),
        UpdateMark::Nothing
    );
    assert_eq!(
        set_sidebar_update_indicator(1, false, false, icon, row),
        UpdateMark::Nothing
    );
    assert_eq!(
        set_sidebar_update_indicator(1, true, false, icon, row),
        UpdateMark::Create(Rect::new(13_800, 13_800, 6_000, 6_000))
    );
    assert_eq!(
        set_sidebar_update_indicator(1, true, false, None, row),
        UpdateMark::Create(Rect::new(188_000, 26_000, 6_000, 6_000))
    );
    assert_eq!(
        set_sidebar_update_indicator(1, false, true, icon, row),
        UpdateMark::SetHidden(true)
    );
}

#[test]
fn the_pointer_finds_the_first_visible_row() {
    let bounds = Rect::new(0, 0, 100_000, 38_000);
    let inside = Point {
        x: 50_000,
        y: 10_000,
    };
    let outside = Point {
        x: 50_000,
        y: 60_000,
    };
    let row = |button: usize, visible: bool, pointer: Point| SidebarCandidate {
        button,
        visible,
        pointer,
        bounds,
    };
    let rows = vec![
        row(1, false, inside),
        row(2, true, outside),
        row(3, true, inside),
    ];
    assert_eq!(sidebar_button_under_pointer(&rows), Some(3));
    assert_eq!(sidebar_button_under_pointer(&vec![row(2, true, outside)]), None);
}

#[test]
fn the_highlight_follows_the_pointer() {
    let frame = Rect::new(0, 0, 100_000, 38_000);
    let mut hover = SidebarHover {
        selected: 0,
        hovered: 0,
        visible: false,
        primed: false,
        highlight: 0,
    };
    hover.make_sidebar_hover_highlight(9);
    assert_eq!(
        hover.sidebar_button_mouse_entered(Some((4, 1, frame))),
        vec![
            HoverEffect::Place { frame },
            HoverEffect::FadeIn,
            HoverEffect::Tint {
                button: 4,
                hovered: true
            },
        ]
    );
    assert_eq!(
        hover.sidebar_button_mouse_exited(4, 1),
        Some(HoverEffect::Tint {
            button: 4,
            hovered: false
        })
    );
    assert_eq!(hover.hovered, 0);
    assert_eq!(
        hover.sidebar_hover_tracker_mouse_entered(Some((5, 2, frame)))[0],
        HoverEffect::Spring {
            frame,
            stiffness: 500,
            damping: 30
        }
    );
    assert_eq!(
        hover.sidebar_hover_tracker_mouse_exited(),
        vec![HoverEffect::FadeOut]
    );
    assert_eq!(
        hover.prime_sidebar_hover_after_selection(5, frame),
        Some(HoverEffect::Prime { frame })
    );
    assert!(hover.primed && hover.visible);
    assert_eq!(
        hover.sidebar_button_mouse_entered(Some((4, 1, frame)))[1],
        HoverEffect::FadeIn
    );
    assert!(!hover.primed);
    assert_eq!(hover.clear_sidebar_hover(), Some(HoverEffect::HideNow));
    assert!(!hover.visible);
}

#[test]
fn bubbles_rise_to_their_place() {
    assert_eq!(
        bubble_entry(true, false),
        Some(BubbleEntry {
            duration_ms: 400,
            rise: 22_000,
            scale: 96,
            from_opacity: 0,
            to_opacity: 100
        })
    );
    assert_eq!(bubble_entry(true, true), None);
    assert_eq!(bubble_entry(false, false), None);
}

#[test]
fn bubbles_leave_to_the_side() {
    assert_eq!(
        bubble_exit(true, false),
        Some(BubbleExit {
            fade_ms: 140,
            offset: 32_000,
            scale: 96,
            move_ms: 180
        })
    );
    assert_eq!(bubble_exit(true, true), None);
    assert_eq!(bubble_exit(false, false), None);
}

#[test]
fn a_forgotten_view_leaves_nothing_behind() {
    let mut hints = SettingsTooltip::new();
    assert_eq!(
        hints.apply(3, false, Some("off")),
        vec![TooltipEffect::AddTracking { view: 3 }]
    );
    hints.tracking_added(3, 30);
    hints.bubble_shown(8, 9);
    hints.forget(3);
    assert!(hints.areas.is_empty());
    assert!(hints.hint_of(3).is_none());
    assert_eq!(
        hints.hide_bubble(),
        vec![
            TooltipEffect::InvalidateTimer { timer: 9 },
            TooltipEffect::DismissBubble { bubble: 8 },
        ]
    );
    assert_eq!(hints.hide_bubble(), vec![]);
}

#[test]
fn switches_glide_between_their_ends() {
    let p = palette(false);
    let on = html_switch_apply_visual(p, 1, true, Some(0));
    assert_eq!(on.track, p.accent);
    assert_eq!(on.glide_from, Some(11_000));
    assert_eq!(on.glide_to, 27_000);
    let off = html_switch_apply_visual(palette(true), 0, false, None);
    assert_eq!(off.track, 0x63636673);
    assert_eq!(off.glide_from, None);
    assert_eq!(html_switch_set_state(0, 1), Some(0));
    assert_eq!(html_switch_set_state(1, 1), None);
}

#[test]
fn wrapped_buttons_are_high_enough() {
    let line = Measure::Finite(17_000);
    assert_eq!(
        configure_settings_button_wrapping(1, 2, line, Measure::Finite(34_000)),
        42_000
    );
    assert_eq!(
        configure_settings_button_wrapping(1, 2, line, Measure::Finite(80_000)),
        42_000
    );
    assert_eq!(
        configure_settings_button_wrapping(1, 2, line, Measure::Absent),
        30_000
    );
    assert_eq!(
        configure_settings_button_wrapping(1, 0, line, Measure::Finite(80_000)),
        30_000
    );
    assert_eq!(
        configure_settings_button_wrapping(1, usize::MAX, line, Measure::Finite(80_000)),
        88_000
    );
    assert_eq!(
        configure_settings_button_wrapping(0, 2, line, Measure::Finite(80_000)),
        30_000
    );
    assert_eq!(
        center_settings_button_label(116_000, 42_000, Measure::Finite(34_000)),
        Rect::new(8_000, 4_000, 100_000, 34_000)
    );
}

#[test]
fn links_lead_to_their_pages() {
    assert_eq!(external_link_mouse_down(1), ExternalLink::Repository);
    assert_eq!(external_link_mouse_down(0), ExternalLink::Website);
}

#[test]
fn buttons_take_the_colours_of_the_theme() {
    let light = palette(false);
    assert_eq!(
        style_html_button(light, SettingsButtonRole::Action),
        (0xFFFFFFAD, light.card_border, 0x2E2E2EFF)
    );
    let dark = palette(true);
    assert_eq!(
        style_html_button(dark, SettingsButtonRole::Destructive),
        (dark.destructive, dark.card_border, dark.button_text)
    );
}

#[test]
fn cards_have_room_for_their_shadow() {
    assert_eq!(
        settings_card_shadow_rect(Rect::new(0, 0, 472_000, 172_000)),
        Rect::new(36_000, 36_000, 400_000, 100_000)
    );
    assert_eq!(
        settings_card_shadow_rect(Rect::new(0, 0, 10_000, 10_000)),
        Rect::new(36_000, 36_000, 1_000, 1_000)
    );
    let (ambient, theme) = card_shadow_layers(0x0000000A);
    assert_eq!((ambient.drop, ambient.blur, ambient.color), (1_000, 2_000, 6));
    assert_eq!((theme.drop, theme.blur, theme.color), (8_000, 24_000, 10));
    assert_eq!(
        add_row_separator(0, 50_000, 400_000),
        Rect::new(6_000, 50_000, 388_000, 1_000)
    );
}

#[test]
fn parts_of_a_row_are_centred() {
    let frame = Rect::new(10_000, 0, 100_000, 22_000);
    assert_eq!(
        center_control(frame, 100_000, 54_000),
        Rect::new(10_000, 116_000, 100_000, 22_000)
    );
    assert_eq!(
        center_label(frame, Measure::Finite(18_000), 100_000, 54_000),
        Rect::new(10_000, 118_000, 100_000, 18_000)
    );
    let value = ControlFacts {
        frame,
        is_text_field: true,
        is_editable: false,
        measured: Measure::Finite(18_000),
    };
    assert_eq!(
        center_readonly_text_control(value, 100_000, 54_000),
        Rect::new(10_000, 118_000, 100_000, 18_000)
    );
    let input = ControlFacts {
        is_editable: true,
        ..value
    };
    assert_eq!(center_readonly_text_control(input, 100_000, 54_000), frame);
}

#[test]
fn pages_fill_their_window() {
    let frame = Rect::new(0, 0, 600_000, 752_000);
    let (size, top) = make_settings_page(frame, 728_000, 752_000);
    assert_eq!((size.w, size.h, top), (600_000, 752_000, 0));
    let (size, top) = make_settings_page(frame, 1_000_000, 752_000);
    assert_eq!((size.h, top), (1_000_000, 248_000));
    assert!(!refit_settings_page(700_000, 700_500));
    assert!(refit_settings_page(700_000, 700_501));
}

#[test]
fn numbers_are_written_and_read() {
    assert_eq!(decimal_text(0), "0");
    assert_eq!(decimal_text(4_294_967_295), "4294967295");
    assert_eq!(signed_text(-42), "-42");
    assert_eq!(signed_text(7), "7");
    assert_eq!(hexadecimal_text(255), "ff");
    assert_eq!(parse_u32("4294967295"), Some(4_294_967_295));
    assert_eq!(parse_u32("4294967296"), None);
    assert_eq!(parse_u32("+5"), Some(5));
    assert_eq!(parse_u32(""), None);
    assert_eq!(parse_u32("-1"), None);
    assert!(eq_ignore_ascii_case("Mission-Control", "mission-control"));
    assert!(!eq_ignore_ascii_case("back", "forward"));
}

#[test]
fn the_pane_is_lit_from_the_upper_right() {
    let pane = Size {
        w: 600_000,
        h: 752_000,
    };
    let light = settings_pane_highlight_draw_rect(pane, false).unwrap();
    assert_eq!((light.center.x, light.center.y), (492_000, 752_000));
    assert_eq!((light.opacity, light.reach), (96, 34));
    assert_eq!(
        settings_pane_highlight_draw_rect(pane, true).unwrap().opacity,
        5
    );
    let flat = Size { w: 600_000, h: 0 };
    assert!(settings_pane_highlight_draw_rect(flat, false).is_none());
}
