use oh_my_tab_settings::geometry::Rect;
use oh_my_tab_settings::palette::{
    html_action_button_mouse_entered, html_action_button_mouse_exited, settings_palette,
    settings_text_color, themed_settings_color, SettingsButtonRole, SettingsTextRole, UiPalette,
};
use oh_my_tab_settings::rows::{
    set_view_enabled_with_tooltip, SettingsRow, ViewAbilities,
};
use oh_my_tab_settings::sidebar::{HoverEffect, SettingsSidebarIcon, SidebarHover};
use oh_my_tab_settings::tooltip::{
    disabled_cursor_mouse_entered, handle_mouse_down, show_bubble_in_window, HintCandidate,
    HintClick, SettingsTooltip, TooltipEffect,
};
use oh_my_tab_settings::widgets::{
    html_switch_mouse_down, make_switch, settings_slider_display, slider_should_reset,
    HeaderClicks, SettingsSlider, SliderClick,
};

fn palette(dark: bool) -> UiPalette {
    UiPalette {
        dark,
        window_bg: 0x111111FF,
        sidebar_bg: 0x121212FF,
        detail_bg: 0x131313FF,
        card_bg: 0x141414FF,
        card_border: 0x151515FF,
        field_bg: 0x161616FF,
        separator: 0x171717FF,
        shadow: 0x181818FF,
        selection_bg: 0x191919FF,
        hover_bg: 0x1A1A1AFF,
        button_bg: 0x1B1B1BFF,
        footer_button_bg: 0x1C1C1CFF,
        button_text: 0x1D1D1DFF,
        accent: 0x0A84FFFF,
        accent_hover: 0x1E1E1EFF,
        destructive: 0x1F1F1FFF,
        destructive_hover: 0x202020FF,
        primary_text: 0x212121FF,
        secondary_text: 0x222222FF,
        sidebar_text: 0x232323FF,
        muted_text: 0x242424FF,
        disabled_text: 0x252525FF,
    }
}

#[test]
fn button_roles_keep_normal_and_hover_semantics_distinct() {
    assert_eq!(
        SettingsButtonRole::Action.style(),
        (0xFFFFFFAD, 0x2E2E2EFF, -3)
    );
    assert_eq!(
        SettingsButtonRole::Compact.style(),
        (0x7676801F, 0x44444AFF, 0)
    );
    assert_eq!(
        SettingsButtonRole::Footer.style(),
        (0xFFFFFFC7, 0x2E2E2EFF, -1)
    );
    assert_eq!(
        SettingsButtonRole::Primary.style(),
        (0x0A84FFFF, 0xFFFFFFFF, -2)
    );
    assert_eq!(
        SettingsButtonRole::Destructive.style(),
        (0xFF3B30FF, 0xFFFFFFFF, -4)
    );
}

#[test]
fn slider_double_click_reset_only_applies_to_double_clicks_with_a_default() {
    assert!(slider_should_reset(2, true));
    assert!(!slider_should_reset(1, true));
    assert!(!slider_should_reset(3, true));
    assert!(!slider_should_reset(2, false));
    assert!(!slider_should_reset(0, false));
}

#[test]
fn slider_double_click_smoke() {
    let mut slider = SettingsSlider {
        value: 700,
        default_value: Some(300),
    };
    assert!(matches!(
        slider.settings_slider_mouse_down(2),
        SliderClick::Restored
    ));
    assert_eq!(slider.value, 300, "double-click must restore the default");
    slider.value = 700;
    assert!(matches!(
        slider.settings_slider_mouse_down(1),
        SliderClick::PassOn
    ));
    assert_eq!(slider.value, 700, "a single click must not reset");
}

#[test]
fn the_settings_palette_is_that_of_the_application() {
    assert_eq!(settings_palette(palette(true)), palette(true));
}

#[test]
fn text_roles_pick_their_colors() {
    let p = palette(false);
    assert_eq!(settings_text_color(p, SettingsTextRole::Primary), 0x212121FF);
    assert_eq!(settings_text_color(p, SettingsTextRole::Muted), 0x242424FF);
    assert_eq!(settings_text_color(p, SettingsTextRole::Disabled), 0x252525FF);
}

#[test]
fn a_light_palette_leaves_fixed_colors_alone() {
    assert_eq!(themed_settings_color(palette(false), 0xFFFFFFAD), 0xFFFFFFAD);
}

#[test]
fn a_button_gets_its_background_back_after_hovering() {
    let p = palette(true);
    let tag = SettingsButtonRole::Primary.style().2;
    assert_ne!(
        html_action_button_mouse_entered(p, tag),
        html_action_button_mouse_exited(p, tag)
    );
    assert_eq!(html_action_button_mouse_exited(p, tag), p.accent);
}

#[test]
fn a_switch_ends_at_the_right_edge() {
    assert_eq!(
        make_switch(576_000, 310_000, 34_000),
        Rect::new(538_000, 316_000, 38_000, 22_000)
    );
}

#[test]
fn two_clicks_bring_a_switch_back() {
    let on = html_switch_mouse_down(0, true);
    assert_eq!(on, Some(1));
    assert_eq!(html_switch_mouse_down(1, true), Some(0));
    assert_eq!(html_switch_mouse_down(1, false), None);
}

#[test]
fn slider_values_are_shown_without_needless_decimals() {
    assert_eq!(settings_slider_display(300), "3");
    assert_eq!(settings_slider_display(125), "1.25");
}

#[test]
fn five_quick_clicks_reveal_the_build() {
    let mut clicks = HeaderClicks::new();
    for i in 0..4 {
        assert!(!clicks.on_about_header_click(i * 100, 1_000));
    }
    assert!(clicks.on_about_header_click(400, 1_000));
    let mut slow = HeaderClicks::new();
    for i in 0..5 {
        assert!(!slow.on_about_header_click(i * 5_000, 1_000));
    }
}

#[test]
fn page_symbols_differ() {
    let icons = [
        SettingsSidebarIcon::General,
        SettingsSidebarIcon::Switcher,
        SettingsSidebarIcon::Mouse,
        SettingsSidebarIcon::Clipboard,
        SettingsSidebarIcon::WindowControl,
        SettingsSidebarIcon::QuickActions,
        SettingsSidebarIcon::About,
    ];
    for (i, a) in icons.iter().enumerate() {
        for b in &icons[i + 1..] {
            assert_ne!(a.symbol_name(), b.symbol_name());
        }
    }
    assert_eq!(SettingsSidebarIcon::Clipboard.symbol_name(), "doc.text");
}

#[test]
fn a_control_has_one_label() {
    let mut rows = SettingsRow::new();
    rows.register_label(7, 3);
    rows.register_label(8, 3);
    rows.register_label(0, 4);
    assert_eq!(rows.label_of(3), Some(8));
    assert_eq!(rows.label_of(4), None);
    assert_eq!(rows.views_to_enable(3), vec![3, 8]);
    rows.clear_runtime_registry();
    assert_eq!(rows.label_of(3), None);
}

#[test]
fn plain_views_fade_when_they_are_disabled() {
    let plain = ViewAbilities {
        can_be_enabled: false,
        is_text_field: false,
        has_alpha: true,
    };
    let off = set_view_enabled_with_tooltip(5, plain, false).unwrap();
    assert_eq!(off.alpha, Some(450));
    assert!(off.show_hint);
    let text = ViewAbilities {
        can_be_enabled: true,
        is_text_field: true,
        has_alpha: true,
    };
    let on = set_view_enabled_with_tooltip(5, text, true).unwrap();
    assert_eq!(on.text_role, Some(SettingsTextRole::Primary));
    assert_eq!(on.alpha, None);
    assert!(set_view_enabled_with_tooltip(0, text, true).is_none());
}

#[test]
fn the_hover_pill_glides_from_row_to_row() {
    let mut hover = SidebarHover {
        selected: 1,
        hovered: 0,
        visible: false,
        primed: false,
        highlight: 0,
    };
    hover.make_sidebar_hover_highlight(50);
    let first = Rect::new(0, 100_000, 200_000, 38_000);
    let second = Rect::new(0, 58_000, 200_000, 38_000);
    hover.apply_sidebar_hover(22, 2, first, false);
    assert!(hover.sidebar_button_is_hovered(22));
    let effects = hover.apply_sidebar_hover(33, 3, second, false);
    assert!(effects
        .iter()
        .any(|e| matches!(e, HoverEffect::Spring { frame, .. } if *frame == second)));
    assert!(!hover.sidebar_button_is_hovered(22));
}

#[test]
fn a_bubble_keeps_to_its_window() {
    let plan = show_bubble_in_window(
        Rect::new(0, 0, 900_000, 600_000),
        120_000,
        false,
        palette(true),
    );
    assert_eq!(plan.frame, Rect::new(306_000, 74_000, 288_000, 66_000));
    assert_eq!(plan.icon_field, Rect::new(64_000, 19_000, 28_000, 28_000));
    assert_eq!(plan.label, Rect::new(104_000, 23_000, 120_000, 20_000));
    assert_eq!(plan.icon_tint, 0x0A84FFFF);
    assert_eq!(plan.icon_field_color, 0x0A84FF26);
    let cramped = show_bubble_in_window(
        Rect::new(0, 0, 100_000, 50_000),
        9_000_000,
        true,
        palette(false),
    );
    assert_eq!(cramped.frame.x, 8_000);
    assert_eq!(cramped.frame.y, 8_000);
    assert_eq!(cramped.label.w, 220_000);
    assert_eq!(cramped.icon_tint, 0x34C759FF);
    assert!(cramped.check_mark);
}

#[test]
fn a_hint_lasts_while_its_view_is_greyed_out() {
    let mut tooltip = SettingsTooltip::new();
    let effects = tooltip.apply(5, false, Some("off"));
    assert_eq!(effects, vec![TooltipEffect::AddTracking { view: 5 }]);
    tooltip.tracking_added(5, 55);
    assert_eq!(tooltip.hint_of(5).as_deref(), Some("off"));
    assert!(tooltip.apply(5, false, Some("still off")).is_empty());
    tooltip.bubble_shown(70, 71);
    let effects = tooltip.apply(5, true, Some("off"));
    assert_eq!(
        effects,
        vec![
            TooltipEffect::InvalidateTimer { timer: 71 },
            TooltipEffect::DismissBubble { bubble: 70 },
            TooltipEffect::RemoveTracking { view: 5, area: 55 },
        ]
    );
    assert_eq!(tooltip.hint_of(5), None);
    assert!(tooltip.apply(0, false, Some("nothing")).is_empty());
}

#[test]
fn only_the_current_timer_ends_the_bubble() {
    let mut tooltip = SettingsTooltip::new();
    tooltip.bubble_shown(70, 71);
    assert_eq!(tooltip.tooltip_timeout(72), None);
    assert_eq!(
        tooltip.tooltip_timeout(71),
        Some(TooltipEffect::DismissBubble { bubble: 70 })
    );
    assert_eq!(tooltip.tooltip_timeout(71), None);
}

#[test]
fn a_new_bubble_replaces_the_old_one() {
    let mut tooltip = SettingsTooltip::new();
    tooltip.bubble_shown(70, 71);
    let (effects, show) = tooltip.begin_bubble(true, "", true);
    assert!(effects.is_empty() && !show);
    let (effects, show) = tooltip.begin_bubble(true, "saved", true);
    assert_eq!(effects.len(), 2);
    assert!(show);
    let cleared = tooltip.clear_runtime_registries();
    assert!(cleared.is_empty());
}

#[test]
fn a_click_on_a_greyed_out_view_shows_its_hint() {
    let candidate = |view: usize, enabled: bool, hidden: bool| HintCandidate {
        view,
        in_window: true,
        hidden,
        enabled,
    };
    let candidates = vec![
        candidate(4, true, false),
        candidate(5, false, true),
        candidate(6, false, false),
    ];
    assert_eq!(
        handle_mouse_down(&candidates, &vec![9, 6, 4]),
        HintClick::Show { view: 6 }
    );
    assert_eq!(handle_mouse_down(&candidates, &vec![5]), HintClick::Hide);
    assert_eq!(handle_mouse_down(&candidates, &vec![]), HintClick::Hide);
}

#[test]
fn the_pointer_shows_that_a_view_is_greyed_out() {
    assert!(!disabled_cursor_mouse_entered(0, false, false));
    assert!(disabled_cursor_mouse_entered(1, true, false));
    assert!(!disabled_cursor_mouse_entered(1, true, true));
    assert!(disabled_cursor_mouse_entered(1, false, true));
}
