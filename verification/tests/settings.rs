use oh_my_tab_settings::button_map::ButtonMap;
use oh_my_tab_settings::config::{
    AppearanceConfig, ClipboardConfig, Config, DeviceMatcher, FontsConfig, I18nConfig,
    KeyboardConfig, LayoutConfig, LoggingConfig, MouseConfig, MouseProfile, PointerConfig,
    QuickActionsConfig, StartupConfig, UpdatesConfig, WindowControlConfig, WindowsConfig,
};
use oh_my_tab_settings::controls::{
    follow_ups, handle_clipboard_enabled_toggle, handle_device_changed,
    handle_enable_mouse_toggle, handle_quick_actions_enabled_toggle,
    handle_window_control_enabled_toggle, handle_windows_enabled_toggle, on_control_changed,
    refresh_service_controls_from_config,
    refresh_switcher_controls_from_config, update_clipboard_controls_enabled,
    update_conditional_rows, update_mouse_controls_enabled, update_quick_actions_controls_enabled,
    update_window_control_controls_enabled, update_windows_controls_enabled, CompanionViews,
    ConditionReadings,
};
use oh_my_tab_settings::dispatch::{
    apply_control_field, control_field_of, pointer_accel_display, pointer_accel_from_slider,
    ChoiceTables, ControlField, ControlReading, SettingsControls,
};
use oh_my_tab_settings::export::{
    handle_export_logs, suggested_export_log_name, ExportAlert, Timestamp,
};
use oh_my_tab_settings::glass_preview::{
    color_component_to_byte, configure_glass_tint_panel, glass_style_number,
    glass_tint_group_frames, make_color_well, make_glass_preview, on_glass_tint_reset,
    rgba_hex_from_components, update_glass_tint_from_color, GroupOrigin, GroupSpacing,
};
use oh_my_tab_settings::geometry::{Measure, Point, Rect};
use oh_my_tab_settings::numeric::{
    length_text, on_control_text_did_change, on_control_text_did_end_editing, EndEditing,
    TypedNumber,
};
use oh_my_tab_settings::profiles::{
    commit_mapping_edits, ensure_selected_device, mapping_edits_of, rebuild_device_popup,
    write_selected_profile, ConnectedDevice, ProfileEdit,
};
use oh_my_tab_settings::restore::{restore_all_defaults, restore_success_key, restore_tab_defaults};
use oh_my_tab_settings::shown::{control_value, option_index, Shown};

fn profile(device: DeviceMatcher) -> MouseProfile {
    MouseProfile {
        device,
        reverse_scroll: Some(false),
        scroll_mode: Some("default".to_string()),
        line_count: Some(3),
        pointer: None,
        button_mappings: ButtonMap::new(),
        button_mappings_enabled: Some(true),
    }
}

fn config() -> Config {
    Config {
        appearance: AppearanceConfig {
            theme: "auto".to_string(),
            glass_style: "regular".to_string(),
            glass_tint: "ffffff20".to_string(),
            corner_radius: 64_000,
        },
        i18n: I18nConfig {
            locale: "auto".to_string(),
        },
        logging: LoggingConfig {
            level: "info".to_string(),
        },
        startup: StartupConfig {
            launch_at_login: false,
        },
        windows: WindowsConfig {
            enabled: true,
            show_minimized: true,
            overlay_position: "active_window".to_string(),
            activation_mode: "hover".to_string(),
        },
        layout: LayoutConfig {
            thumbnails_enabled: true,
            focused_thumbnail_prewarm: false,
            show_app_name_in_cards: true,
            card_text_size: 15_000,
        },
        fonts: FontsConfig {
            status_bar_size: 15_000,
        },
        keyboard: KeyboardConfig {
            modifier: "command".to_string(),
        },
        mouse: MouseConfig {
            enabled: true,
            profiles: vec![profile(DeviceMatcher {
                vendor_id: None,
                product_id: None,
            })],
        },
        clipboard: ClipboardConfig {
            enabled: false,
            persist: false,
            show_source_app: true,
            move_used_to_top: true,
            delete_after_paste: false,
            clear_system_pasteboard_after_paste: false,
            max_entries: 50,
            auto_expire_days: 3,
            pin_follow_selection: true,
        },
        window_control: WindowControlConfig {
            enabled: false,
            up: true,
            down: true,
            left: true,
            right: true,
            display_up: true,
            display_down: true,
            display_left: true,
            display_right: true,
        },
        quick_actions: QuickActionsConfig {
            enabled: false,
            open_settings: true,
            open_finder: true,
            show_desktop: true,
            lock_screen: true,
            locate_pointer: true,
        },
        updates: UpdatesConfig {
            automatically_check: true,
            automatically_download: false,
        },
    }
}

/// Controls numbered by their place, from one.
fn controls() -> SettingsControls {
    SettingsControls {
        theme: 1,
        glass_style: 2,
        glass_tint: 3,
        locale: 4,
        log_level: 5,
        launch_at_login: 6,
        windows_enabled: 7,
        show_minimized: 8,
        thumbnails_enabled: 9,
        focused_thumbnail_prewarm: 10,
        show_app_name_in_cards: 11,
        card_text_size: 12,
        status_bar_text_size: 13,
        overlay_position: 14,
        activation_mode: 15,
        corner_radius: 16,
        modifier: 17,
        enable_mouse: 18,
        reverse_scroll: 19,
        scroll_mode: 20,
        line_count: 21,
        disable_pointer_accel: 22,
        pointer_accel_slider: 23,
        mapping_enabled: 24,
        clipboard_enabled: 25,
        clipboard_persist: 26,
        clipboard_show_source_app: 27,
        clipboard_move_used_to_top: 28,
        clipboard_delete_after_paste: 29,
        clipboard_clear_system_pasteboard_after_paste: 30,
        clipboard_max_entries: 31,
        clipboard_auto_expire_days: 32,
        clipboard_pin_follow: 33,
        window_control_enabled: 34,
        window_control_up: 35,
        window_control_down: 36,
        window_control_left: 37,
        window_control_right: 38,
        window_control_display_up: 39,
        window_control_display_down: 40,
        window_control_display_left: 41,
        window_control_display_right: 42,
        quick_actions_enabled: 43,
        quick_actions_open_settings: 44,
        quick_actions_open_finder: 45,
        quick_actions_show_desktop: 46,
        quick_actions_lock_screen: 47,
        quick_actions_locate_pointer: 48,
        update_auto_check: 49,
        update_auto_download: 50,
    }
}

fn views() -> CompanionViews {
    CompanionViews {
        line_count_value: 101,
        card_text_size_value: 102,
        status_bar_text_size_value: 103,
        clipboard_auto_expire_days_value: 104,
        pointer_accel_value: 105,
        device_indicator: 106,
    }
}

fn tables() -> ChoiceTables {
    ChoiceTables {
        locales: vec!["auto".to_string(), "en".to_string(), "zh-Hans".to_string()],
        scroll_modes: vec!["default".to_string(), "line".to_string()],
        fallback_speed: 100,
    }
}

fn reading(number: i64) -> ControlReading {
    ControlReading {
        number,
        color: None,
        line_count: 12,
        speed: Some(2_345_678),
    }
}

fn text_of(v: &Option<String>) -> Option<&str> {
    v.as_deref()
}

#[test]
fn every_control_is_recognised() {
    let ui = controls();
    assert_eq!(control_field_of(&ui, 1), Some(ControlField::Theme));
    assert_eq!(control_field_of(&ui, 23), Some(ControlField::PointerAcceleration));
    assert_eq!(control_field_of(&ui, 50), Some(ControlField::UpdateAutoDownload));
    assert_eq!(control_field_of(&ui, 51), None);
}

#[test]
fn choices_are_written_as_texts() {
    let mut cfg = config();
    apply_control_field(&mut cfg, None, ControlField::Theme, &reading(0), &tables());
    assert_eq!(cfg.appearance.theme, "dark");
    apply_control_field(&mut cfg, None, ControlField::Theme, &reading(7), &tables());
    assert_eq!(cfg.appearance.theme, "auto");
    apply_control_field(&mut cfg, None, ControlField::Locale, &reading(2), &tables());
    assert_eq!(cfg.i18n.locale, "zh-Hans");
    apply_control_field(&mut cfg, None, ControlField::Locale, &reading(-1), &tables());
    assert_eq!(cfg.i18n.locale, "auto");
    apply_control_field(&mut cfg, None, ControlField::Modifier, &reading(0), &tables());
    assert_eq!(cfg.keyboard.modifier, "option");
    let outcome =
        apply_control_field(&mut cfg, None, ControlField::GlassStyle, &reading(1), &tables());
    assert_eq!(cfg.appearance.glass_style, "clear");
    assert!(outcome.preview);
}

#[test]
fn controls_show_the_configuration() {
    let mut cfg = config();
    let locales = tables().locales;
    let shown = |cfg: &Config, field: ControlField| control_value(cfg, field, &locales);
    let choice = |index: usize| Some(Shown::Choice { index });
    assert_eq!(shown(&cfg, ControlField::Theme), choice(2));
    assert_eq!(shown(&cfg, ControlField::GlassStyle), choice(0));
    assert_eq!(shown(&cfg, ControlField::LogLevel), choice(1));
    assert_eq!(shown(&cfg, ControlField::ThumbnailsEnabled), choice(1));
    assert_eq!(shown(&cfg, ControlField::Modifier), choice(1));
    assert_eq!(shown(&cfg, ControlField::ClipboardPinFollow), choice(0));
    assert_eq!(
        shown(&cfg, ControlField::WindowControlUp),
        Some(Shown::Switch { on: true })
    );
    assert_eq!(
        shown(&cfg, ControlField::ClipboardPersist),
        Some(Shown::Switch { on: false })
    );
    assert_eq!(
        shown(&cfg, ControlField::ClipboardAutoExpireDays),
        Some(Shown::Value { number: 3 })
    );
    cfg.fonts.status_bar_size = 15_500;
    assert_eq!(
        shown(&cfg, ControlField::StatusBarTextSize),
        Some(Shown::Value { number: 16 })
    );
    cfg.fonts.status_bar_size = -1;
    assert_eq!(
        shown(&cfg, ControlField::StatusBarTextSize),
        Some(Shown::Value { number: 0 })
    );
    cfg.i18n.locale = "unknown".to_string();
    assert_eq!(shown(&cfg, ControlField::Locale), choice(0));
    assert_eq!(shown(&cfg, ControlField::GlassTint), None);
    assert_eq!(shown(&cfg, ControlField::CornerRadius), None);
    assert_eq!(shown(&cfg, ControlField::ReverseScroll), None);
}

#[test]
fn controls_show_what_was_set_on_them() {
    let mut cfg = config();
    let locales = tables().locales;
    for (field, number, expected) in [
        (ControlField::Theme, 1, Shown::Choice { index: 1 }),
        (ControlField::Locale, 2, Shown::Choice { index: 2 }),
        (ControlField::ActivationMode, 1, Shown::Choice { index: 1 }),
        (ControlField::ClipboardPinFollow, 1, Shown::Choice { index: 1 }),
        (ControlField::CardTextSize, 18, Shown::Value { number: 18 }),
        (ControlField::ClipboardAutoExpireDays, 7, Shown::Value { number: 7 }),
        (ControlField::QuickActionLockScreen, 0, Shown::Switch { on: false }),
        (ControlField::LaunchAtLogin, 1, Shown::Switch { on: true }),
    ] {
        apply_control_field(&mut cfg, None, field, &reading(number), &tables());
        assert_eq!(control_value(&cfg, field, &locales), Some(expected));
    }
    assert_eq!(option_index(&locales, "zh-Hans"), Some(2));
    assert_eq!(option_index(&locales, "nowhere"), None);
}

#[test]
fn sliders_stay_in_their_limits() {
    let mut cfg = config();
    let field = ControlField::ClipboardAutoExpireDays;
    apply_control_field(&mut cfg, None, field, &reading(99), &tables());
    assert_eq!(cfg.clipboard.auto_expire_days, 7);
    apply_control_field(&mut cfg, None, field, &reading(-2), &tables());
    assert_eq!(cfg.clipboard.auto_expire_days, 0);
    apply_control_field(&mut cfg, None, ControlField::CardTextSize, &reading(18), &tables());
    assert_eq!(cfg.layout.card_text_size, 18_000);
}

#[test]
fn a_color_that_cannot_be_read_changes_nothing() {
    let mut cfg = config();
    apply_control_field(&mut cfg, None, ControlField::GlassTint, &reading(0), &tables());
    assert_eq!(cfg.appearance.glass_tint, "ffffff20");
    let picked = ControlReading {
        color: Some("11223344".to_string()),
        ..reading(0)
    };
    apply_control_field(&mut cfg, None, ControlField::GlassTint, &picked, &tables());
    assert_eq!(cfg.appearance.glass_tint, "11223344");
}

#[test]
fn the_scroll_mode_takes_the_line_count_only_in_line_mode() {
    let mut cfg = config();
    let dev = Some((0x46d, 0xc52b));
    let field = ControlField::ScrollMode;
    apply_control_field(&mut cfg, dev, field, &reading(0), &tables());
    assert_eq!(cfg.mouse.profiles.len(), 2);
    assert_eq!(text_of(&cfg.mouse.profiles[1].scroll_mode), Some("default"));
    assert_eq!(cfg.mouse.profiles[1].line_count, None);
    let outcome = apply_control_field(&mut cfg, dev, field, &reading(1), &tables());
    assert_eq!(text_of(&cfg.mouse.profiles[1].scroll_mode), Some("line"));
    assert_eq!(cfg.mouse.profiles[1].line_count, Some(10));
    assert!(outcome.refresh_line_count);
    assert_eq!(cfg.mouse.profiles.len(), 2);
    assert_eq!(cfg.mouse.profiles[0].line_count, Some(3));
}

#[test]
fn pointer_settings_do_not_disturb_each_other() {
    let mut cfg = config();
    write_selected_profile(&mut cfg, None, ProfileEdit::Acceleration(250));
    write_selected_profile(&mut cfg, None, ProfileEdit::DisableAcceleration(true));
    assert_eq!(
        cfg.mouse.profiles[0].pointer,
        Some(PointerConfig {
            disable_acceleration: Some(true),
            acceleration: Some(250),
        })
    );
}

#[test]
fn tracking_speeds_are_rounded_to_hundredths() {
    assert_eq!(pointer_accel_from_slider(Some(2_345_678), 100), 235);
    assert_eq!(pointer_accel_from_slider(Some(-1), 100), 0);
    assert_eq!(pointer_accel_from_slider(Some(99_000_000), 100), 1_000);
    assert_eq!(pointer_accel_from_slider(None, 100), 100);
    assert_eq!(pointer_accel_display(235), "2.35");
    assert_eq!(pointer_accel_display(1_000), "10.00");
    assert_eq!(pointer_accel_display(5), "0.05");
}

#[test]
fn a_changed_slider_shows_its_value() {
    let mut cfg = config();
    let r = on_control_changed(&mut cfg, None, &controls(), &views(), 23, &reading(2), &tables());
    assert_eq!(r.readout, Some((105, "2.35".to_string())));
    let r = on_control_changed(&mut cfg, None, &controls(), &views(), 21, &reading(4), &tables());
    assert_eq!(r.readout, Some((101, "4".to_string())));
    assert_eq!(cfg.mouse.profiles[0].line_count, Some(4));
}

#[test]
fn an_unknown_control_changes_nothing() {
    let mut cfg = config();
    let r = on_control_changed(&mut cfg, None, &controls(), &views(), 77, &reading(1), &tables());
    assert!(r.readout.is_none() && r.applied.is_none());
    assert_eq!(format!("{:?}", cfg), format!("{:?}", config()));
}

#[test]
fn dependent_rows_follow_their_switch() {
    let mut cfg = config();
    let r = on_control_changed(&mut cfg, None, &controls(), &views(), 29, &reading(1), &tables());
    let (_, follow) = r.applied.unwrap();
    assert!(follow.clipboard_enabling && follow.clipboard_delete_row);
    assert!(!follow.pointer_accel_row && !follow.thumbnail_rows);
    assert!(cfg.clipboard.delete_after_paste);
    let rows = update_conditional_rows(
        ConditionReadings {
            scroll_mode_index: 1,
            disable_accel_state: 0,
            thumbnails_index: 1,
            delete_after_paste_state: 1,
        },
        &tables().scroll_modes,
    );
    assert!(rows.line_count && !rows.pointer_accel && rows.thumbnail_only && rows.clipboard_delete);
    let unknown = update_conditional_rows(
        ConditionReadings {
            scroll_mode_index: -1,
            disable_accel_state: 1,
            thumbnails_index: 0,
            delete_after_paste_state: 0,
        },
        &tables().scroll_modes,
    );
    assert!(!unknown.line_count && unknown.pointer_accel);
}

#[test]
fn pages_are_greyed_out_by_their_switch() {
    let ui = controls();
    let mouse = update_mouse_controls_enabled(&ui, &views(), 1, false);
    assert!(!mouse.device_enabled && !mouse.device_hint && mouse.others.enabled);
    let off = update_mouse_controls_enabled(&ui, &views(), 0, true);
    assert!(!off.device_enabled && off.device_hint && !off.others.enabled);
    assert_eq!(off.others.hint_key, "settings.tooltip_mouse_disabled");
    assert_eq!(off.others.controls, vec![20, 21, 19, 22, 23, 105]);
    let windows = update_windows_controls_enabled(&ui, &views(), 0);
    assert_eq!(windows.controls.len(), 12);
    assert!(!windows.controls.contains(&ui.windows_enabled));
    let clipboard = update_clipboard_controls_enabled(&ui, &views(), 1);
    assert!(clipboard.enabled && clipboard.controls.contains(&104));
    assert_eq!(update_window_control_controls_enabled(&ui, 0).controls.len(), 8);
    assert_eq!(update_quick_actions_controls_enabled(&ui, 0).controls.len(), 5);
}

#[test]
fn switches_show_the_configuration() {
    let cfg = config();
    assert_eq!(
        refresh_service_controls_from_config(&controls(), &cfg),
        vec![(7, 1), (18, 1), (25, 0), (34, 0), (43, 0)]
    );
    assert!(refresh_switcher_controls_from_config(&cfg, false).is_none());
    let shown = refresh_switcher_controls_from_config(&cfg, true).unwrap();
    assert_eq!(shown.modifier_index, 1);
    assert_eq!(shown.thumbnails_index, 1);
    assert_eq!(shown.prewarm_state, 0);
    assert!(shown.thumbnail_rows_visible);
}

fn device(name: &str, vendor_id: u32, product_id: u32) -> ConnectedDevice {
    ConnectedDevice {
        name: name.to_string(),
        vendor_id,
        product_id,
    }
}

#[test]
fn the_selection_follows_the_connected_mice() {
    let devices = vec![device("A", 1, 2), device("B", 0x46d, 0xc52b)];
    assert_eq!(ensure_selected_device(&devices, None), Some(Some((1, 2))));
    assert_eq!(
        ensure_selected_device(&devices, Some(Some((0x46d, 0xc52b)))),
        Some(Some((0x46d, 0xc52b)))
    );
    assert_eq!(
        ensure_selected_device(&devices, Some(Some((9, 9)))),
        Some(Some((1, 2)))
    );
    assert_eq!(ensure_selected_device(&vec![], Some(Some((1, 2)))), Some(None));
}

#[test]
fn the_select_of_the_mouse_lists_all_mice() {
    let devices = vec![device("A", 1, 2), device("B", 0x46d, 0xc52b)];
    let popup = rebuild_device_popup(&devices, Some((0x46d, 0xc52b)));
    assert_eq!(popup.items, vec!["A (0x1:0x2)", "B (0x46d:0xc52b)"]);
    assert_eq!(popup.selected, Some(1));
    assert_eq!(rebuild_device_popup(&devices, None).selected, Some(0));
    assert_eq!(rebuild_device_popup(&vec![], None).selected, None);
}

#[test]
fn choosing_a_mouse_brings_its_bindings() {
    let mut cfg = config();
    let mut edits = ButtonMap::new();
    edits.insert("4".to_string(), "switcher".to_string());
    commit_mapping_edits(&mut cfg, Some((1, 2)), &edits);
    let keys = vec![(1, 2)];
    let (selected, bindings) = handle_device_changed(&cfg, &keys, 0);
    assert_eq!(selected, Some(Some((1, 2))));
    assert_eq!(text_of(&bindings.get("4")), Some("switcher"));
    let (selected, bindings) = handle_device_changed(&cfg, &keys, 3);
    assert_eq!(selected, Some(None));
    assert!(bindings.get("4").is_none());
    assert!(mapping_edits_of(&cfg, Some((7, 7))).get("4").is_none());
}

#[test]
fn only_accepted_numbers_are_taken_over() {
    let mut cfg = config();
    let ui = controls();
    let typed = |length: Option<i64>, count: Option<u64>| TypedNumber { length, count };
    assert!(on_control_text_did_change(&mut cfg, &ui, 16, typed(Some(500_000), None)));
    assert_eq!(cfg.appearance.corner_radius, 500_000);
    assert!(!on_control_text_did_change(&mut cfg, &ui, 16, typed(Some(500_001), None)));
    assert!(!on_control_text_did_change(&mut cfg, &ui, 16, typed(None, None)));
    assert!(!on_control_text_did_change(&mut cfg, &ui, 31, typed(None, Some(0))));
    assert!(on_control_text_did_change(&mut cfg, &ui, 31, typed(None, Some(100))));
    assert!(!on_control_text_did_change(&mut cfg, &ui, 31, typed(None, Some(101))));
    assert_eq!(cfg.clipboard.max_entries, 100);
    assert!(!on_control_text_did_change(&mut cfg, &ui, 1, typed(Some(1), Some(1))));
}

#[test]
fn a_refused_number_is_replaced_by_the_configured_one() {
    let mut cfg = config();
    cfg.appearance.corner_radius = 12_500;
    let ui = controls();
    let bad = TypedNumber {
        length: None,
        count: None,
    };
    match on_control_text_did_end_editing(&mut cfg, &ui, 16, bad) {
        EndEditing::Restored { control, text } => {
            assert_eq!(control, 16);
            assert_eq!(text, "12.5");
        }
        other => panic!("{other:?}"),
    }
    match on_control_text_did_end_editing(&mut cfg, &ui, 31, bad) {
        EndEditing::Restored { control, text } => {
            assert_eq!(control, 31);
            assert_eq!(text, "50");
        }
        other => panic!("{other:?}"),
    }
    let good = TypedNumber {
        length: Some(24_000),
        count: None,
    };
    assert!(matches!(
        on_control_text_did_end_editing(&mut cfg, &ui, 16, good),
        EndEditing::Committed
    ));
    assert_eq!(cfg.appearance.corner_radius, 24_000);
    assert!(matches!(
        on_control_text_did_end_editing(&mut cfg, &ui, 99, good),
        EndEditing::Ignored
    ));
}

#[test]
fn lengths_are_written_as_short_as_possible() {
    assert_eq!(length_text(64_000), "64");
    assert_eq!(length_text(12_500), "12.5");
    assert_eq!(length_text(250), "0.25");
    assert_eq!(length_text(1_007), "1.007");
    assert_eq!(length_text(-1_020), "-1.02");
}

#[test]
fn log_copies_are_named_after_their_moment() {
    let t = Timestamp {
        year: 2026,
        month: 9,
        day: 5,
        hour: 7,
        minute: 3,
        second: 42,
    };
    assert_eq!(suggested_export_log_name(t), "oh-my-tab-20260905-070342.log");
    assert_eq!(
        suggested_export_log_name(Timestamp { year: 987, ..t }),
        "oh-my-tab-09870905-070342.log"
    );
    assert_ne!(
        suggested_export_log_name(Timestamp { second: 43, ..t }),
        suggested_export_log_name(t)
    );
}

#[test]
fn the_user_is_told_how_an_export_went() {
    let alert = handle_export_logs(false, None, None).unwrap();
    assert_eq!(alert.title_key(), "settings.export_failed_title");
    assert_eq!(alert.message_key(), "settings.export_failed_no_source");
    assert!(handle_export_logs(true, None, None).is_none());
    let dest = Some("/tmp/x.log".to_string());
    match handle_export_logs(true, dest.clone(), Some(Ok(()))) {
        Some(ExportAlert::Done { path }) => assert_eq!(path, "/tmp/x.log"),
        other => panic!("{other:?}"),
    }
    let failed = handle_export_logs(true, dest, Some(Err("full".to_string()))).unwrap();
    assert_eq!(failed.message_key(), "settings.export_failed_msg");
}

#[test]
fn colors_are_written_in_hexadecimal() {
    let m = Measure::Finite;
    assert_eq!(color_component_to_byte(m(501_961)), 128);
    assert_eq!(color_component_to_byte(m(-5)), 0);
    assert_eq!(color_component_to_byte(m(2_000_000)), 255);
    assert_eq!(color_component_to_byte(Measure::Unbounded), 255);
    assert_eq!(color_component_to_byte(Measure::Absent), 0);
    assert_eq!(
        rgba_hex_from_components(m(1_000_000), m(39_216), m(0), m(501_961)),
        "ff0a0080"
    );
}

#[test]
fn the_color_panel_stands_beside_the_window() {
    let spacing = GroupSpacing {
        gap: 12_000,
        margin: 16_000,
    };
    let (settings, panel) = glass_tint_group_frames(
        Rect::new(10_000, 100_000, 800_000, 600_000),
        Rect::new(0, 0, 250_000, 400_000),
        Rect::new(0, 0, 1_512_000, 944_000),
        spacing,
    );
    assert_eq!(settings, Rect::new(225_000, 100_000, 800_000, 600_000));
    assert_eq!(panel, Rect::new(1_037_000, 200_000, 250_000, 400_000));
    let (narrow, _) = glass_tint_group_frames(
        Rect::new(10_000, 100_000, 800_000, 600_000),
        Rect::new(0, 0, 250_000, 400_000),
        Rect::new(0, 0, 1_000_000, 944_000),
        spacing,
    );
    assert_eq!(narrow.x, 16_000);
}

#[test]
fn the_colour_panel_group_is_centred_to_the_half_point() {
    let spacing = GroupSpacing {
        gap: 8_000,
        margin: 8_000,
    };
    let (settings, panel) = glass_tint_group_frames(
        Rect::new(0, 100_500, 100_500, 300_500),
        Rect::new(0, 0, 50_000, 200_000),
        Rect::new(0, 0, 1_000_000, 900_000),
        spacing,
    );
    assert_eq!(settings.x, 420_750);
    assert_eq!(1_000_000 - (panel.x + panel.w), settings.x);
    assert_eq!(panel.y, 150_750);
}

#[test]
fn the_window_comes_back_once() {
    let mut origin = GroupOrigin { original: None };
    let here = Point { x: 1, y: 2 };
    origin.position_glass_tint_group(here, false);
    assert_eq!(origin.original, None);
    origin.position_glass_tint_group(here, true);
    origin.position_glass_tint_group(Point { x: 9, y: 9 }, true);
    assert_eq!(origin.restore_glass_tint_group(), Some(here));
    assert_eq!(origin.restore_glass_tint_group(), None);
}

#[test]
fn previews_have_their_tiles() {
    let switcher = make_glass_preview(280_000, 90_000, true);
    assert_eq!(switcher.len(), 2);
    assert_eq!(switcher[0].frame, Rect::new(14_000, 19_000, 119_000, 52_000));
    assert_eq!(switcher[1].frame, Rect::new(147_000, 19_000, 119_000, 52_000));
    let clipboard = make_glass_preview(280_000, 90_000, false);
    assert_eq!(clipboard[0].frame, Rect::new(12_000, 68_000, 256_000, 10_000));
    assert_eq!(clipboard[2].color, 0xFFFFFF48);
    assert_eq!(glass_style_number("clear"), 1);
    assert_eq!(glass_style_number("regular"), 0);
}

#[test]
fn the_reset_button_fits_its_panel() {
    let (w, button) = configure_glass_tint_panel(200_000, 500_000);
    assert_eq!(w, 250_000);
    assert_eq!(button, Rect::new(8_000, 3_000, 234_000, 28_000));
    assert_eq!(configure_glass_tint_panel(300_000, 0).1.w, 140_000);
    assert_eq!(configure_glass_tint_panel(300_000, 20_000).1.w, 80_000);
    assert_eq!(
        make_color_well(376_000, 5_000, 200_000, 34_000),
        Rect::new(524_000, 5_000, 52_000, 34_000)
    );
}

#[test]
fn the_tint_is_not_written_while_it_is_being_shown() {
    let mut cfg = config();
    assert!(!update_glass_tint_from_color(&mut cfg, true, Some("00000000".to_string())));
    assert!(!update_glass_tint_from_color(&mut cfg, false, None));
    assert_eq!(cfg.appearance.glass_tint, "ffffff20");
    assert!(update_glass_tint_from_color(&mut cfg, false, Some("01020304".to_string())));
    assert_eq!(cfg.appearance.glass_tint, "01020304");
    on_glass_tint_reset(&mut cfg, "ffffff20".to_string());
    assert_eq!(cfg.appearance.glass_tint, "ffffff20");
}

#[test]
fn restoring_everything_keeps_starting_at_login() {
    let mut cfg = config();
    cfg.startup.launch_at_login = true;
    cfg.appearance.corner_radius = 1_000;
    cfg.clipboard.max_entries = 7;
    let mut selected = Some(Some((1, 2)));
    restore_all_defaults(&mut cfg, &mut selected, config());
    assert!(cfg.startup.launch_at_login);
    assert_eq!(cfg.appearance.corner_radius, 64_000);
    assert_eq!(cfg.clipboard.max_entries, 50);
    assert_eq!(selected, None);
}

#[test]
fn restoring_a_page_leaves_the_others_alone() {
    let mut cfg = config();
    cfg.appearance.theme = "dark".to_string();
    cfg.appearance.corner_radius = 1_000;
    cfg.clipboard.max_entries = 7;
    cfg.windows.enabled = false;
    assert!(!restore_tab_defaults(&mut cfg, config(), 0, None));
    assert_eq!(cfg.appearance.theme, "auto");
    assert_eq!(cfg.appearance.corner_radius, 1_000);
    assert_eq!(cfg.clipboard.max_entries, 7);
    assert!(restore_tab_defaults(&mut cfg, config(), 1, None));
    assert_eq!(cfg.appearance.corner_radius, 64_000);
    assert!(cfg.windows.enabled);
    assert_eq!(cfg.clipboard.max_entries, 7);
    restore_tab_defaults(&mut cfg, config(), 3, None);
    assert_eq!(cfg.clipboard.max_entries, 50);
    cfg.updates.automatically_download = true;
    cfg.quick_actions.lock_screen = false;
    cfg.window_control.left = false;
    restore_tab_defaults(&mut cfg, config(), 4, None);
    assert!(cfg.window_control.left && !cfg.quick_actions.lock_screen);
    restore_tab_defaults(&mut cfg, config(), 5, None);
    assert!(cfg.quick_actions.lock_screen && cfg.updates.automatically_download);
    restore_tab_defaults(&mut cfg, config(), 6, None);
    assert!(!cfg.updates.automatically_download);
}

#[test]
fn restoring_the_mouse_page_resets_one_device() {
    let mut cfg = config();
    let mut edits = ButtonMap::new();
    edits.insert("4".to_string(), "none".to_string());
    commit_mapping_edits(&mut cfg, Some((1, 2)), &edits);
    commit_mapping_edits(&mut cfg, Some((3, 4)), &edits);
    write_selected_profile(&mut cfg, Some((1, 2)), ProfileEdit::LineCount(9));
    cfg.mouse.enabled = false;
    restore_tab_defaults(&mut cfg, config(), 2, Some((1, 2)));
    assert!(cfg.mouse.enabled);
    assert_eq!(cfg.mouse.profiles.len(), 3);
    assert_eq!(cfg.mouse.profiles[1].line_count, Some(3));
    assert!(mapping_edits_of(&cfg, Some((1, 2))).get("4").is_none());
    assert_eq!(text_of(&mapping_edits_of(&cfg, Some((3, 4))).get("4")), Some("none"));
    assert_eq!(cfg.mouse.profiles[1].device.vendor_id, Some(1));
}

#[test]
fn restoring_is_confirmed_in_words() {
    assert_eq!(restore_success_key(true), "settings.toast_page_defaults_restored");
    assert_eq!(restore_success_key(false), "settings.toast_all_defaults_restored");
}

#[test]
fn page_switches_are_written_and_grey_their_page_out() {
    let mut cfg = config();
    let ui = controls();
    let plan = handle_windows_enabled_toggle(&mut cfg, &ui, &views(), 0);
    assert!(!cfg.windows.enabled && !plan.enabled);
    assert!(plan.controls.contains(&ui.show_minimized));
    assert!(!plan.controls.contains(&ui.windows_enabled));
    let plan = handle_clipboard_enabled_toggle(&mut cfg, &ui, &views(), 1);
    assert!(cfg.clipboard.enabled && plan.enabled);
    let plan = handle_window_control_enabled_toggle(&mut cfg, &ui, 1);
    assert!(cfg.window_control.enabled && plan.enabled);
    let plan = handle_quick_actions_enabled_toggle(&mut cfg, &ui, 0);
    assert!(!cfg.quick_actions.enabled && !plan.enabled);
    let plan = handle_enable_mouse_toggle(&mut cfg, &ui, &views(), 1, false);
    assert!(cfg.mouse.enabled && plan.others.enabled);
    assert!(!plan.device_enabled && !plan.device_hint);
}

#[test]
fn controls_are_recorded_one_by_one() {
    let mut ui = SettingsControls::none();
    ui.assign(ControlField::Theme, 7);
    ui.assign(ControlField::LineCount, 8);
    assert_eq!((ui.theme, ui.line_count, ui.locale), (7, 8, 0));
    assert_eq!(control_field_of(&ui, 8), Some(ControlField::LineCount));
}

#[test]
fn some_settings_bring_others_up_to_date() {
    let after = follow_ups(ControlField::ClipboardDeleteAfterPaste);
    assert!(after.clipboard_enabling && after.clipboard_delete_row);
    assert!(!after.pointer_accel_row && !after.thumbnail_rows);
    assert!(follow_ups(ControlField::DisablePointerAccel).pointer_accel_row);
    assert!(follow_ups(ControlField::ThumbnailsEnabled).thumbnail_rows);
}

#[test]
fn the_select_of_the_mouse_says_when_there_is_none() {
    let popup = rebuild_device_popup(&vec![], None);
    assert_eq!(popup.placeholder_key, Some("settings.no_device_detected"));
    assert!(!popup.enabled);
    let popup = rebuild_device_popup(&vec![device("A", 1, 2)], None);
    assert_eq!(popup.placeholder_key, None);
    assert!(popup.enabled);
}

#[test]
fn closing_the_color_panel_brings_the_window_back() {
    let mut origin = GroupOrigin { original: None };
    let place = Point { x: 1_000, y: 2_000 };
    origin.position_glass_tint_group(place, true);
    let close = origin.close_glass_tint_panel(5, false, true);
    assert!(!close.deactivate_well && close.hide_panel);
    assert_eq!(close.window, Some(place));
    let again = origin.close_glass_tint_panel(5, true, true);
    assert!(again.deactivate_well);
    assert_eq!(again.window, None);
}
