use oh_my_tab_settings::button_map::ButtonMap;
use oh_my_tab_settings::config::{
    AppearanceConfig, ClipboardConfig, Config, FontsConfig, I18nConfig, KeyboardConfig,
    LayoutConfig, LoggingConfig, MouseConfig, QuickActionsConfig, StartupConfig, UpdatesConfig,
    WindowControlConfig, WindowsConfig,
};
use oh_my_tab_settings::geometry::{Point, Rect, Size};
use oh_my_tab_settings::mapping::{
    action_index, forget_mapping_rows, mapping_items, render_mapping_rows_locked,
    update_mapping_controls_enabled, ActionTables, Binding, BindingFacts, MappingItem,
    MappingMetrics, MappingRow, SettingsMappingActionIcon,
};
use oh_my_tab_settings::mapping_panel::{
    bound_text, handle_delete_mapping, mapping_panel_frames, panel_origin, ComboDisplay,
    MappingPanel,
};
use oh_my_tab_settings::profiles::mapping_edits_of;
use oh_my_tab_settings::recording::{RecMode, RecNotice, RecStage, Recorder, TapEvent};
use oh_my_tab_settings::restore::{
    collapse_restore_confirmations, collapse_restore_confirmations_on_external_click, CardFrames,
    LowerRow, Motion, RestoreCards, RestoreDefaultsControl, RestoreFrames, RestoreViews,
    WindowClick,
};
use oh_my_tab_settings::select::{SelectEffect, SelectRegistry};
use oh_my_tab_settings::tooltip::SettingsTooltip;

fn config() -> Config {
    Config {
        appearance: AppearanceConfig {
            theme: String::new(),
            glass_style: String::new(),
            glass_tint: String::new(),
            corner_radius: 0,
        },
        i18n: I18nConfig {
            locale: String::new(),
        },
        logging: LoggingConfig {
            level: String::new(),
        },
        startup: StartupConfig {
            launch_at_login: false,
        },
        windows: WindowsConfig {
            enabled: false,
            show_minimized: false,
            overlay_position: String::new(),
            activation_mode: String::new(),
        },
        layout: LayoutConfig {
            thumbnails_enabled: false,
            focused_thumbnail_prewarm: false,
            show_app_name_in_cards: false,
            card_text_size: 0,
        },
        fonts: FontsConfig { status_bar_size: 0 },
        keyboard: KeyboardConfig {
            modifier: String::new(),
        },
        mouse: MouseConfig {
            enabled: true,
            profiles: Vec::new(),
        },
        clipboard: ClipboardConfig {
            enabled: false,
            persist: false,
            show_source_app: false,
            move_used_to_top: false,
            delete_after_paste: false,
            clear_system_pasteboard_after_paste: false,
            max_entries: 1,
            auto_expire_days: 0,
            pin_follow_selection: false,
        },
        window_control: WindowControlConfig {
            enabled: false,
            up: false,
            down: false,
            left: false,
            right: false,
            display_up: false,
            display_down: false,
            display_left: false,
            display_right: false,
        },
        quick_actions: QuickActionsConfig {
            enabled: false,
            open_settings: false,
            open_finder: false,
            show_desktop: false,
            lock_screen: false,
            locate_pointer: false,
        },
        updates: UpdatesConfig {
            automatically_check: false,
            automatically_download: false,
        },
    }
}

fn system_actions() -> Vec<String> {
    ["mission-control", "app-expose", "back", "forward"]
        .iter()
        .map(|s| s.to_string())
        .collect()
}

fn texts(items: &[&str]) -> Vec<String> {
    items.iter().map(|s| s.to_string()).collect()
}

#[test]
fn only_one_select_is_open() {
    let mut selects = SelectRegistry::new();
    selects.make_popup(1, texts(&["a", "b"]), 0);
    selects.make_popup(2, texts(&["c"]), 0);
    let (_, opened) = selects.settings_select_open(1, true);
    assert!(opened.is_some());
    selects.settings_select_opened(1, 10, 11);
    assert!(selects.settings_select_is_open(1));
    selects.settings_select_open(2, true);
    assert!(!selects.settings_select_is_open(1));
    selects.settings_select_opened(2, 20, 21);
    assert!(selects.settings_select_is_open(2));
    assert!(!selects.settings_select_is_open(1));
}

#[test]
fn choosing_an_option_closes_the_select() {
    let mut selects = SelectRegistry::new();
    selects.make_popup(1, texts(&["a", "b"]), 0);
    selects.settings_select_open(1, true);
    selects.settings_select_opened(1, 10, 11);
    let effects = selects.settings_select_select_option(1, 1);
    assert_eq!(selects.settings_select_index(1), 1);
    assert_eq!(selects.shown_title(1), "b");
    assert!(!selects.settings_select_is_open(1));
    assert!(effects
        .iter()
        .any(|e| matches!(e, SelectEffect::SchedulePendingAction { select: 1 })));
}

#[test]
fn a_click_inside_the_panel_keeps_the_select_open() {
    let mut selects = SelectRegistry::new();
    selects.make_popup(1, texts(&["a"]), 0);
    selects.settings_select_open(1, true);
    selects.settings_select_opened(1, 10, 11);
    let panel = Some(Rect::new(0, 0, 100, 100));
    let trigger = Some(Rect::new(0, 110, 100, 20));
    selects.close_select_on_outside_click(Some(Point { x: 50, y: 50 }), panel, trigger);
    assert!(selects.settings_select_is_open(1));
    selects.close_select_on_outside_click(Some(Point { x: 500, y: 50 }), panel, trigger);
    assert!(!selects.settings_select_is_open(1));
}

#[test]
fn options_can_be_replaced() {
    let mut selects = SelectRegistry::new();
    selects.make_popup(1, texts(&["a"]), 0);
    selects.settings_select_remove_all(1);
    assert_eq!(selects.shown_title(1), "");
    selects.settings_select_add_item(1, "x".to_string());
    selects.settings_select_add_item(1, "y".to_string());
    selects.settings_select_set_index(1, 1);
    assert_eq!(selects.shown_title(1), "y");
    selects.settings_select_set_item_symbol(1, 1, "star");
    assert_eq!(selects.item_symbol(1, 1).as_deref(), Some("star"));
    assert_eq!(selects.item_symbol(1, 0), None);
    selects.clear_settings_select_registry();
    assert!(!selects.settings_select_is_open(1));
}

fn frames() -> RestoreFrames {
    RestoreFrames {
        trigger: Rect::new(8_000, 6_000, 180_000, 30_000),
        container: Rect::new(14_000, 14_000, 196_000, 42_000),
        separator: Rect::new(26_000, 61_000, 172_000, 1_000),
    }
}

fn views(base: usize, separator: usize) -> RestoreViews {
    RestoreViews {
        trigger: base,
        confirm: base + 1,
        cancel: base + 2,
        surface: base + 3,
        container: base + 4,
        separator,
    }
}

#[test]
fn a_confirmation_opens_upwards() {
    let mut control = RestoreDefaultsControl::with_views(views(1, 9));
    let plan = control.set_expanded(true, true, false, frames()).unwrap();
    assert!(control.expanded);
    let (confirm, cancel) = plan.rows.unwrap();
    assert_eq!(cancel, frames().trigger);
    assert_eq!(confirm, Rect::new(8_000, 54_000, 180_000, 30_000));
    assert_eq!(plan.container, Rect::new(14_000, 14_000, 196_000, 110_000));
    assert_eq!(plan.surface, plan.container);
    assert_eq!(plan.separator, Some(Rect::new(26_000, 112_000, 172_000, 1_000)));
    assert_eq!(plan.front, LowerRow::Cancel);
    assert_eq!(
        plan.frame_motion,
        Motion::Spring {
            milliseconds: 580,
            stiffness: 160,
            damping: 24,
        }
    );
    assert!(control.set_expanded(true, true, false, frames()).is_none());
}

#[test]
fn closing_a_confirmation_brings_everything_back() {
    let mut control = RestoreDefaultsControl::with_views(views(1, 9));
    let open = control.set_expanded(true, false, false, frames()).unwrap();
    let moved = RestoreFrames {
        container: open.container,
        separator: open.separator.unwrap(),
        ..frames()
    };
    let plan = control.set_expanded(false, true, true, moved).unwrap();
    assert_eq!(plan.container, frames().container);
    assert_eq!(plan.separator, Some(frames().separator));
    assert_eq!(plan.surface, Rect::new(22_000, 20_000, 180_000, 30_000));
    assert_eq!(plan.surface_hidden, Some(true));
    assert_eq!(plan.frame_motion, Motion::AtOnce);
}

#[test]
fn a_control_without_views_does_not_open() {
    let mut control = RestoreDefaultsControl::empty();
    assert!(!control.is_ready());
    assert!(control.set_expanded(true, true, false, frames()).is_none());
    assert!(!control.expanded);
}

#[test]
fn only_one_confirmation_is_open() {
    let mut cards = RestoreCards {
        all: RestoreDefaultsControl::with_views(views(1, 9)),
        pages: vec![
            RestoreDefaultsControl::with_views(views(11, 0)),
            RestoreDefaultsControl::with_views(views(21, 0)),
        ],
    };
    let here = CardFrames {
        all: frames(),
        pages: vec![frames(), frames()],
    };
    let click = |on_control: bool| WindowClick {
        has_window: true,
        has_event: true,
        has_content: true,
        on_control,
    };
    assert!(!collapse_restore_confirmations_on_external_click(&cards, click(false)));
    let plans = cards.handle_page_restore_defaults(1, false, &here);
    assert!(!cards.pages[0].expanded && cards.pages[1].expanded && !cards.all.expanded);
    assert!(plans.all.is_none() && plans.pages[0].is_none());
    assert!(plans.pages[1].unwrap().separator.is_none());
    let plans = cards.handle_page_restore_defaults(0, false, &here);
    assert!(cards.pages[0].expanded && !cards.pages[1].expanded && !cards.all.expanded);
    assert!(plans.pages[0].is_some() && plans.pages[1].is_some());
    let plans = cards.handle_restore_defaults(false, &here);
    assert!(cards.all.expanded && !cards.pages[0].expanded && !cards.pages[1].expanded);
    assert!(plans.all.is_some() && plans.pages[0].is_some() && plans.pages[1].is_none());
    assert!(collapse_restore_confirmations_on_external_click(&cards, click(false)));
    assert!(!collapse_restore_confirmations_on_external_click(&cards, click(true)));
    collapse_restore_confirmations(&mut cards, true, false, &here);
    assert!(!cards.all.expanded);
    assert!(cards.handle_restore_defaults_cancel(false, &here).is_none());
}

#[test]
fn cancelling_closes_the_card_of_the_page() {
    let mut cards = RestoreCards {
        all: RestoreDefaultsControl::with_views(views(1, 9)),
        pages: vec![
            RestoreDefaultsControl::with_views(views(11, 0)),
            RestoreDefaultsControl::with_views(views(21, 0)),
        ],
    };
    let here = CardFrames {
        all: frames(),
        pages: vec![frames(), frames()],
    };
    cards.handle_page_restore_defaults(0, false, &here);
    let plans = cards.set_page_restore_confirmation_expanded(1, false, true, false, &here);
    assert!(!cards.pages[0].expanded && !cards.pages[1].expanded);
    assert!(plans[0].is_some() && plans[1].is_none());
    let plans = cards.set_page_restore_confirmation_expanded(2, true, true, false, &here);
    assert!(!cards.pages[0].expanded && !cards.pages[1].expanded);
    assert!(plans[0].is_none() && plans[1].is_none());
}

#[test]
fn restore_controls_have_their_places() {
    let sidebar = RestoreDefaultsControl::build(224_000);
    assert_eq!(sidebar.trigger, Rect::new(8_000, 6_000, 180_000, 30_000));
    assert_eq!(sidebar.container, Rect::new(14_000, 14_000, 196_000, 42_000));
    let page = RestoreDefaultsControl::build_for_page(6_000, -16_000, 588_000);
    assert_eq!(page.confirm, Rect::new(8_000, 54_000, 572_000, 30_000));
    assert_eq!(page.surface, Rect::new(14_000, -10_000, 572_000, 30_000));
    assert!(page.separator.is_none());
}

#[test]
fn mappings_are_listed_by_button() {
    let mut edits = ButtonMap::new();
    edits.insert("10".to_string(), "none".to_string());
    edits.insert("3".to_string(), "switcher".to_string());
    edits.insert("x".to_string(), "none".to_string());
    edits.insert("4".to_string(), "back".to_string());
    let items = mapping_items(&edits);
    let buttons: Vec<u32> = items.iter().map(|i| i.button).collect();
    assert_eq!(buttons, vec![3, 4, 10]);
    assert_eq!(items[1].desc, "back");
}

#[test]
fn bindings_find_their_action() {
    let actions = system_actions();
    assert_eq!(action_index(Some(Binding::Key), "cmd+c", &actions), 2);
    assert_eq!(action_index(Some(Binding::System), "APP-Expose", &actions), 4);
    assert_eq!(action_index(Some(Binding::System), "unknown", &actions), 0);
    assert_eq!(action_index(Some(Binding::Switcher), "switcher", &actions), 7);
    assert_eq!(action_index(Some(Binding::Nothing), "none", &actions), 1);
    assert_eq!(action_index(None, "?", &actions), 0);
    let symbols = texts(&["minus", "nosign"]);
    assert_eq!(
        SettingsMappingActionIcon::symbol_name(&symbols, 1).as_deref(),
        Some("nosign")
    );
    assert_eq!(SettingsMappingActionIcon::symbol_name(&symbols, 2), None);
}

fn metrics() -> MappingMetrics {
    MappingMetrics {
        panel_x: 12_000,
        cell_x: 14_000,
        panel_top: 12_000,
        header_h: 32_000,
        row_h: 40_000,
        action_top: 10_000,
        action_h: 32_000,
        pad_bottom: 12_000,
    }
}

#[test]
fn the_table_grows_with_its_rows() {
    let items: Vec<MappingItem> = (3..8)
        .map(|button| MappingItem {
            button,
            desc: "cmd+c".to_string(),
        })
        .collect();
    let mut facts: Vec<BindingFacts> = (0..5)
        .map(|_| BindingFacts {
            binding: Some(Binding::Key),
            cap_count: 2,
        })
        .collect();
    facts[4] = BindingFacts {
        binding: Some(Binding::Switcher),
        cap_count: 0,
    };
    let tables = ActionTables {
        system_actions: system_actions(),
        action_keys: texts(&["default", "none"]),
    };
    let card = Rect::new(6_000, 100_000, 588_000, 218_000);
    let table = render_mapping_rows_locked(&items, &facts, &tables, metrics(), card);
    assert_eq!(table.rows.len(), 5);
    assert_eq!(table.panel, Size { w: 564_000, h: 232_000 });
    assert_eq!(table.card, Rect::new(6_000, 20_000, 588_000, 298_000));
    assert_eq!(table.add_button, Rect::new(12_000, 254_000, 564_000, 32_000));
    assert!(table.empty_hidden);
    let first = &table.rows[0];
    assert_eq!(first.label, Rect::new(26_000, 53_000, 70_000, 22_000));
    assert_eq!(first.edit, Rect::new(436_000, 50_500, 60_000, 27_000));
    assert_eq!(first.delete, Rect::new(502_000, 50_500, 60_000, 27_000));
    assert_eq!(
        first.caps,
        vec![
            Rect::new(104_000, 54_000, 20_000, 20_000),
            Rect::new(128_000, 54_000, 20_000, 20_000),
        ]
    );
    assert!(first.icon.is_none() && first.desc_key.is_none());
    let last = &table.rows[4];
    assert_eq!(last.icon, Some((7, Rect::new(100_000, 215_000, 18_000, 18_000))));
    assert_eq!(last.desc_key.as_deref(), Some("settings.mapping_action_default"));
    assert!(last.caps.is_empty());
    let empty = render_mapping_rows_locked(&vec![], &vec![], &tables, metrics(), card);
    assert_eq!(empty.panel.h, 152_000);
    assert!(!empty.empty_hidden);
}

fn mapping_row(base: usize) -> MappingRow {
    MappingRow {
        label: base,
        desc_label: base + 1,
        action_icon: 0,
        edit: base + 2,
        delete: base + 3,
        separator: base + 4,
        caps: vec![base + 5],
    }
}

#[test]
fn views_of_removed_rows_are_forgotten() {
    let mut tooltip = SettingsTooltip::new();
    tooltip.apply(10, false, Some("row"));
    tooltip.apply(15, false, Some("cap"));
    tooltip.apply(99, false, Some("other"));
    tooltip.tracking_added(10, 100);
    tooltip.tracking_added(99, 990);
    forget_mapping_rows(&mut tooltip, &vec![mapping_row(10)]);
    assert_eq!(tooltip.areas.get(&10), None);
    assert_eq!(tooltip.areas.get(&99), Some(&990));
    assert_eq!(tooltip.hint_of(10), None);
    assert_eq!(tooltip.hint_of(15), None);
    assert_eq!(tooltip.hint_of(99).as_deref(), Some("other"));
}

#[test]
fn the_table_is_greyed_out_by_both_switches() {
    let rows = vec![mapping_row(10)];
    let r = update_mapping_controls_enabled(1, 0, &rows);
    assert!(r.switch_enabled && !r.rows_enabled);
    assert_eq!(r.hint_key, "settings.tooltip_mapping_disabled");
    assert_eq!(r.views, vec![10, 11, 12, 13, 15]);
    let off = update_mapping_controls_enabled(0, 1, &rows);
    assert!(!off.switch_enabled && !off.rows_enabled);
    assert_eq!(off.hint_key, "settings.tooltip_mouse_disabled");
}

#[test]
fn a_mapping_is_confirmed_and_edited_again() {
    let mut cfg = config();
    let mut edits = ButtonMap::new();
    let mut panel = MappingPanel::new();
    let actions = system_actions();
    assert!(panel.open_mapping_panel(None, None, &actions));
    panel.panel_shown(5, 6);
    assert!(!panel.handle_mapping_confirm(&mut edits, &mut cfg, None, &actions));
    panel.handle_recording_finished(RecMode::PanelTrigger, 4, String::new());
    panel.handle_panel_action_changed(5);
    assert!(panel.handle_mapping_confirm(&mut edits, &mut cfg, None, &actions));
    assert_eq!(edits.get("4").as_deref(), Some("back"));
    assert_eq!(mapping_edits_of(&cfg, None).get("4").as_deref(), Some("back"));
    assert_eq!(panel.close_mapping_panel(), (Some(5), Some(6)));
    assert_eq!(panel.close_mapping_panel(), (None, None));
    let text = bound_text(&edits, Some(4)).unwrap();
    panel.open_mapping_panel(Some(4), Some((text, Some(Binding::System))), &actions);
    assert_eq!(panel.action, 5);
    panel.handle_panel_action_changed(0);
    assert!(panel.handle_mapping_confirm(&mut edits, &mut cfg, None, &actions));
    assert!(edits.get("4").is_none());
}

#[test]
fn a_mapping_needs_its_button() {
    let mut cfg = config();
    let mut edits = ButtonMap::new();
    let mut panel = MappingPanel::new();
    let actions = system_actions();
    for action in [0, 1, 2, 3, 7] {
        panel.open_mapping_panel(None, None, &actions);
        panel.handle_panel_action_changed(action);
        assert!(!panel.update_mapping_panel().ok_enabled);
        assert!(!panel.handle_mapping_confirm(&mut edits, &mut cfg, None, &actions));
    }
    panel.open_mapping_panel(Some(3), None, &actions);
    assert!(panel.update_mapping_panel().ok_enabled);
}

#[test]
fn a_key_press_needs_its_combination() {
    let mut cfg = config();
    let mut edits = ButtonMap::new();
    let mut panel = MappingPanel::new();
    let actions = system_actions();
    panel.open_mapping_panel(Some(3), None, &actions);
    panel.handle_panel_action_changed(2);
    let shown = panel.update_mapping_panel();
    assert!(matches!(shown.combo, ComboDisplay::Missing));
    assert!(!shown.ok_enabled);
    assert!(!panel.handle_mapping_confirm(&mut edits, &mut cfg, None, &actions));
    panel.handle_recording_finished(RecMode::PanelCombo, 3, "cmd+c".to_string());
    let shown = panel.update_mapping_panel();
    assert!(matches!(shown.combo, ComboDisplay::Recorded(_)));
    assert!(shown.ok_enabled);
    assert!(panel.handle_mapping_confirm(&mut edits, &mut cfg, None, &actions));
    assert_eq!(edits.get("3").as_deref(), Some("cmd+c"));
    panel.handle_panel_action_changed(1);
    assert_eq!(panel.combo, "");
    assert!(panel.handle_mapping_confirm(&mut edits, &mut cfg, None, &actions));
    assert_eq!(edits.get("3").as_deref(), Some("none"));
    panel.handle_panel_action_changed(7);
    panel.handle_mapping_confirm(&mut edits, &mut cfg, None, &actions);
    assert_eq!(edits.get("3").as_deref(), Some("switcher"));
    panel.handle_panel_action_changed(12);
    assert!(panel.handle_mapping_confirm(&mut edits, &mut cfg, None, &actions));
    assert_eq!(edits.get("3").as_deref(), Some("switcher"));
    handle_delete_mapping(&mut edits, &mut cfg, None, 3);
    assert!(edits.get("3").is_none());
    assert!(mapping_edits_of(&cfg, None).get("3").is_none());
}

#[test]
fn the_panel_is_centered_on_its_window() {
    let parts = mapping_panel_frames();
    assert_eq!(parts.ok, Rect::new(336_000, 24_000, 88_000, 28_000));
    assert_eq!(
        panel_origin(
            Rect::new(100_000, 50_000, 840_000, 640_000),
            Size { w: parts.panel.w, h: parts.panel.h },
        ),
        Point { x: 300_000, y: 250_000 }
    );
}

fn event(event_type: u32, button: u32, keycode: u16, flags: u32, described: &str) -> TapEvent {
    TapEvent {
        event_type,
        button,
        keycode,
        flags,
        described: described.to_string(),
    }
}

#[test]
fn a_side_button_ends_its_recording() {
    let mut rec = Recorder::new();
    assert!(rec.handle_panel_record_trigger());
    assert!(!rec.handle_panel_record_trigger());
    assert!(rec.recording);
    let left = rec.recording_tap_callback_inner(event(25, 1, 0, 0, ""), false, true);
    assert!(!left.swallowed);
    let side = rec.recording_tap_callback_inner(event(25, 4, 0, 0, ""), false, true);
    assert!(side.swallowed && side.ends);
    match side.notice {
        RecNotice::Finished { mode, button, .. } => {
            assert_eq!(mode, RecMode::PanelTrigger);
            assert_eq!(button, 4);
        }
        other => panic!("{other:?}"),
    }
    assert_eq!(rec.stage, RecStage::Idle);
    let late = rec.recording_tap_callback_inner(event(25, 5, 0, 0, ""), false, true);
    assert!(!late.swallowed && matches!(late.notice, RecNotice::Nothing));
}

#[test]
fn a_combination_reaches_the_panel() {
    let mut rec = Recorder::new();
    assert!(!rec.handle_panel_record_combo(None));
    assert!(rec.handle_panel_record_combo(Some(4)));
    let mods = rec.recording_tap_callback_inner(event(12, 0, 0, 0x0010_0108, ""), false, true);
    assert!(!mods.swallowed && matches!(mods.notice, RecNotice::Stage));
    assert_eq!(rec.mods, 0x0010_0000);
    let key = rec.recording_tap_callback_inner(event(10, 0, 8, 0x0010_0108, "cmd+c"), false, true);
    match key.notice {
        RecNotice::Finished { mode, button, combo } => {
            assert_eq!(mode, RecMode::PanelCombo);
            assert_eq!(button, 4);
            assert_eq!(combo, "cmd+c");
        }
        other => panic!("{other:?}"),
    }
    assert_eq!(rec.desc, "");
    assert_eq!(rec.mods, 0);
}

#[test]
fn escape_alone_gives_up() {
    let mut rec = Recorder::new();
    rec.handle_panel_record_combo(Some(4));
    let esc = rec.recording_tap_callback_inner(event(10, 0, 53, 0, "esc"), false, true);
    assert!(esc.swallowed && matches!(esc.notice, RecNotice::Cancelled));
    rec.handle_panel_record_combo(Some(4));
    let pressed = event(10, 0, 53, 0x0010_0000, "cmd+esc");
    let held = rec.recording_tap_callback_inner(pressed, false, true);
    assert!(matches!(held.notice, RecNotice::Finished { .. }));
}

#[test]
fn a_recording_can_be_given_up_from_outside() {
    let mut rec = Recorder::new();
    assert!(!rec.cancel_recording_from_main());
    rec.handle_panel_record_trigger();
    assert!(rec.waits_for_events(true));
    assert!(!rec.waits_for_events(false));
    assert!(rec.cancel_recording_from_main());
    assert!(!rec.recording && rec.cancel);
    assert!(!rec.waits_for_events(true));
    rec.handle_panel_record_trigger();
    assert!(matches!(rec.tap_creation_failed(), RecNotice::Cancelled));
    assert_eq!(rec.stage, RecStage::Idle);
    rec.handle_panel_record_trigger();
    let off = rec.recording_tap_callback_inner(event(25, 4, 0, 0, ""), true, true);
    assert!(!off.swallowed);
    let barred = rec.recording_tap_callback_inner(event(25, 4, 0, 0, ""), false, false);
    assert!(!barred.swallowed && rec.recording);
}

#[test]
fn opening_the_panel_again_starts_afresh() {
    let actions = system_actions();
    let mut panel = MappingPanel::new();
    assert_eq!(panel.handle_add_mapping(&actions), (None, None));
    panel.panel_shown(20, 21);
    panel.handle_panel_action_changed(2);
    panel.handle_recording_finished(RecMode::PanelCombo, 4, "cmd+c".to_string());
    assert_eq!(panel.combo, "cmd+c");
    let bound = Some(("Back".to_string(), Some(Binding::System)));
    let stale = panel.handle_mapping_edit(4, bound, &actions);
    assert_eq!(stale, (Some(20), Some(21)));
    assert_eq!((panel.button, panel.action), (Some(4), 5));
    assert_eq!(panel.combo, "");
    assert!(panel.panel.is_none() && panel.dim.is_none());
    panel.panel_shown(30, 31);
    assert_eq!(panel.handle_add_mapping(&actions), (Some(30), Some(31)));
    assert_eq!((panel.button, panel.action), (None, 0));
}
