use oh_my_tab_settings::dispatch::ControlField;
use oh_my_tab_settings::geometry::{Point, Rect, Size};
use oh_my_tab_settings::layout::SettingsLayout;
use oh_my_tab_settings::mapping::MappingMetrics;
use oh_my_tab_settings::page_rows::{
    collapsible_height, first_option, first_text, row_action, select_options, slider_range,
    PageEnv, PlacedCard, PlacedRow, RowAction, RowBlock, RowTitle, SectionTitle, SelectMetrics,
    SelectTable,
};
use oh_my_tab_settings::pages::{
    banner_warning_key, build_about_page, build_clipboard_page, build_general_page,
    build_mouse_page, build_quick_actions_page, build_switcher_page, build_window_control_page,
    finalize_settings_pages, page_name, permission_banner,
};

fn env() -> PageEnv {
    let one_line = SelectMetrics {
        row_h: 54_000,
        control_h: 34_000,
    };
    PageEnv {
        content_w: 600_000,
        layout: SettingsLayout::new(600_000, 24_000),
        divider_rise: 3_000,
        slider_w: 150_000,
        action_button: Size {
            w: 110_000,
            h: 28_000,
        },
        selects: SelectTable {
            theme: one_line,
            glass_style: one_line,
            locale: one_line,
            log_level: one_line,
            display_mode: one_line,
            overlay_position: SelectMetrics {
                row_h: 70_000,
                control_h: 50_000,
            },
            activation_mode: one_line,
            modifier: one_line,
            scroll_mode: one_line,
            pin_follow: one_line,
            device: one_line,
        },
    }
}

fn assert_stacked(rows: &[PlacedRow], cards: &[PlacedCard]) {
    for pair in rows.windows(2) {
        assert!(pair[1].y + pair[1].h <= pair[0].y);
    }
    for row in rows {
        assert!(cards
            .iter()
            .any(|c| c.frame.y <= row.y && row.y + row.h <= c.frame.y + c.frame.h));
    }
}

fn find(rows: &[PlacedRow], field: ControlField) -> PlacedRow {
    *rows
        .iter()
        .find(|r| r.row.title == RowTitle::Setting(field))
        .unwrap()
}

#[test]
fn the_switcher_page_is_stacked() {
    let (plan, bottom) = build_switcher_page(&env(), 1_000_000);
    assert_eq!(plan.rows.len(), 11);
    assert_eq!(plan.cards.len(), 3);
    assert_stacked(&plan.rows, &plan.cards);
    let first = plan.rows[0];
    assert_eq!(first.y, 938_000);
    assert_eq!(first.label_w, 346_000);
    assert_eq!(first.control, Rect::new(538_000, 938_000, 38_000, 22_000));
    assert_eq!(first.divider, None);
    assert_eq!(plan.cards[0].frame, Rect::new(6_000, 928_000, 588_000, 68_000));
    assert_eq!(plan.rows[1].y, 828_000);
    assert_eq!(plan.rows[1].label_w, 220_000);
    assert_eq!(plan.rows[2].divider, Some(Rect::new(6_000, 823_000, 588_000, 1_000)));
    let overlay = find(&plan.rows, ControlField::OverlayPosition);
    assert_eq!(overlay.h, 70_000);
    assert_eq!(overlay.control.h, 50_000);
    assert_eq!(bottom, plan.cards[2].frame.y);
    assert_eq!(plan.cards[1].title, SectionTitle::WindowOptions);
    assert_eq!(plan.cards[1].title.key(), "settings.header_window_options");
    assert_eq!(first.row.title.key(), "settings.row_windows_enabled");
}

#[test]
fn the_general_page_has_its_previews_between_its_cards() {
    let (plan, bottom) = build_general_page(&env(), 1_000_000);
    assert_stacked(&plan.appearance.rows, &plan.appearance.cards);
    assert_stacked(&plan.rest.rows, &plan.rest.cards);
    assert_eq!(plan.appearance.rows[0].y, 938_000);
    assert_eq!(plan.appearance.rows[1].y, 884_000);
    assert_eq!(
        plan.appearance.rows[1].divider,
        Some(Rect::new(6_000, 938_000, 588_000, 1_000))
    );
    assert_eq!(plan.appearance.cursor, 830_000);
    assert_eq!(plan.preview.switcher, Rect::new(12_000, 650_000, 282_000, 90_000));
    assert_eq!(plan.preview.clipboard, Rect::new(306_000, 650_000, 282_000, 90_000));
    assert_eq!(
        plan.preview.clipboard_caption,
        Rect::new(306_000, 743_000, 282_000, 18_000)
    );
    assert_eq!(plan.preview.card.frame, Rect::new(6_000, 638_000, 588_000, 140_000));
    assert_eq!(plan.rest.rows[0].y, 540_000);
    assert_eq!(bottom, plan.rest.cards.last().unwrap().frame.y);
    let login = find(&plan.rest.rows, ControlField::LaunchAtLogin);
    assert_eq!(login.label_w, 518_000);
    let export = plan.rest.rows[2];
    assert_eq!(export.row.title, RowTitle::ExportLogs);
    assert_eq!(export.control, Rect::new(466_000, export.y, 110_000, 28_000));
}

#[test]
fn the_permission_strip_hangs_below_the_top() {
    let plain = permission_banner(&env(), 250_000, 700_000, 20_000, false);
    assert_eq!(plain.frame, Rect::new(250_000, 620_000, 600_000, 60_000));
    assert_eq!(plain.warning, Rect::new(12_000, 18_000, 440_000, 36_000));
    assert_eq!(plain.open_button, Rect::new(450_000, 22_000, 140_000, 28_000));
    let migration = permission_banner(&env(), 250_000, 700_000, 20_000, true);
    assert_eq!(migration.frame.h, 72_000);
    assert_eq!(banner_warning_key(true), "settings.permission_migration_warning");
    assert_eq!(banner_warning_key(false), "settings.accessibility_warning");
}

#[test]
fn the_mouse_page_ends_with_its_table() {
    let m = MappingMetrics {
        panel_x: 12_000,
        cell_x: 14_000,
        panel_top: 12_000,
        header_h: 32_000,
        row_h: 40_000,
        action_top: 10_000,
        action_h: 32_000,
        pad_bottom: 12_000,
    };
    let (plan, table, bottom) = build_mouse_page(&env(), m, 1_000_000);
    assert_eq!(plan.rows.len(), 8);
    assert_eq!(plan.cards.len(), 5);
    assert_stacked(&plan.rows, &plan.cards);
    assert_eq!(table.card.y + table.card.h, plan.cursor - 24_000);
    assert_eq!(table.card.h, 218_000);
    assert_eq!(table.panel, Rect::new(12_000, 12_000, 564_000, 152_000));
    assert_eq!(table.empty_hint, Rect::new(26_000, 95_000, 536_000, 18_000));
    assert_eq!(table.add_button, Rect::new(12_000, 174_000, 564_000, 32_000));
    assert_eq!(bottom, table.card.y);
    let speed = find(&plan.rows, ControlField::PointerAcceleration);
    assert_eq!(speed.row.block, Some(RowBlock::PointerAccel));
    assert_eq!(speed.control.w, 150_000);
}

#[test]
fn the_clipboard_page_indents_its_dependent_row() {
    let (plan, bottom) = build_clipboard_page(&env(), 1_000_000);
    assert_stacked(&plan.rows, &plan.cards);
    let clear = find(
        &plan.rows,
        ControlField::ClipboardClearSystemPasteboardAfterPaste,
    );
    assert_eq!(clear.label_x, 30_000);
    assert_eq!(clear.label_w, 328_000);
    assert_eq!(clear.row.block, Some(RowBlock::ClipboardDelete));
    assert_eq!(bottom, plan.cards[1].frame.y);
    assert_eq!(plan.rows.len(), 9);
}

#[test]
fn the_shortcut_pages_list_their_switches() {
    let (plan, _) = build_window_control_page(&env(), 1_000_000);
    assert_eq!(plan.rows.len(), 9);
    assert_stacked(&plan.rows, &plan.cards);
    assert!(plan.rows[1].divider.is_none() && plan.rows[2].divider.is_some());
    let (plan, bottom) = build_quick_actions_page(&env(), 1_000_000);
    assert_eq!(plan.rows.len(), 6);
    assert_stacked(&plan.rows, &plan.cards);
    assert_eq!(bottom, plan.cursor - 10_000);
}

#[test]
fn the_about_page_has_its_cards_below_its_head() {
    let (plan, bottom) = build_about_page(&env(), 1_000_000);
    assert_eq!(plan.header.icon, Point { x: 12_000, y: 874_000 });
    assert_eq!(plan.header.title, Rect::new(85_000, 899_000, 515_000, 28_000));
    assert_eq!(plan.header.hit_area, Rect::new(6_000, 868_000, 588_000, 66_000));
    assert_stacked(&plan.app.rows, &plan.app.cards);
    assert_stacked(&plan.permissions.rows, &plan.permissions.cards);
    assert_eq!(plan.app.rows[0].y, 734_000);
    assert_eq!(plan.app.rows[1].control, Rect::new(157_000, 672_000, 431_000, 34_000));
    assert_eq!(plan.app.rows[3].control.w, 120_000);
    assert_eq!(plan.permissions.rows[0].control.w, 82_000);
    assert_eq!(
        plan.accessibility_button.y,
        plan.permissions.rows[0].y + 13_000
    );
    assert_eq!(
        plan.screen_recording_button.y,
        plan.permissions.rows[1].y + 13_000
    );
    let area = plan.update_area;
    assert_eq!(area.switch_line.y, plan.updates.rows[0].y);
    assert_eq!(area.host_line.y, plan.updates.rows[1].y);
    assert_eq!(area.check_button.y + 38_000, plan.updates.rows[1].y);
    assert_eq!(area.host.h, 0);
    assert_eq!(bottom, area.check_button.y - 10_000);
    assert_eq!(area.card.frame.y, bottom);
    assert_eq!(plan.updates.rows[0].label_w, 494_000);
}

#[test]
fn hidden_blocks_give_their_height_back() {
    assert_eq!(collapsible_height(RowBlock::ThumbnailOnly, &env()), 124_000);
    assert_eq!(collapsible_height(RowBlock::LineCount, &env()), 62_000);
}

#[test]
fn controls_start_with_their_defaults() {
    let line = slider_range(ControlField::LineCount, 10, 24, 100).unwrap();
    assert_eq!((line.min, line.max, line.default), (1, 10, 3));
    let text = slider_range(ControlField::CardTextSize, 10, 24, 100).unwrap();
    assert_eq!((text.min, text.max, text.default), (10, 24, 15));
    let days = slider_range(ControlField::ClipboardAutoExpireDays, 10, 24, 100).unwrap();
    assert_eq!((days.min, days.max, days.default), (0, 7, 3));
    let speed = slider_range(ControlField::PointerAcceleration, 10, 24, 100).unwrap();
    assert_eq!((speed.min, speed.max, speed.default), (0, 1_000, 100));
    assert!(slider_range(ControlField::Theme, 10, 24, 100).is_none());
    assert_eq!(first_option(RowTitle::Setting(ControlField::LogLevel)), 1);
    assert_eq!(first_option(RowTitle::Device), 0);
}

#[test]
fn rows_have_their_actions() {
    assert_eq!(
        row_action(RowTitle::Setting(ControlField::MouseEnabled)),
        RowAction::TogglePage
    );
    assert_eq!(
        row_action(RowTitle::Setting(ControlField::CornerRadius)),
        RowAction::Type
    );
    assert_eq!(
        row_action(RowTitle::Setting(ControlField::Theme)),
        RowAction::Change
    );
    assert_eq!(row_action(RowTitle::ExportLogs), RowAction::ExportLogs);
    assert_eq!(row_action(RowTitle::Version), RowAction::Nothing);
}

#[test]
fn every_page_ends_with_its_restore_control() {
    let bottoms = vec![100_000, -50_000];
    let controls = finalize_settings_pages(&bottoms, 600_000);
    assert_eq!(controls.len(), 2);
    assert_eq!(controls[0].container, Rect::new(6_000, 84_000, 588_000, 42_000));
    assert_eq!(controls[1].surface, Rect::new(14_000, -60_000, 572_000, 30_000));
    assert_eq!(page_name(0), "general");
    assert_eq!(page_name(4), "window_control");
    assert_eq!(page_name(6), "about");
}

#[test]
fn selects_have_their_options() {
    let texts = |field: ControlField| -> Vec<(&'static str, bool)> {
        select_options(field)
            .iter()
            .map(|o| (o.text, o.localized))
            .collect()
    };
    assert_eq!(
        texts(ControlField::Theme),
        vec![
            ("settings.theme_dark", true),
            ("settings.theme_light", true),
            ("settings.theme_auto", true),
        ]
    );
    assert_eq!(
        texts(ControlField::GlassStyle),
        vec![("Regular", false), ("Clear", false)]
    );
    assert_eq!(
        texts(ControlField::LogLevel),
        vec![("Debug", false), ("Info", false)]
    );
    assert_eq!(
        texts(ControlField::Modifier),
        vec![
            ("settings.modifier_option", true),
            ("settings.modifier_command", true),
        ]
    );
    assert!(texts(ControlField::Locale).is_empty());
    assert!(texts(ControlField::CornerRadius).is_empty());
}

#[test]
fn inputs_start_with_a_number() {
    assert_eq!(first_text(ControlField::CornerRadius), Some("64"));
    assert_eq!(first_text(ControlField::ClipboardMaxEntries), Some("50"));
    assert_eq!(first_text(ControlField::Theme), None);
}
