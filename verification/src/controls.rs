//! What follows from a change: readouts, greyed-out controls and rows that come and go.
use vstd::prelude::*;
use vstd::string::*;

use crate::button_map::ButtonMap;
use crate::config::Config;
use crate::dispatch::{
    apply_control_field, control_field_of, pointer_accel_display, pointer_accel_from_slider,
    ChoiceTables, ControlField, ControlReading, FieldOutcome, SettingsControls,
};
use crate::profiles::{device_for_index, mapping_edits_of, DeviceKey};
use crate::text::{same_text, signed_text};
#[allow(unused_imports)]
use crate::config::{
    ClipboardConfig, MouseConfig, QuickActionsConfig, WindowControlConfig, WindowsConfig,
};
#[allow(unused_imports)]
use crate::page_rows::RowTitle;
#[allow(unused_imports)]
use crate::{dispatch, page_contents, profiles, text};

verus! {

/// The views beside the controls that change with them.
#[derive(Clone, Copy, Debug, PartialEq, Eq, Structural)]
pub struct CompanionViews {
    pub line_count_value: usize,
    pub card_text_size_value: usize,
    pub status_bar_text_size_value: usize,
    pub clipboard_auto_expire_days_value: usize,
    pub pointer_accel_value: usize,
    /// The select of the mouse.
    pub device_indicator: usize,
}

/// The label that shows the value of a slider.
pub open spec fn readout_label(
    ui: SettingsControls,
    views: CompanionViews,
    sender: usize,
) -> Option<usize> {
    if sender == ui.line_count {
        Some(views.line_count_value)
    } else if sender == ui.card_text_size {
        Some(views.card_text_size_value)
    } else if sender == ui.status_bar_text_size {
        Some(views.status_bar_text_size_value)
    } else if sender == ui.clipboard_auto_expire_days {
        Some(views.clipboard_auto_expire_days_value)
    } else if sender == ui.pointer_accel_slider {
        Some(views.pointer_accel_value)
    } else {
        None
    }
}

/// What the label of a slider says: whole numbers, except for the tracking speed.
pub open spec fn readout_text(
    ui: SettingsControls,
    sender: usize,
    reading: ControlReading,
    tables: ChoiceTables,
) -> Seq<char> {
    if sender == ui.line_count || sender == ui.card_text_size || sender == ui.status_bar_text_size
        || sender == ui.clipboard_auto_expire_days {
        text::signed(reading.number as int)
    } else {
        let speed = dispatch::speed_of(reading.speed, tables.fallback_speed);
        text::decimal((speed / 100) as nat) + seq!['.'] + text::two_digits(speed % 100)
    }
}

/// The label of a slider and what it says now.
pub fn slider_readout(
    ui: &SettingsControls,
    views: &CompanionViews,
    sender: usize,
    reading: &ControlReading,
    tables: &ChoiceTables,
) -> (r: Option<(usize, String)>)
    ensures
        match r {
            Some((label, text)) => readout_label(*ui, *views, sender) == Some(label) && text@
                == readout_text(*ui, sender, *reading, *tables),
            None => readout_label(*ui, *views, sender) is None,
        },
{
    if sender == ui.line_count {
        Some((views.line_count_value, signed_text(reading.number)))
    } else if sender == ui.card_text_size {
        Some((views.card_text_size_value, signed_text(reading.number)))
    } else if sender == ui.status_bar_text_size {
        Some((views.status_bar_text_size_value, signed_text(reading.number)))
    } else if sender == ui.clipboard_auto_expire_days {
        Some((views.clipboard_auto_expire_days_value, signed_text(reading.number)))
    } else if sender == ui.pointer_accel_slider {
        let speed = pointer_accel_from_slider(reading.speed, tables.fallback_speed);
        Some((views.pointer_accel_value, pointer_accel_display(speed)))
    } else {
        None
    }
}

/// What is worked out again after a setting has changed.
#[derive(Clone, Copy, Debug, PartialEq, Eq, Structural)]
pub struct FollowUps {
    /// Which clipboard options are greyed out.
    pub clipboard_enabling: bool,
    /// Whether the row below "delete after paste" is shown.
    pub clipboard_delete_row: bool,
    /// Whether the row of the tracking speed is shown.
    pub pointer_accel_row: bool,
    /// Whether the rows for thumbnails are shown.
    pub thumbnail_rows: bool,
}

/// What is worked out again after a setting has changed.
pub fn follow_ups(field: ControlField) -> (r: FollowUps)
    ensures
        r == (FollowUps {
            clipboard_enabling: field == ControlField::ClipboardDeleteAfterPaste || field
                == ControlField::ClipboardClearSystemPasteboardAfterPaste,
            clipboard_delete_row: field == ControlField::ClipboardDeleteAfterPaste,
            pointer_accel_row: field == ControlField::DisablePointerAccel,
            thumbnail_rows: field == ControlField::ThumbnailsEnabled,
        }),
{
    FollowUps {
        clipboard_enabling: field == ControlField::ClipboardDeleteAfterPaste || field
            == ControlField::ClipboardClearSystemPasteboardAfterPaste,
        clipboard_delete_row: field == ControlField::ClipboardDeleteAfterPaste,
        pointer_accel_row: field == ControlField::DisablePointerAccel,
        thumbnail_rows: field == ControlField::ThumbnailsEnabled,
    }
}

/// What a changed control leads to.
#[derive(Debug)]
pub struct Reaction {
    /// A label and its new text.
    pub readout: Option<(usize, String)>,
    /// What was changed and what is left to do; nothing for an unknown control.
    pub applied: Option<(FieldOutcome, FollowUps)>,
}

/// Takes a changed control over into the configuration. A control that belongs to no
/// setting changes nothing.
pub fn on_control_changed(
    cfg: &mut Config,
    dev: Option<DeviceKey>,
    ui: &SettingsControls,
    views: &CompanionViews,
    sender: usize,
    reading: &ControlReading,
    tables: &ChoiceTables,
) -> (r: Reaction)
    requires
        old(cfg).mouse.valid(),
        sender == ui.card_text_size || sender == ui.status_bar_text_size
            ==> crate::geometry::in_range(reading.number as int),
    ensures
        final(cfg).mouse.valid(),
        match r.readout {
            Some((label, text)) => readout_label(*ui, *views, sender) == Some(label) && text@
                == readout_text(*ui, sender, *reading, *tables),
            None => readout_label(*ui, *views, sender) is None,
        },
        match dispatch::first_from(*ui, sender, 0) {
            None => r.applied is None && *final(cfg) == *old(cfg),
            Some(field) => {
                &&& r.applied matches Some((outcome, follow))
                &&& outcome == (FieldOutcome {
                    preview: field == ControlField::GlassStyle || field == ControlField::GlassTint,
                    refresh_line_count: field == ControlField::ScrollMode,
                })
                &&& follow == (FollowUps {
                    clipboard_enabling: field == ControlField::ClipboardDeleteAfterPaste || field
                        == ControlField::ClipboardClearSystemPasteboardAfterPaste,
                    clipboard_delete_row: field == ControlField::ClipboardDeleteAfterPaste,
                    pointer_accel_row: field == ControlField::DisablePointerAccel,
                    thumbnail_rows: field == ControlField::ThumbnailsEnabled,
                })
                &&& dispatch::is_profile_field(field) ==> {
                    &&& profiles::only_profiles_changed(*old(cfg), *final(cfg))
                    &&& profiles::only_profile_changed(
                        old(cfg).mouse.profiles@,
                        final(cfg).mouse.profiles@,
                        dev,
                        dispatch::profile_after(
                            profiles::profile_of(old(cfg).mouse.profiles@, dev),
                            field,
                            *reading,
                            *tables,
                        ),
                    )
                }
                &&& !dispatch::is_profile_field(field) ==> dispatch::setting_written(
                    *old(cfg),
                    *final(cfg),
                    field,
                    *reading,
                    *tables,
                )
            },
        },
{
    let readout = slider_readout(ui, views, sender, reading, tables);
    match control_field_of(ui, sender) {
        None => Reaction { readout, applied: None },
        Some(field) => {
            let outcome = apply_control_field(cfg, dev, field, reading, tables);
            Reaction { readout, applied: Some((outcome, follow_ups(field))) }
        },
    }
}

/// Controls that are enabled or greyed out together, and the hint of the greyed-out
/// ones.
#[derive(Debug)]
pub struct EnablePlan {
    pub controls: Vec<usize>,
    pub enabled: bool,
    pub hint_key: &'static str,
}

/// The controls below the switch of the mouse page, without the select of the mouse
/// and the table of mappings.
pub open spec fn mouse_controls(ui: SettingsControls, views: CompanionViews) -> Seq<usize> {
    seq![
        ui.scroll_mode,
        ui.line_count,
        ui.reverse_scroll,
        ui.disable_pointer_accel,
        ui.pointer_accel_slider,
        views.pointer_accel_value,
    ]
}

/// The controls below the switch of the switcher page.
pub open spec fn windows_controls(ui: SettingsControls, views: CompanionViews) -> Seq<usize> {
    seq![
        ui.show_minimized,
        ui.thumbnails_enabled,
        ui.focused_thumbnail_prewarm,
        ui.show_app_name_in_cards,
        ui.card_text_size,
        views.card_text_size_value,
        ui.status_bar_text_size,
        views.status_bar_text_size_value,
        ui.overlay_position,
        ui.activation_mode,
        ui.corner_radius,
        ui.modifier,
    ]
}

/// The controls below the switch of the clipboard page.
pub open spec fn clipboard_controls(ui: SettingsControls, views: CompanionViews) -> Seq<usize> {
    seq![
        ui.clipboard_pin_follow,
        ui.clipboard_persist,
        ui.clipboard_show_source_app,
        ui.clipboard_move_used_to_top,
        ui.clipboard_delete_after_paste,
        ui.clipboard_clear_system_pasteboard_after_paste,
        ui.clipboard_max_entries,
        ui.clipboard_auto_expire_days,
        views.clipboard_auto_expire_days_value,
    ]
}

/// The controls below the switch of the window-control page.
pub open spec fn window_control_controls(ui: SettingsControls) -> Seq<usize> {
    seq![
        ui.window_control_up,
        ui.window_control_down,
        ui.window_control_left,
        ui.window_control_right,
        ui.window_control_display_up,
        ui.window_control_display_down,
        ui.window_control_display_left,
        ui.window_control_display_right,
    ]
}

/// The controls below the switch of the quick-actions page.
pub open spec fn quick_actions_controls(ui: SettingsControls) -> Seq<usize> {
    seq![
        ui.quick_actions_open_settings,
        ui.quick_actions_open_finder,
        ui.quick_actions_show_desktop,
        ui.quick_actions_lock_screen,
        ui.quick_actions_locate_pointer,
    ]
}

/// How the mouse page is greyed out. Without a mouse its select is greyed out even
/// when the page is switched on, and then it has no hint.
#[derive(Debug)]
pub struct MouseEnabling {
    pub device_enabled: bool,
    pub device_hint: bool,
    pub others: EnablePlan,
}

/// Works out how the mouse page is greyed out.
pub fn update_mouse_controls_enabled(
    ui: &SettingsControls,
    views: &CompanionViews,
    state: i64,
    device_available: bool,
) -> (r: MouseEnabling)
    ensures
        r.device_enabled == (state == 1 && device_available),
        r.device_hint == (state != 1),
        r.others.controls@ == mouse_controls(*ui, *views),
        r.others.enabled == (state == 1),
        r.others.hint_key@ == "settings.tooltip_mouse_disabled"@,
{
    let on = state == 1;
    let mut controls: Vec<usize> = Vec::new();
    controls.push(ui.scroll_mode);
    controls.push(ui.line_count);
    controls.push(ui.reverse_scroll);
    controls.push(ui.disable_pointer_accel);
    controls.push(ui.pointer_accel_slider);
    controls.push(views.pointer_accel_value);
    assert(controls@ =~= mouse_controls(*ui, *views));
    MouseEnabling {
        device_enabled: on && device_available,
        device_hint: !on,
        others: EnablePlan {
            controls,
            enabled: on,
            hint_key: "settings.tooltip_mouse_disabled",
        },
    }
}

/// Works out how the switcher page is greyed out.
pub fn update_windows_controls_enabled(
    ui: &SettingsControls,
    views: &CompanionViews,
    state: i64,
) -> (r: EnablePlan)
    ensures
        r.controls@ == windows_controls(*ui, *views),
        r.enabled == (state == 1),
        r.hint_key@ == "settings.tooltip_windows_disabled"@,
{
    let mut controls: Vec<usize> = Vec::new();
    controls.push(ui.show_minimized);
    controls.push(ui.thumbnails_enabled);
    controls.push(ui.focused_thumbnail_prewarm);
    controls.push(ui.show_app_name_in_cards);
    controls.push(ui.card_text_size);
    controls.push(views.card_text_size_value);
    controls.push(ui.status_bar_text_size);
    controls.push(views.status_bar_text_size_value);
    controls.push(ui.overlay_position);
    controls.push(ui.activation_mode);
    controls.push(ui.corner_radius);
    controls.push(ui.modifier);
    assert(controls@ =~= windows_controls(*ui, *views));
    EnablePlan { controls, enabled: state == 1, hint_key: "settings.tooltip_windows_disabled" }
}

/// Works out how the clipboard page is greyed out.
pub fn update_clipboard_controls_enabled(
    ui: &SettingsControls,
    views: &CompanionViews,
    state: i64,
) -> (r: EnablePlan)
    ensures
        r.controls@ == clipboard_controls(*ui, *views),
        r.enabled == (state == 1),
        r.hint_key@ == "settings.tooltip_clipboard_disabled"@,
{
    let mut controls: Vec<usize> = Vec::new();
    controls.push(ui.clipboard_pin_follow);
    controls.push(ui.clipboard_persist);
    controls.push(ui.clipboard_show_source_app);
    controls.push(ui.clipboard_move_used_to_top);
    controls.push(ui.clipboard_delete_after_paste);
    controls.push(ui.clipboard_clear_system_pasteboard_after_paste);
    controls.push(ui.clipboard_max_entries);
    controls.push(ui.clipboard_auto_expire_days);
    controls.push(views.clipboard_auto_expire_days_value);
    assert(controls@ =~= clipboard_controls(*ui, *views));
    EnablePlan { controls, enabled: state == 1, hint_key: "settings.tooltip_clipboard_disabled" }
}

/// Works out how the window-control page is greyed out.
pub fn update_window_control_controls_enabled(ui: &SettingsControls, state: i64) -> (r: EnablePlan)
    ensures
        r.controls@ == window_control_controls(*ui),
        r.enabled == (state == 1),
        r.hint_key@ == "settings.tooltip_window_control_disabled"@,
{
    let mut controls: Vec<usize> = Vec::new();
    controls.push(ui.window_control_up);
    controls.push(ui.window_control_down);
    controls.push(ui.window_control_left);
    controls.push(ui.window_control_right);
    controls.push(ui.window_control_display_up);
    controls.push(ui.window_control_display_down);
    controls.push(ui.window_control_display_left);
    controls.push(ui.window_control_display_right);
    assert(controls@ =~= window_control_controls(*ui));
    EnablePlan {
        controls,
        enabled: state == 1,
        hint_key: "settings.tooltip_window_control_disabled",
    }
}

/// Works out how the quick-actions page is greyed out.
pub fn update_quick_actions_controls_enabled(ui: &SettingsControls, state: i64) -> (r: EnablePlan)
    ensures
        r.controls@ == quick_actions_controls(*ui),
        r.enabled == (state == 1),
        r.hint_key@ == "settings.tooltip_quick_actions_disabled"@,
{
    let mut controls: Vec<usize> = Vec::new();
    controls.push(ui.quick_actions_open_settings);
    controls.push(ui.quick_actions_open_finder);
    controls.push(ui.quick_actions_show_desktop);
    controls.push(ui.quick_actions_lock_screen);
    controls.push(ui.quick_actions_locate_pointer);
    assert(controls@ =~= quick_actions_controls(*ui));
    EnablePlan {
        controls,
        enabled: state == 1,
        hint_key: "settings.tooltip_quick_actions_disabled",
    }
}

/// The switch of the mouse page was used: it is taken over, and the page greyed out or
/// enabled.
pub fn handle_enable_mouse_toggle(
    cfg: &mut Config,
    ui: &SettingsControls,
    views: &CompanionViews,
    state: i64,
    device_available: bool,
) -> (r: MouseEnabling)
    ensures
        *final(cfg) == (Config {
            mouse: MouseConfig { enabled: state == 1, ..old(cfg).mouse },
            ..*old(cfg)
        }),
        r.device_enabled == (state == 1 && device_available),
        r.device_hint == (state != 1),
        r.others.controls@ == mouse_controls(*ui, *views),
        r.others.enabled == final(cfg).mouse.enabled,
        r.others.hint_key@ == "settings.tooltip_mouse_disabled"@,
{
    cfg.mouse.enabled = state == 1;
    update_mouse_controls_enabled(ui, views, state, device_available)
}

/// The switch of the switcher page was used.
pub fn handle_windows_enabled_toggle(
    cfg: &mut Config,
    ui: &SettingsControls,
    views: &CompanionViews,
    state: i64,
) -> (r: EnablePlan)
    ensures
        *final(cfg) == (Config {
            windows: WindowsConfig { enabled: state == 1, ..old(cfg).windows },
            ..*old(cfg)
        }),
        r.controls@ == windows_controls(*ui, *views),
        r.enabled == final(cfg).windows.enabled,
        r.hint_key@ == "settings.tooltip_windows_disabled"@,
{
    cfg.windows.enabled = state == 1;
    update_windows_controls_enabled(ui, views, state)
}

/// The switch of the clipboard page was used.
pub fn handle_clipboard_enabled_toggle(
    cfg: &mut Config,
    ui: &SettingsControls,
    views: &CompanionViews,
    state: i64,
) -> (r: EnablePlan)
    ensures
        *final(cfg) == (Config {
            clipboard: ClipboardConfig { enabled: state == 1, ..old(cfg).clipboard },
            ..*old(cfg)
        }),
        r.controls@ == clipboard_controls(*ui, *views),
        r.enabled == final(cfg).clipboard.enabled,
        r.hint_key@ == "settings.tooltip_clipboard_disabled"@,
{
    cfg.clipboard.enabled = state == 1;
    update_clipboard_controls_enabled(ui, views, state)
}

/// The switch of the window-control page was used.
pub fn handle_window_control_enabled_toggle(
    cfg: &mut Config,
    ui: &SettingsControls,
    state: i64,
) -> (r: EnablePlan)
    ensures
        *final(cfg) == (Config {
            window_control: WindowControlConfig { enabled: state == 1, ..old(cfg).window_control },
            ..*old(cfg)
        }),
        r.controls@ == window_control_controls(*ui),
        r.enabled == final(cfg).window_control.enabled,
        r.hint_key@ == "settings.tooltip_window_control_disabled"@,
{
    cfg.window_control.enabled = state == 1;
    update_window_control_controls_enabled(ui, state)
}

/// The switch of the quick-actions page was used.
pub fn handle_quick_actions_enabled_toggle(
    cfg: &mut Config,
    ui: &SettingsControls,
    state: i64,
) -> (r: EnablePlan)
    ensures
        *final(cfg) == (Config {
            quick_actions: QuickActionsConfig { enabled: state == 1, ..old(cfg).quick_actions },
            ..*old(cfg)
        }),
        r.controls@ == quick_actions_controls(*ui),
        r.enabled == final(cfg).quick_actions.enabled,
        r.hint_key@ == "settings.tooltip_quick_actions_disabled"@,
{
    cfg.quick_actions.enabled = state == 1;
    update_quick_actions_controls_enabled(ui, state)
}

/// Where no two settings share a control, no switch of a page greys itself out, so
/// that what was switched off can be switched on again.
pub proof fn switches_stay_usable(ui: SettingsControls, views: CompanionViews)
    requires
        ui.distinct(),
        views.pointer_accel_value != ui.enable_mouse,
        views.card_text_size_value != ui.windows_enabled,
        views.status_bar_text_size_value != ui.windows_enabled,
        views.clipboard_auto_expire_days_value != ui.clipboard_enabled,
    ensures
        !mouse_controls(ui, views).contains(ui.enable_mouse),
        !windows_controls(ui, views).contains(ui.windows_enabled),
        !clipboard_controls(ui, views).contains(ui.clipboard_enabled),
        !window_control_controls(ui).contains(ui.window_control_enabled),
        !quick_actions_controls(ui).contains(ui.quick_actions_enabled),
{
    mouse_switch_stays_usable(ui, views);
    windows_switch_stays_usable(ui, views);
    clipboard_switch_stays_usable(ui, views);
    window_control_switch_stays_usable(ui);
    quick_actions_switch_stays_usable(ui);
}

proof fn mouse_switch_stays_usable(ui: SettingsControls, views: CompanionViews)
    requires
        ui.distinct(),
        views.pointer_accel_value != ui.enable_mouse,
    ensures
        !mouse_controls(ui, views).contains(ui.enable_mouse),
{
    let s = ui.id_of(ControlField::MouseEnabled);
    assert(s == ui.enable_mouse);
    assert(ui.id_of(ControlField::ScrollMode) != s);
    assert(ui.id_of(ControlField::LineCount) != s);
    assert(ui.id_of(ControlField::ReverseScroll) != s);
    assert(ui.id_of(ControlField::DisablePointerAccel) != s);
    assert(ui.id_of(ControlField::PointerAcceleration) != s);
}

proof fn windows_switch_stays_usable(ui: SettingsControls, views: CompanionViews)
    requires
        ui.distinct(),
        views.card_text_size_value != ui.windows_enabled,
        views.status_bar_text_size_value != ui.windows_enabled,
    ensures
        !windows_controls(ui, views).contains(ui.windows_enabled),
{
    let s = ui.id_of(ControlField::WindowsEnabled);
    assert(s == ui.windows_enabled);
    assert(ui.id_of(ControlField::ShowMinimized) != s);
    assert(ui.id_of(ControlField::ThumbnailsEnabled) != s);
    assert(ui.id_of(ControlField::FocusedThumbnailPrewarm) != s);
    assert(ui.id_of(ControlField::ShowAppNameInCards) != s);
    assert(ui.id_of(ControlField::CardTextSize) != s);
    assert(ui.id_of(ControlField::StatusBarTextSize) != s);
    assert(ui.id_of(ControlField::OverlayPosition) != s);
    assert(ui.id_of(ControlField::ActivationMode) != s);
    assert(ui.id_of(ControlField::CornerRadius) != s);
    assert(ui.id_of(ControlField::Modifier) != s);
}

proof fn clipboard_switch_stays_usable(ui: SettingsControls, views: CompanionViews)
    requires
        ui.distinct(),
        views.clipboard_auto_expire_days_value != ui.clipboard_enabled,
    ensures
        !clipboard_controls(ui, views).contains(ui.clipboard_enabled),
{
    let s = ui.id_of(ControlField::ClipboardEnabled);
    assert(s == ui.clipboard_enabled);
    assert(ui.id_of(ControlField::ClipboardPinFollow) != s);
    assert(ui.id_of(ControlField::ClipboardPersist) != s);
    assert(ui.id_of(ControlField::ClipboardShowSourceApp) != s);
    assert(ui.id_of(ControlField::ClipboardMoveUsedToTop) != s);
    assert(ui.id_of(ControlField::ClipboardDeleteAfterPaste) != s);
    assert(ui.id_of(ControlField::ClipboardClearSystemPasteboardAfterPaste) != s);
    assert(ui.id_of(ControlField::ClipboardMaxEntries) != s);
    assert(ui.id_of(ControlField::ClipboardAutoExpireDays) != s);
}

proof fn window_control_switch_stays_usable(ui: SettingsControls)
    requires
        ui.distinct(),
    ensures
        !window_control_controls(ui).contains(ui.window_control_enabled),
{
    let s = ui.id_of(ControlField::WindowControlEnabled);
    assert(s == ui.window_control_enabled);
    assert(ui.id_of(ControlField::WindowControlUp) != s);
    assert(ui.id_of(ControlField::WindowControlDown) != s);
    assert(ui.id_of(ControlField::WindowControlLeft) != s);
    assert(ui.id_of(ControlField::WindowControlRight) != s);
    assert(ui.id_of(ControlField::WindowControlDisplayUp) != s);
    assert(ui.id_of(ControlField::WindowControlDisplayDown) != s);
    assert(ui.id_of(ControlField::WindowControlDisplayLeft) != s);
    assert(ui.id_of(ControlField::WindowControlDisplayRight) != s);
}

proof fn quick_actions_switch_stays_usable(ui: SettingsControls)
    requires
        ui.distinct(),
    ensures
        !quick_actions_controls(ui).contains(ui.quick_actions_enabled),
{
    let s = ui.id_of(ControlField::QuickActionsEnabled);
    assert(s == ui.quick_actions_enabled);
    assert(ui.id_of(ControlField::QuickActionOpenSettings) != s);
    assert(ui.id_of(ControlField::QuickActionOpenFinder) != s);
    assert(ui.id_of(ControlField::QuickActionShowDesktop) != s);
    assert(ui.id_of(ControlField::QuickActionLockScreen) != s);
    assert(ui.id_of(ControlField::QuickActionLocatePointer) != s);
}

/// The state that shows whether something is on.
pub open spec fn switch_state(on: bool) -> i64 {
    if on { 1 } else { 0 }
}

fn state_of(on: bool) -> (r: i64)
    ensures
        r == switch_state(on),
{
    if on {
        1
    } else {
        0
    }
}

/// The switches of all pages with the states they have to show. What is greyed out
/// follows from these states.
pub fn refresh_service_controls_from_config(ui: &SettingsControls, cfg: &Config) -> (r: Vec<
    (usize, i64),
>)
    ensures
        r@ == seq![
            (ui.windows_enabled, switch_state(cfg.windows.enabled)),
            (ui.enable_mouse, switch_state(cfg.mouse.enabled)),
            (ui.clipboard_enabled, switch_state(cfg.clipboard.enabled)),
            (ui.window_control_enabled, switch_state(cfg.window_control.enabled)),
            (ui.quick_actions_enabled, switch_state(cfg.quick_actions.enabled)),
        ],
{
    let mut states: Vec<(usize, i64)> = Vec::new();
    states.push((ui.windows_enabled, state_of(cfg.windows.enabled)));
    states.push((ui.enable_mouse, state_of(cfg.mouse.enabled)));
    states.push((ui.clipboard_enabled, state_of(cfg.clipboard.enabled)));
    states.push((ui.window_control_enabled, state_of(cfg.window_control.enabled)));
    states.push((ui.quick_actions_enabled, state_of(cfg.quick_actions.enabled)));
    states
}

/// What the controls of the switcher page have to show.
#[derive(Clone, Copy, Debug, PartialEq, Eq, Structural)]
pub struct SwitcherRefresh {
    pub modifier_index: i64,
    pub thumbnails_index: i64,
    pub prewarm_state: i64,
    pub thumbnail_rows_visible: bool,
}

/// What the controls of the switcher page have to show after a change from outside; a
/// hidden window is left alone.
pub fn refresh_switcher_controls_from_config(cfg: &Config, window_visible: bool) -> (r: Option<
    SwitcherRefresh,
>)
    ensures
        r == if window_visible {
            Some(
                SwitcherRefresh {
                    modifier_index: switch_state(cfg.keyboard.modifier@ == "command"@),
                    thumbnails_index: switch_state(cfg.layout.thumbnails_enabled),
                    prewarm_state: switch_state(cfg.layout.focused_thumbnail_prewarm),
                    thumbnail_rows_visible: cfg.layout.thumbnails_enabled,
                },
            )
        } else {
            None
        },
{
    if !window_visible {
        return None;
    }
    let thumbnails_index = state_of(cfg.layout.thumbnails_enabled);
    Some(
        SwitcherRefresh {
            modifier_index: state_of(same_text(cfg.keyboard.modifier.as_str(), "command")),
            thumbnails_index,
            prewarm_state: state_of(cfg.layout.focused_thumbnail_prewarm),
            thumbnail_rows_visible: update_display_mode_dependent_visibility(thumbnails_index),
        },
    )
}

/// Whether the row of the tracking speed is shown: only while acceleration is off.
pub fn update_pointer_accel_visibility(disable_accel_state: i64) -> (r: bool)
    ensures
        r == (disable_accel_state == 1),
{
    disable_accel_state == 1
}

/// Whether the row of the line count is shown: only in line mode. An unknown choice
/// counts as the default mode.
pub fn update_mode_dependent_visibility(index: i64, scroll_modes: &Vec<String>) -> (r: bool)
    ensures
        r == (dispatch::choice(scroll_modes@, index as int, "default"@) == "line"@),
{
    if index >= 0 && (index as u64) < (scroll_modes.len() as u64) {
        same_text(scroll_modes[index as usize].as_str(), "line")
    } else {
        proof {
            reveal_strlit("default");
            reveal_strlit("line");
            assert("default"@.len() != "line"@.len());
        }
        false
    }
}

/// Whether the rows for thumbnails are shown: only with icons and thumbnails.
pub fn update_display_mode_dependent_visibility(index: i64) -> (r: bool)
    ensures
        r == (index == 1),
{
    index == 1
}

/// Whether the row below "delete after paste" is shown: only while that is on.
pub fn update_clipboard_delete_dependent_visibility(delete_state: i64) -> (r: bool)
    ensures
        r == (delete_state == 1),
{
    delete_state == 1
}

/// What the controls show that rows depend on.
#[derive(Clone, Copy, Debug, PartialEq, Eq, Structural)]
pub struct ConditionReadings {
    pub scroll_mode_index: i64,
    pub disable_accel_state: i64,
    pub thumbnails_index: i64,
    pub delete_after_paste_state: i64,
}

/// Which conditional rows are shown.
#[derive(Clone, Copy, Debug, PartialEq, Eq, Structural)]
pub struct ConditionalRows {
    pub line_count: bool,
    pub pointer_accel: bool,
    pub thumbnail_only: bool,
    pub clipboard_delete: bool,
}

/// Which conditional rows are shown.
pub fn update_conditional_rows(readings: ConditionReadings, scroll_modes: &Vec<String>) -> (r:
    ConditionalRows)
    ensures
        r == (ConditionalRows {
            line_count: dispatch::choice(
                scroll_modes@,
                readings.scroll_mode_index as int,
                "default"@,
            ) == "line"@,
            pointer_accel: readings.disable_accel_state == 1,
            thumbnail_only: readings.thumbnails_index == 1,
            clipboard_delete: readings.delete_after_paste_state == 1,
        }),
{
    ConditionalRows {
        line_count: update_mode_dependent_visibility(readings.scroll_mode_index, scroll_modes),
        pointer_accel: update_pointer_accel_visibility(readings.disable_accel_state),
        thumbnail_only: update_display_mode_dependent_visibility(readings.thumbnails_index),
        clipboard_delete: update_clipboard_delete_dependent_visibility(
            readings.delete_after_paste_state,
        ),
    }
}

/// The selection and its bindings after a choice in the select of the mouse. The
/// configuration itself, and with it the switch of the mouse page, is not touched.
pub fn handle_device_changed(cfg: &Config, keys: &Vec<DeviceKey>, index: i64) -> (r: (
    Option<Option<DeviceKey>>,
    ButtonMap,
))
    requires
        cfg.mouse.valid(),
    ensures
        ({
            let dev = if 0 <= index < keys@.len() { Some(keys@[index as int]) } else { None };
            &&& r.0 == Some(dev)
            &&& r.1.inv()
            &&& r.1@ == profiles::profile_of(cfg.mouse.profiles@, dev).button_mappings
        }),
{
    let selected = device_for_index(keys, index);
    let dev = match selected {
        Some(dev) => dev,
        None => None,
    };
    (selected, mapping_edits_of(cfg, dev))
}

/// Switching a page off greys out every setting of that page but the switch itself: none of
/// its rows can still be used. The switch of the mappings goes with their table.
pub proof fn pages_grey_out_their_settings(
    ui: SettingsControls,
    views: CompanionViews,
    field: ControlField,
)
    requires
        page_contents::place_of(RowTitle::Setting(field)) != 1,
        field != ControlField::MappingEnabled,
    ensures
        ({
            let n = page_contents::stack_with(RowTitle::Setting(field));
            &&& n == 2 ==> windows_controls(ui, views).contains(ui.id_of(field))
            &&& n == 3 ==> mouse_controls(ui, views).contains(ui.id_of(field))
            &&& n == 4 ==> clipboard_controls(ui, views).contains(ui.id_of(field))
            &&& n == 5 ==> window_control_controls(ui).contains(ui.id_of(field))
            &&& n == 6 ==> quick_actions_controls(ui).contains(ui.id_of(field))
        }),
{
    let n = page_contents::stack_with(RowTitle::Setting(field));
    if n == 2 {
        switcher_page_greys_out(ui, views, field);
    } else if n == 3 {
        mouse_page_greys_out(ui, views, field);
    } else if n == 4 {
        clipboard_page_greys_out(ui, views, field);
    } else if n == 5 {
        window_control_page_greys_out(ui, field);
    } else if n == 6 {
        quick_actions_page_greys_out(ui, field);
    }
}

proof fn switcher_page_greys_out(ui: SettingsControls, views: CompanionViews, field: ControlField)
    requires
        page_contents::stack_with(RowTitle::Setting(field)) == 2,
        page_contents::place_of(RowTitle::Setting(field)) != 1,
    ensures
        windows_controls(ui, views).contains(ui.id_of(field)),
{
    assert(windows_controls(ui, views)[0] == ui.id_of(ControlField::ShowMinimized));
    assert(windows_controls(ui, views)[1] == ui.id_of(ControlField::ThumbnailsEnabled));
    assert(windows_controls(ui, views)[2] == ui.id_of(ControlField::FocusedThumbnailPrewarm));
    assert(windows_controls(ui, views)[3] == ui.id_of(ControlField::ShowAppNameInCards));
    assert(windows_controls(ui, views)[4] == ui.id_of(ControlField::CardTextSize));
    assert(windows_controls(ui, views)[6] == ui.id_of(ControlField::StatusBarTextSize));
    assert(windows_controls(ui, views)[8] == ui.id_of(ControlField::OverlayPosition));
    assert(windows_controls(ui, views)[9] == ui.id_of(ControlField::ActivationMode));
    assert(windows_controls(ui, views)[10] == ui.id_of(ControlField::CornerRadius));
    assert(windows_controls(ui, views)[11] == ui.id_of(ControlField::Modifier));
}

proof fn mouse_page_greys_out(ui: SettingsControls, views: CompanionViews, field: ControlField)
    requires
        page_contents::stack_with(RowTitle::Setting(field)) == 3,
        page_contents::place_of(RowTitle::Setting(field)) != 1,
        field != ControlField::MappingEnabled,
    ensures
        mouse_controls(ui, views).contains(ui.id_of(field)),
{
    assert(mouse_controls(ui, views)[0] == ui.id_of(ControlField::ScrollMode));
    assert(mouse_controls(ui, views)[1] == ui.id_of(ControlField::LineCount));
    assert(mouse_controls(ui, views)[2] == ui.id_of(ControlField::ReverseScroll));
    assert(mouse_controls(ui, views)[3] == ui.id_of(ControlField::DisablePointerAccel));
    assert(mouse_controls(ui, views)[4] == ui.id_of(ControlField::PointerAcceleration));
}

proof fn clipboard_page_greys_out(ui: SettingsControls, views: CompanionViews, field: ControlField)
    requires
        page_contents::stack_with(RowTitle::Setting(field)) == 4,
        page_contents::place_of(RowTitle::Setting(field)) != 1,
    ensures
        clipboard_controls(ui, views).contains(ui.id_of(field)),
{
    assert(clipboard_controls(ui, views)[0] == ui.id_of(ControlField::ClipboardPinFollow));
    assert(clipboard_controls(ui, views)[1] == ui.id_of(ControlField::ClipboardPersist));
    assert(clipboard_controls(ui, views)[2] == ui.id_of(ControlField::ClipboardShowSourceApp));
    assert(clipboard_controls(ui, views)[3] == ui.id_of(ControlField::ClipboardMoveUsedToTop));
    assert(clipboard_controls(ui, views)[4] == ui.id_of(ControlField::ClipboardDeleteAfterPaste));
    assert(clipboard_controls(ui, views)[5] == ui.id_of(ControlField::ClipboardClearSystemPasteboardAfterPaste));
    assert(clipboard_controls(ui, views)[6] == ui.id_of(ControlField::ClipboardMaxEntries));
    assert(clipboard_controls(ui, views)[7] == ui.id_of(ControlField::ClipboardAutoExpireDays));
}

proof fn window_control_page_greys_out(ui: SettingsControls, field: ControlField)
    requires
        page_contents::stack_with(RowTitle::Setting(field)) == 5,
        page_contents::place_of(RowTitle::Setting(field)) != 1,
    ensures
        window_control_controls(ui).contains(ui.id_of(field)),
{
    assert(window_control_controls(ui)[0] == ui.id_of(ControlField::WindowControlUp));
    assert(window_control_controls(ui)[1] == ui.id_of(ControlField::WindowControlDown));
    assert(window_control_controls(ui)[2] == ui.id_of(ControlField::WindowControlLeft));
    assert(window_control_controls(ui)[3] == ui.id_of(ControlField::WindowControlRight));
    assert(window_control_controls(ui)[4] == ui.id_of(ControlField::WindowControlDisplayUp));
    assert(window_control_controls(ui)[5] == ui.id_of(ControlField::WindowControlDisplayDown));
    assert(window_control_controls(ui)[6] == ui.id_of(ControlField::WindowControlDisplayLeft));
    assert(window_control_controls(ui)[7] == ui.id_of(ControlField::WindowControlDisplayRight));
}

proof fn quick_actions_page_greys_out(ui: SettingsControls, field: ControlField)
    requires
        page_contents::stack_with(RowTitle::Setting(field)) == 6,
        page_contents::place_of(RowTitle::Setting(field)) != 1,
    ensures
        quick_actions_controls(ui).contains(ui.id_of(field)),
{
    assert(quick_actions_controls(ui)[0] == ui.id_of(ControlField::QuickActionOpenSettings));
    assert(quick_actions_controls(ui)[1] == ui.id_of(ControlField::QuickActionOpenFinder));
    assert(quick_actions_controls(ui)[2] == ui.id_of(ControlField::QuickActionShowDesktop));
    assert(quick_actions_controls(ui)[3] == ui.id_of(ControlField::QuickActionLockScreen));
    assert(quick_actions_controls(ui)[4] == ui.id_of(ControlField::QuickActionLocatePointer));
}

/// Nothing is greyed out with a page but its settings and the values beside its sliders, and
/// nothing twice: there are as many as the page has of both.
pub proof fn pages_grey_out_nothing_else(ui: SettingsControls, views: CompanionViews)
    ensures
        mouse_controls(ui, views).len() == 6,
        mouse_controls(ui, views).contains(views.pointer_accel_value),
        windows_controls(ui, views).len() == 12,
        windows_controls(ui, views).contains(views.card_text_size_value),
        windows_controls(ui, views).contains(views.status_bar_text_size_value),
        clipboard_controls(ui, views).len() == 9,
        clipboard_controls(ui, views).contains(views.clipboard_auto_expire_days_value),
        window_control_controls(ui).len() == 8,
        quick_actions_controls(ui).len() == 5,
{
    assert(mouse_controls(ui, views)[5] == views.pointer_accel_value);
    assert(windows_controls(ui, views)[5] == views.card_text_size_value);
    assert(windows_controls(ui, views)[7] == views.status_bar_text_size_value);
    assert(clipboard_controls(ui, views)[8] == views.clipboard_auto_expire_days_value);
}

/// Each slider has the label beside it, and nothing but a slider has one.
pub proof fn sliders_have_their_readouts(
    ui: SettingsControls,
    views: CompanionViews,
    field: ControlField,
)
    requires
        ui.distinct(),
    ensures
        readout_label(ui, views, ui.id_of(field)) == match field {
            ControlField::LineCount => Some(views.line_count_value),
            ControlField::CardTextSize => Some(views.card_text_size_value),
            ControlField::StatusBarTextSize => Some(views.status_bar_text_size_value),
            ControlField::ClipboardAutoExpireDays => Some(views.clipboard_auto_expire_days_value),
            ControlField::PointerAcceleration => Some(views.pointer_accel_value),
            _ => None,
        },
        readout_label(ui, views, ui.id_of(field)) is Some <==> page_contents::control_for(
            RowTitle::Setting(field),
        ) == crate::page_rows::RowControl::Slider,
{
    assert(ui.id_of(ControlField::LineCount) == ui.line_count);
    assert(ui.id_of(ControlField::CardTextSize) == ui.card_text_size);
    assert(ui.id_of(ControlField::StatusBarTextSize) == ui.status_bar_text_size);
    assert(ui.id_of(ControlField::ClipboardAutoExpireDays) == ui.clipboard_auto_expire_days);
    assert(ui.id_of(ControlField::PointerAcceleration) == ui.pointer_accel_slider);
}

/// What is read beside a slider is its value: a whole number as it is, and the tracking speed
/// with its two decimals, as it is stored.
pub proof fn readouts_say_the_value(
    ui: SettingsControls,
    field: ControlField,
    reading: ControlReading,
    tables: ChoiceTables,
)
    requires
        ui.distinct(),
    ensures
        ({
            let said = readout_text(ui, ui.id_of(field), reading, tables);
            &&& (field == ControlField::LineCount || field == ControlField::CardTextSize || field
                == ControlField::StatusBarTextSize || field
                == ControlField::ClipboardAutoExpireDays) && reading.number >= 0 ==> said
                == text::decimal(reading.number as nat)
            &&& field == ControlField::PointerAcceleration && reading.speed is Some ==> {
                let stored = dispatch::speed_of(reading.speed, tables.fallback_speed);
                let n = said.len() as int;
                &&& n == text::decimal((stored / 100) as nat).len() + 3
                &&& said[n - 3] == '.'
                &&& said.take(n - 3) == text::decimal((stored / 100) as nat)
                &&& said[n - 2] == text::digit_char(stored % 100 / 10)
                &&& said[n - 1] == text::digit_char(stored % 10)
            }
        }),
{
    assert(ui.id_of(ControlField::LineCount) == ui.line_count);
    assert(ui.id_of(ControlField::CardTextSize) == ui.card_text_size);
    assert(ui.id_of(ControlField::StatusBarTextSize) == ui.status_bar_text_size);
    assert(ui.id_of(ControlField::ClipboardAutoExpireDays) == ui.clipboard_auto_expire_days);
    assert(ui.id_of(ControlField::PointerAcceleration) == ui.pointer_accel_slider);
    let stored = dispatch::speed_of(reading.speed, tables.fallback_speed);
    if field == ControlField::PointerAcceleration && reading.speed is Some {
        let said = readout_text(ui, ui.id_of(field), reading, tables);
        assert(said.take(said.len() - 3) =~= text::decimal((stored / 100) as nat));
        assert(stored % 100 % 10 == stored % 10);
    }
}

/// The state of a switch is what its control reads when it is on.
pub proof fn states_tell_on_from_off(on: bool)
    ensures
        (switch_state(on) == 1) == on,
        (switch_state(on) == 0) == !on,
{
}

} // verus!
