//! The rows and cards of the settings pages, and the planner that stacks them.
use vstd::prelude::*;

use crate::dispatch::ControlField;
use crate::geometry::{Rect, Size};
use crate::layout::{add_row_separator, RowKind, SettingsLayout};
use crate::widgets::make_switch;
#[allow(unused_imports)]
use crate::layout::SINGLE_LINE_ROW_H;
#[allow(unused_imports)]
use crate::widgets::{HTML_SWITCH_H, HTML_SWITCH_W};
#[allow(unused_imports)]
use crate::{geometry, layout};

verus! {

/// What a row is about.
#[derive(Clone, Copy, Debug, PartialEq, Eq, Structural)]
pub enum RowTitle {
    /// A setting.
    Setting(ControlField),
    /// The select of the mouse.
    Device,
    /// Exporting the log.
    ExportLogs,
    /// Opening the guide.
    ViewGuide,
    /// The web site.
    Website,
    /// The source repository.
    Github,
    /// The version.
    Version,
    /// The accessibility permission.
    Accessibility,
    /// The screen-recording permission.
    ScreenRecording,
}

/// The heading of a card.
#[derive(Clone, Copy, Debug, PartialEq, Eq, Structural)]
pub enum SectionTitle {
    Appearance,
    Preview,
    Language,
    Logging,
    Startup,
    Windows,
    WindowOptions,
    Keyboard,
    Mouse,
    MouseDevice,
    MouseScrolling,
    MousePointer,
    MouseMappings,
    Clipboard,
    ClipboardOptions,
    WindowControl,
    WindowControlShortcuts,
    QuickActions,
    QuickActionsShortcuts,
    App,
    Permissions,
    Updates,
}

/// The text of a setting's row.
pub open spec fn setting_title(field: ControlField) -> Seq<char> {
    match field {
        ControlField::Theme => "settings.row_theme"@,
        ControlField::GlassStyle => "settings.row_glass_style"@,
        ControlField::GlassTint => "settings.row_glass_tint"@,
        ControlField::Locale => "settings.row_locale"@,
        ControlField::LogLevel => "settings.row_log_level"@,
        ControlField::LaunchAtLogin => "settings.row_launch_at_login"@,
        ControlField::WindowsEnabled => "settings.row_windows_enabled"@,
        ControlField::ShowMinimized => "settings.row_show_minimized"@,
        ControlField::ThumbnailsEnabled => "settings.row_window_display_mode"@,
        ControlField::FocusedThumbnailPrewarm => "settings.row_focused_thumbnail_prewarm"@,
        ControlField::ShowAppNameInCards => "settings.row_show_app_name_in_cards"@,
        ControlField::CardTextSize => "settings.row_card_text_size"@,
        ControlField::StatusBarTextSize => "settings.row_status_bar_text_size"@,
        ControlField::OverlayPosition => "settings.row_overlay_position"@,
        ControlField::ActivationMode => "settings.row_activation_mode"@,
        ControlField::CornerRadius => "settings.row_corner_radius"@,
        ControlField::Modifier => "settings.row_modifier"@,
        ControlField::MouseEnabled => "settings.row_enable_mouse"@,
        ControlField::ReverseScroll => "settings.row_reverse_scroll"@,
        ControlField::ScrollMode => "settings.row_scroll_mode"@,
        ControlField::LineCount => "settings.row_line_count"@,
        ControlField::DisablePointerAccel => "settings.row_disable_pointer_accel"@,
        ControlField::PointerAcceleration => "settings.row_pointer_tracking_speed"@,
        ControlField::MappingEnabled => "settings.row_mapping_enable"@,
        ControlField::ClipboardEnabled => "settings.row_clipboard_enabled"@,
        ControlField::ClipboardPersist => "settings.row_clipboard_persist"@,
        ControlField::ClipboardShowSourceApp => "settings.row_clipboard_show_source_app"@,
        ControlField::ClipboardMoveUsedToTop => "settings.row_clipboard_move_used_to_top"@,
        ControlField::ClipboardDeleteAfterPaste => "settings.row_clipboard_delete_after_paste"@,
        ControlField::ClipboardClearSystemPasteboardAfterPaste => "settings.row_clipboard_clear_system_pasteboard_after_paste"@,
        ControlField::ClipboardMaxEntries => "settings.row_clipboard_max_entries"@,
        ControlField::ClipboardAutoExpireDays => "settings.row_clipboard_auto_expire_days"@,
        ControlField::ClipboardPinFollow => "settings.row_clipboard_pin_follow"@,
        ControlField::WindowControlEnabled => "settings.row_window_control_enabled"@,
        ControlField::WindowControlUp => "settings.row_window_control_up"@,
        ControlField::WindowControlDown => "settings.row_window_control_down"@,
        ControlField::WindowControlLeft => "settings.row_window_control_left"@,
        ControlField::WindowControlRight => "settings.row_window_control_right"@,
        ControlField::WindowControlDisplayUp => "settings.row_window_control_display_up"@,
        ControlField::WindowControlDisplayDown => "settings.row_window_control_display_down"@,
        ControlField::WindowControlDisplayLeft => "settings.row_window_control_display_left"@,
        ControlField::WindowControlDisplayRight => "settings.row_window_control_display_right"@,
        ControlField::QuickActionsEnabled => "settings.row_quick_actions_enabled"@,
        ControlField::QuickActionOpenSettings => "settings.row_quick_action_open_settings"@,
        ControlField::QuickActionOpenFinder => "settings.row_quick_action_open_finder"@,
        ControlField::QuickActionShowDesktop => "settings.row_quick_action_show_desktop"@,
        ControlField::QuickActionLockScreen => "settings.row_quick_action_lock_screen"@,
        ControlField::QuickActionLocatePointer => "settings.row_quick_action_locate_pointer"@,
        ControlField::UpdateAutoCheck => "settings.row_update_auto_check"@,
        ControlField::UpdateAutoDownload => "settings.row_update_auto_download"@,
    }
}

fn setting_title_key(field: ControlField) -> (r: &'static str)
    ensures
        r@ == setting_title(field),
{
    match field {
        ControlField::Theme => "settings.row_theme",
        ControlField::GlassStyle => "settings.row_glass_style",
        ControlField::GlassTint => "settings.row_glass_tint",
        ControlField::Locale => "settings.row_locale",
        ControlField::LogLevel => "settings.row_log_level",
        ControlField::LaunchAtLogin => "settings.row_launch_at_login",
        ControlField::WindowsEnabled => "settings.row_windows_enabled",
        ControlField::ShowMinimized => "settings.row_show_minimized",
        ControlField::ThumbnailsEnabled => "settings.row_window_display_mode",
        ControlField::FocusedThumbnailPrewarm => "settings.row_focused_thumbnail_prewarm",
        ControlField::ShowAppNameInCards => "settings.row_show_app_name_in_cards",
        ControlField::CardTextSize => "settings.row_card_text_size",
        ControlField::StatusBarTextSize => "settings.row_status_bar_text_size",
        ControlField::OverlayPosition => "settings.row_overlay_position",
        ControlField::ActivationMode => "settings.row_activation_mode",
        ControlField::CornerRadius => "settings.row_corner_radius",
        ControlField::Modifier => "settings.row_modifier",
        ControlField::MouseEnabled => "settings.row_enable_mouse",
        ControlField::ReverseScroll => "settings.row_reverse_scroll",
        ControlField::ScrollMode => "settings.row_scroll_mode",
        ControlField::LineCount => "settings.row_line_count",
        ControlField::DisablePointerAccel => "settings.row_disable_pointer_accel",
        ControlField::PointerAcceleration => "settings.row_pointer_tracking_speed",
        ControlField::MappingEnabled => "settings.row_mapping_enable",
        ControlField::ClipboardEnabled => "settings.row_clipboard_enabled",
        ControlField::ClipboardPersist => "settings.row_clipboard_persist",
        ControlField::ClipboardShowSourceApp => "settings.row_clipboard_show_source_app",
        ControlField::ClipboardMoveUsedToTop => "settings.row_clipboard_move_used_to_top",
        ControlField::ClipboardDeleteAfterPaste => "settings.row_clipboard_delete_after_paste",
        ControlField::ClipboardClearSystemPasteboardAfterPaste => "settings.row_clipboard_clear_system_pasteboard_after_paste",
        ControlField::ClipboardMaxEntries => "settings.row_clipboard_max_entries",
        ControlField::ClipboardAutoExpireDays => "settings.row_clipboard_auto_expire_days",
        ControlField::ClipboardPinFollow => "settings.row_clipboard_pin_follow",
        ControlField::WindowControlEnabled => "settings.row_window_control_enabled",
        ControlField::WindowControlUp => "settings.row_window_control_up",
        ControlField::WindowControlDown => "settings.row_window_control_down",
        ControlField::WindowControlLeft => "settings.row_window_control_left",
        ControlField::WindowControlRight => "settings.row_window_control_right",
        ControlField::WindowControlDisplayUp => "settings.row_window_control_display_up",
        ControlField::WindowControlDisplayDown => "settings.row_window_control_display_down",
        ControlField::WindowControlDisplayLeft => "settings.row_window_control_display_left",
        ControlField::WindowControlDisplayRight => "settings.row_window_control_display_right",
        ControlField::QuickActionsEnabled => "settings.row_quick_actions_enabled",
        ControlField::QuickActionOpenSettings => "settings.row_quick_action_open_settings",
        ControlField::QuickActionOpenFinder => "settings.row_quick_action_open_finder",
        ControlField::QuickActionShowDesktop => "settings.row_quick_action_show_desktop",
        ControlField::QuickActionLockScreen => "settings.row_quick_action_lock_screen",
        ControlField::QuickActionLocatePointer => "settings.row_quick_action_locate_pointer",
        ControlField::UpdateAutoCheck => "settings.row_update_auto_check",
        ControlField::UpdateAutoDownload => "settings.row_update_auto_download",
    }
}

impl RowTitle {
    /// The text of a row.
    pub open spec fn text(self) -> Seq<char> {
        match self {
            RowTitle::Setting(field) => setting_title(field),
            RowTitle::Device => "settings.header_mouse_device"@,
            RowTitle::ExportLogs => "settings.row_export_logs"@,
            RowTitle::ViewGuide => "settings.row_view_guide"@,
            RowTitle::Website => "settings.website_label"@,
            RowTitle::Github => "settings.github_label"@,
            RowTitle::Version => "settings.version_label_short"@,
            RowTitle::Accessibility => "settings.permission_accessibility_label"@,
            RowTitle::ScreenRecording => "settings.permission_screen_recording_label"@,
        }
    }

    /// The text of a row.
    pub fn key(self) -> (r: &'static str)
        ensures
            r@ == self.text(),
    {
        match self {
            RowTitle::Setting(field) => setting_title_key(field),
            RowTitle::Device => "settings.header_mouse_device",
            RowTitle::ExportLogs => "settings.row_export_logs",
            RowTitle::ViewGuide => "settings.row_view_guide",
            RowTitle::Website => "settings.website_label",
            RowTitle::Github => "settings.github_label",
            RowTitle::Version => "settings.version_label_short",
            RowTitle::Accessibility => "settings.permission_accessibility_label",
            RowTitle::ScreenRecording => "settings.permission_screen_recording_label",
        }
    }
}

impl SectionTitle {
    /// The text of a heading.
    pub open spec fn text(self) -> Seq<char> {
        match self {
            SectionTitle::Appearance => "settings.header_appearance"@,
            SectionTitle::Preview => "settings.header_preview"@,
            SectionTitle::Language => "settings.header_language"@,
            SectionTitle::Logging => "settings.header_logging"@,
            SectionTitle::Startup => "settings.header_startup"@,
            SectionTitle::Windows => "settings.header_windows"@,
            SectionTitle::WindowOptions => "settings.header_window_options"@,
            SectionTitle::Keyboard => "settings.header_keyboard"@,
            SectionTitle::Mouse => "settings.header_mouse"@,
            SectionTitle::MouseDevice => "settings.header_mouse_device"@,
            SectionTitle::MouseScrolling => "settings.header_mouse_scrolling"@,
            SectionTitle::MousePointer => "settings.header_mouse_pointer"@,
            SectionTitle::MouseMappings => "settings.header_mouse_mappings"@,
            SectionTitle::Clipboard => "settings.header_clipboard"@,
            SectionTitle::ClipboardOptions => "settings.header_clipboard_options"@,
            SectionTitle::WindowControl => "settings.header_window_control"@,
            SectionTitle::WindowControlShortcuts => "settings.header_window_control_shortcuts"@,
            SectionTitle::QuickActions => "settings.header_quick_actions"@,
            SectionTitle::QuickActionsShortcuts => "settings.header_quick_actions_shortcuts"@,
            SectionTitle::App => "settings.section_app"@,
            SectionTitle::Permissions => "settings.section_permissions"@,
            SectionTitle::Updates => "settings.section_updates"@,
        }
    }

    /// The text of a heading.
    pub fn key(self) -> (r: &'static str)
        ensures
            r@ == self.text(),
    {
        match self {
            SectionTitle::Appearance => "settings.header_appearance",
            SectionTitle::Preview => "settings.header_preview",
            SectionTitle::Language => "settings.header_language",
            SectionTitle::Logging => "settings.header_logging",
            SectionTitle::Startup => "settings.header_startup",
            SectionTitle::Windows => "settings.header_windows",
            SectionTitle::WindowOptions => "settings.header_window_options",
            SectionTitle::Keyboard => "settings.header_keyboard",
            SectionTitle::Mouse => "settings.header_mouse",
            SectionTitle::MouseDevice => "settings.header_mouse_device",
            SectionTitle::MouseScrolling => "settings.header_mouse_scrolling",
            SectionTitle::MousePointer => "settings.header_mouse_pointer",
            SectionTitle::MouseMappings => "settings.header_mouse_mappings",
            SectionTitle::Clipboard => "settings.header_clipboard",
            SectionTitle::ClipboardOptions => "settings.header_clipboard_options",
            SectionTitle::WindowControl => "settings.header_window_control",
            SectionTitle::WindowControlShortcuts => "settings.header_window_control_shortcuts",
            SectionTitle::QuickActions => "settings.header_quick_actions",
            SectionTitle::QuickActionsShortcuts => "settings.header_quick_actions_shortcuts",
            SectionTitle::App => "settings.section_app",
            SectionTitle::Permissions => "settings.section_permissions",
            SectionTitle::Updates => "settings.section_updates",
        }
    }
}

/// Heights that a select needs for its options.
#[derive(Clone, Copy, Debug, PartialEq, Eq, Structural)]
pub struct SelectMetrics {
    pub row_h: i64,
    pub control_h: i64,
}

impl SelectMetrics {
    pub open spec fn valid(self) -> bool {
        geometry::small(self.row_h as int) && geometry::small(self.control_h as int)
    }
}

/// Heights of all selects.
#[derive(Clone, Copy, Debug, PartialEq, Eq, Structural)]
pub struct SelectTable {
    pub theme: SelectMetrics,
    pub glass_style: SelectMetrics,
    pub locale: SelectMetrics,
    pub log_level: SelectMetrics,
    pub display_mode: SelectMetrics,
    pub overlay_position: SelectMetrics,
    pub activation_mode: SelectMetrics,
    pub modifier: SelectMetrics,
    pub scroll_mode: SelectMetrics,
    pub pin_follow: SelectMetrics,
    pub device: SelectMetrics,
}

impl SelectTable {
    pub open spec fn valid(self) -> bool {
        &&& self.theme.valid()
        &&& self.glass_style.valid()
        &&& self.locale.valid()
        &&& self.log_level.valid()
        &&& self.display_mode.valid()
        &&& self.overlay_position.valid()
        &&& self.activation_mode.valid()
        &&& self.modifier.valid()
        &&& self.scroll_mode.valid()
        &&& self.pin_follow.valid()
        &&& self.device.valid()
    }

    /// The heights of the select in a row; a row without select needs none.
    pub open spec fn of(self, title: RowTitle) -> SelectMetrics {
        match title {
            RowTitle::Setting(ControlField::Theme) => self.theme,
            RowTitle::Setting(ControlField::GlassStyle) => self.glass_style,
            RowTitle::Setting(ControlField::Locale) => self.locale,
            RowTitle::Setting(ControlField::LogLevel) => self.log_level,
            RowTitle::Setting(ControlField::ThumbnailsEnabled) => self.display_mode,
            RowTitle::Setting(ControlField::OverlayPosition) => self.overlay_position,
            RowTitle::Setting(ControlField::ActivationMode) => self.activation_mode,
            RowTitle::Setting(ControlField::Modifier) => self.modifier,
            RowTitle::Setting(ControlField::ScrollMode) => self.scroll_mode,
            RowTitle::Setting(ControlField::ClipboardPinFollow) => self.pin_follow,
            RowTitle::Device => self.device,
            _ => SelectMetrics { row_h: 0, control_h: 0 },
        }
    }

    fn metrics(&self, title: RowTitle) -> (r: SelectMetrics)
        ensures
            r == self.of(title),
    {
        match title {
            RowTitle::Setting(ControlField::Theme) => self.theme,
            RowTitle::Setting(ControlField::GlassStyle) => self.glass_style,
            RowTitle::Setting(ControlField::Locale) => self.locale,
            RowTitle::Setting(ControlField::LogLevel) => self.log_level,
            RowTitle::Setting(ControlField::ThumbnailsEnabled) => self.display_mode,
            RowTitle::Setting(ControlField::OverlayPosition) => self.overlay_position,
            RowTitle::Setting(ControlField::ActivationMode) => self.activation_mode,
            RowTitle::Setting(ControlField::Modifier) => self.modifier,
            RowTitle::Setting(ControlField::ScrollMode) => self.scroll_mode,
            RowTitle::Setting(ControlField::ClipboardPinFollow) => self.pin_follow,
            RowTitle::Device => self.device,
            _ => SelectMetrics { row_h: 0, control_h: 0 },
        }
    }
}

/// The control of a row.
#[derive(Clone, Copy, Debug, PartialEq, Eq, Structural)]
pub enum RowControl {
    Switch,
    Popup,
    Slider,
    TextInput,
    ColorWell,
    ActionButton,
    /// A link in the value column.
    Link,
    /// The version in the value column.
    Value,
    /// The state of a permission, with room for a button beside it.
    Status,
}

/// How wide the label of a row is.
#[derive(Clone, Copy, Debug, PartialEq, Eq, Structural)]
pub enum LabelWidth {
    /// 220 points.
    Wide,
    /// The label column.
    Column,
    /// Up to the control column.
    BeforeControl,
    /// Indented below the row before it, up to the control column.
    Indented,
    /// Up to the switch of starting at login.
    BeforeLoginSwitch,
    /// Up to a switch of the updates.
    BeforeUpdateSwitch,
}

/// The line above a row.
#[derive(Clone, Copy, Debug, PartialEq, Eq, Structural)]
pub enum RowDivider {
    Missing,
    /// In the gap above the row.
    Above,
    /// On the upper edge of the row.
    Edge,
}

/// Rows that come and go together.
#[derive(Clone, Copy, Debug, PartialEq, Eq, Structural)]
pub enum RowBlock {
    ThumbnailOnly,
    LineCount,
    PointerAccel,
    ClipboardDelete,
}

/// A row of a page.
#[derive(Clone, Copy, Debug, PartialEq, Eq, Structural)]
pub struct PageRow {
    pub title: RowTitle,
    pub kind: RowKind,
    pub control: RowControl,
    pub label: LabelWidth,
    /// The row follows the one before it without a gap.
    pub flush: bool,
    pub divider: RowDivider,
    pub block: Option<RowBlock>,
}

/// A row with a gap above it, no line, and always shown.
pub open spec fn plain_row(
    title: RowTitle,
    kind: RowKind,
    control: RowControl,
    label: LabelWidth,
) -> PageRow {
    PageRow {
        title,
        kind,
        control,
        label,
        flush: false,
        divider: RowDivider::Missing,
        block: None,
    }
}

/// A row with a gap above it, no line, and always shown.
#[verifier::when_used_as_spec(plain_row)]
pub fn row(title: RowTitle, kind: RowKind, control: RowControl, label: LabelWidth) -> (r: PageRow)
    ensures
        r == plain_row(title, kind, control, label),
{
    PageRow {
        title,
        kind,
        control,
        label,
        flush: false,
        divider: RowDivider::Missing,
        block: None,
    }
}

/// The row of a setting with a switch, whose label ends before the control.
pub open spec fn plain_switch_row(field: ControlField) -> PageRow {
    plain_row(
        RowTitle::Setting(field),
        RowKind::Described,
        RowControl::Switch,
        LabelWidth::BeforeControl,
    )
}

/// The row of a setting with a switch, whose label ends before the control.
#[verifier::when_used_as_spec(plain_switch_row)]
pub fn switch_row(field: ControlField) -> (r: PageRow)
    ensures
        r == plain_switch_row(field),
{
    row(
        RowTitle::Setting(field),
        RowKind::Described,
        RowControl::Switch,
        LabelWidth::BeforeControl,
    )
}

impl PageRow {
    pub open spec fn with_line(self) -> PageRow {
        PageRow { divider: RowDivider::Above, ..self }
    }

    /// The row with a line above it.
    #[verifier::when_used_as_spec(with_line)]
    pub fn divided(self) -> (r: PageRow)
        ensures
            r == self.with_line(),
    {
        PageRow { divider: RowDivider::Above, ..self }
    }

    pub open spec fn without_gap(self) -> PageRow {
        PageRow { flush: true, divider: RowDivider::Edge, ..self }
    }

    /// The row without a gap, with a line on its upper edge.
    #[verifier::when_used_as_spec(without_gap)]
    pub fn flush_below(self) -> (r: PageRow)
        ensures
            r == self.without_gap(),
    {
        PageRow { flush: true, divider: RowDivider::Edge, ..self }
    }

    pub open spec fn with_block(self, block: RowBlock) -> PageRow {
        PageRow { block: Some(block), ..self }
    }

    /// The row as part of a block.
    #[verifier::when_used_as_spec(with_block)]
    pub fn in_block(self, block: RowBlock) -> (r: PageRow)
        ensures
            r == self.with_block(block),
    {
        PageRow { block: Some(block), ..self }
    }
}

/// What a page is made of, from the top down.
#[derive(Clone, Copy, Debug, PartialEq, Eq, Structural)]
pub enum PageItem {
    /// The first heading of a page.
    FirstHeading,
    /// A further heading.
    Heading,
    Row(PageRow),
    /// The card round the rows since the last heading.
    Card(SectionTitle),
}

/// Everything that the places of rows depend on.
#[derive(Clone, Copy, Debug, PartialEq, Eq, Structural)]
pub struct PageEnv {
    pub content_w: i64,
    pub layout: SettingsLayout,
    /// How far above its row a line is drawn.
    pub divider_rise: i64,
    /// Width of a slider that leaves room for its value.
    pub slider_w: i64,
    /// Size of a button in a row.
    pub action_button: Size,
    pub selects: SelectTable,
}

impl PageEnv {
    pub open spec fn valid(self) -> bool {
        &&& geometry::small(self.content_w as int)
        &&& geometry::small(self.layout.label_x as int)
        &&& geometry::small(self.layout.label_w as int)
        &&& geometry::small(self.layout.control_x as int)
        &&& geometry::small(self.layout.control_w as int)
        &&& geometry::small(self.layout.row_h as int)
        &&& self.layout.described_row_h == SINGLE_LINE_ROW_H
        &&& geometry::small(self.layout.section_step as int)
        &&& geometry::small(self.layout.row_gap as int)
        &&& geometry::small(self.layout.card_bottom_inset as int)
        &&& geometry::small(self.layout.card_header_gap as int)
        &&& geometry::small(self.layout.card_padding as int)
        &&& geometry::small(self.divider_rise as int)
        &&& geometry::small(self.slider_w as int)
        &&& geometry::small(self.action_button.w as int)
        &&& geometry::small(self.action_button.h as int)
        &&& self.selects.valid()
    }

    /// The left edge of the value column of the about page.
    pub open spec fn value_x(self) -> int {
        self.layout.label_x + 145_000
    }

    /// The width of the value column of the about page.
    pub open spec fn value_w(self) -> int {
        geometry::max_of(self.content_w - 2 * self.layout.label_x - 145_000, 1_000)
    }

    /// The width of the state of a permission.
    pub open spec fn status_w(self) -> int {
        self.layout.control_w - self.action_button.w - 8_000
    }
}

/// The height of a row: a select may need more than one line.
pub open spec fn row_height(row: PageRow, env: PageEnv) -> int {
    if row.control == RowControl::Popup {
        env.selects.of(row.title).row_h as int
    } else {
        env.layout.described_row_h as int
    }
}

/// What a row takes of the page, with the gap above it.
pub open spec fn row_step(row: PageRow, env: PageEnv) -> int {
    row_height(row, env) + if row.flush { 0 } else { env.layout.row_gap as int }
}

/// Left edge and width of the label of a row.
pub open spec fn label_span(row: PageRow, env: PageEnv) -> (int, int) {
    let l = env.layout;
    match row.label {
        LabelWidth::Wide => (l.label_x as int, 220_000),
        LabelWidth::Column => (l.label_x as int, l.label_w as int),
        LabelWidth::BeforeControl => (l.label_x as int, l.control_x - l.label_x - 18_000),
        LabelWidth::Indented => (l.label_x + 18_000, l.control_x - l.label_x - 36_000),
        LabelWidth::BeforeLoginSwitch => (
            l.label_x as int,
            env.content_w - 2 * l.label_x - 58_000,
        ),
        LabelWidth::BeforeUpdateSwitch => (
            l.label_x as int,
            l.control_x + l.control_w - l.label_x - 70_000,
        ),
    }
}

/// Left edge, width and height of the control of a row.
pub open spec fn control_span(row: PageRow, env: PageEnv) -> (int, int, int) {
    let l = env.layout;
    match row.control {
        RowControl::Switch => (
            l.control_x + l.control_w - HTML_SWITCH_W,
            HTML_SWITCH_W as int,
            HTML_SWITCH_H as int,
        ),
        RowControl::Popup => (
            l.control_x as int,
            l.control_w as int,
            env.selects.of(row.title).control_h as int,
        ),
        RowControl::Slider => (l.control_x as int, env.slider_w as int, l.row_h as int),
        RowControl::TextInput => (l.control_x as int, l.control_w as int, l.row_h as int),
        RowControl::ColorWell => (l.control_x + l.control_w - 52_000, 52_000, l.row_h as int),
        RowControl::ActionButton => (
            l.control_x + l.control_w - env.action_button.w,
            env.action_button.w as int,
            env.action_button.h as int,
        ),
        RowControl::Link => (env.value_x(), env.value_w(), l.row_h as int),
        RowControl::Value => (env.value_x(), 120_000, l.row_h as int),
        RowControl::Status => (l.control_x as int, env.status_w(), l.row_h as int),
    }
}

/// A row in its place. Label and control are centred in it once their heights are
/// known.
#[derive(Clone, Copy, Debug, PartialEq, Eq, Structural)]
pub struct PlacedRow {
    pub row: PageRow,
    pub y: i64,
    pub h: i64,
    pub label_x: i64,
    pub label_w: i64,
    /// The control at the bottom of the row.
    pub control: Rect,
    pub divider: Option<Rect>,
}

impl PlacedRow {
    pub open spec fn top(self) -> int {
        self.y + self.h
    }
}

/// A row whose lower edge is at `y`.
pub open spec fn placed(row: PageRow, env: PageEnv, y: int) -> PlacedRow {
    let h = row_height(row, env);
    let (label_x, label_w) = label_span(row, env);
    let (control_x, control_w, control_h) = control_span(row, env);
    PlacedRow {
        row,
        y: y as i64,
        h: h as i64,
        label_x: label_x as i64,
        label_w: label_w as i64,
        control: Rect {
            x: control_x as i64,
            y: y as i64,
            w: control_w as i64,
            h: control_h as i64,
        },
        divider: match row.divider {
            RowDivider::Missing => None,
            RowDivider::Above => Some(
                layout::separator_line(0, y + h + env.divider_rise, env.content_w as int),
            ),
            RowDivider::Edge => Some(layout::separator_line(0, y + h, env.content_w as int)),
        },
    }
}

/// A card with its heading.
#[derive(Clone, Copy, Debug, PartialEq, Eq, Structural)]
pub struct PlacedCard {
    pub title: SectionTitle,
    /// What heading and card are attached to.
    pub frame: Rect,
}

/// The card from a heading down to a bottom edge.
pub open spec fn card_between(
    title: SectionTitle,
    env: PageEnv,
    header: int,
    bottom: int,
) -> PlacedCard {
    PlacedCard {
        title,
        frame: Rect {
            x: 6_000,
            y: bottom as i64,
            w: (env.content_w - 12_000) as i64,
            h: (header - env.layout.card_header_gap - bottom) as i64,
        },
    }
}

/// The cursor and the last heading after the first `i` items.
pub open spec fn cursor_at(items: Seq<PageItem>, env: PageEnv, start: int, i: int) -> (int, int)
    decreases i,
{
    if i <= 0 {
        (start, start)
    } else {
        let (y, header) = cursor_at(items, env, start, i - 1);
        match items[i - 1] {
            PageItem::FirstHeading => (y, y),
            PageItem::Heading => (y - env.layout.section_step, y - env.layout.section_step),
            PageItem::Row(row) => (y - row_step(row, env), header),
            PageItem::Card(_) => (y, header),
        }
    }
}

/// The rows among the first `i` items, in their places.
pub open spec fn rows_at(items: Seq<PageItem>, env: PageEnv, start: int, i: int) -> Seq<PlacedRow>
    decreases i,
{
    if i <= 0 {
        seq![]
    } else {
        let before = rows_at(items, env, start, i - 1);
        match items[i - 1] {
            PageItem::Row(row) => before.push(placed(row, env, cursor_at(items, env, start, i).0)),
            _ => before,
        }
    }
}

/// The cards among the first `i` items, in their places.
pub open spec fn cards_at(items: Seq<PageItem>, env: PageEnv, start: int, i: int) -> Seq<PlacedCard>
    decreases i,
{
    if i <= 0 {
        seq![]
    } else {
        let before = cards_at(items, env, start, i - 1);
        match items[i - 1] {
            PageItem::Card(title) => {
                let (y, header) = cursor_at(items, env, start, i);
                before.push(card_between(title, env, header, y - env.layout.card_bottom_inset))
            },
            _ => before,
        }
    }
}

/// A stack of rows and cards.
#[derive(Debug)]
pub struct StackPlan {
    pub rows: Vec<PlacedRow>,
    pub cards: Vec<PlacedCard>,
    /// The lower edge of the last row.
    pub cursor: i64,
    /// The cursor of the last heading.
    pub header: i64,
}

impl StackPlan {
    /// Whether this is the stack of some items below a cursor.
    pub open spec fn stacks(self, items: Seq<PageItem>, env: PageEnv, start: int) -> bool {
        let n = items.len() as int;
        &&& self.rows@ == rows_at(items, env, start, n)
        &&& self.cards@ == cards_at(items, env, start, n)
        &&& self.cursor == cursor_at(items, env, start, n).0
        &&& self.header == cursor_at(items, env, start, n).1
    }
}

fn place_page_row(row: PageRow, env: &PageEnv, y: i64, h: i64) -> (r: PlacedRow)
    requires
        env.valid(),
        -5_000_000_000_000 <= y <= 5_000_000_000_000,
        h == row_height(row, *env),
    ensures
        r == placed(row, *env, y as int),
{
    let l = env.layout;
    let (label_x, label_w) = match row.label {
        LabelWidth::Wide => (l.label_x, 220_000),
        LabelWidth::Column => (l.label_x, l.label_w),
        LabelWidth::BeforeControl => (l.label_x, l.control_x - l.label_x - 18_000),
        LabelWidth::Indented => (l.label_x + 18_000, l.control_x - l.label_x - 36_000),
        LabelWidth::BeforeLoginSwitch => (l.label_x, env.content_w - 2 * l.label_x - 58_000),
        LabelWidth::BeforeUpdateSwitch => (
            l.label_x,
            l.control_x + l.control_w - l.label_x - 70_000,
        ),
    };
    let value_x = l.label_x + 145_000;
    let control = match row.control {
        RowControl::Switch => {
            let frame = make_switch(l.control_x + l.control_w, y, l.row_h);
            Rect::new(frame.x, y, frame.w, frame.h)
        },
        RowControl::Popup => Rect::new(
            l.control_x,
            y,
            l.control_w,
            env.selects.metrics(row.title).control_h,
        ),
        RowControl::Slider => Rect::new(l.control_x, y, env.slider_w, l.row_h),
        RowControl::TextInput => Rect::new(l.control_x, y, l.control_w, l.row_h),
        RowControl::ColorWell => crate::glass_preview::make_color_well(
            l.control_x,
            y,
            l.control_w,
            l.row_h,
        ),
        RowControl::ActionButton => row_action_button(env, y),
        RowControl::Link => Rect::new(
            value_x,
            y,
            crate::geometry::max_len(env.content_w - 2 * l.label_x - 145_000, 1_000),
            l.row_h,
        ),
        RowControl::Value => Rect::new(value_x, y, 120_000, l.row_h),
        RowControl::Status => Rect::new(
            l.control_x,
            y,
            l.control_w - env.action_button.w - 8_000,
            l.row_h,
        ),
    };
    let divider = match row.divider {
        RowDivider::Missing => None,
        RowDivider::Above => Some(add_row_separator(0, y + h + env.divider_rise, env.content_w)),
        RowDivider::Edge => Some(add_row_separator(0, y + h, env.content_w)),
    };
    PlacedRow { row, y, h, label_x, label_w, control, divider }
}

/// Places a button at the right edge of the control column.
pub fn row_action_button(env: &PageEnv, y: i64) -> (r: Rect)
    requires
        env.valid(),
    ensures
        r == (Rect {
            x: (env.layout.control_x + env.layout.control_w - env.action_button.w) as i64,
            y,
            w: env.action_button.w,
            h: env.action_button.h,
        }),
{
    Rect::new(
        env.layout.control_x + env.layout.control_w - env.action_button.w,
        y,
        env.action_button.w,
        env.action_button.h,
    )
}

/// Stacks rows and cards below a cursor.
pub fn stack_items(items: &Vec<PageItem>, env: &PageEnv, start: i64) -> (r: StackPlan)
    requires
        env.valid(),
        items@.len() <= 100,
        -4_000_000_000_000 <= start <= 4_000_000_000_000,
    ensures
        r.stacks(items@, *env, start as int),
        start - 200_000_000_000 <= r.cursor <= start + 200_000_000_000,
        start - 200_000_000_000 <= r.header <= start + 200_000_000_000,
{
    let mut rows: Vec<PlacedRow> = Vec::new();
    let mut cards: Vec<PlacedCard> = Vec::new();
    let mut y = start;
    let mut header = start;
    let mut i: usize = 0;
    while i < items.len()
        invariant
            i <= items@.len() <= 100,
            env.valid(),
            -4_000_000_000_000 <= start <= 4_000_000_000_000,
            (y as int, header as int) == cursor_at(items@, *env, start as int, i as int),
            rows@ == rows_at(items@, *env, start as int, i as int),
            cards@ == cards_at(items@, *env, start as int, i as int),
            start - i * 2_000_000_000 <= y <= start + i * 2_000_000_000,
            start - i * 2_000_000_000 <= header <= start + i * 2_000_000_000,
        decreases items@.len() - i,
    {
        match items[i] {
            PageItem::FirstHeading => {
                header = y;
            },
            PageItem::Heading => {
                y = y - env.layout.section_step;
                header = y;
            },
            PageItem::Row(row) => {
                let is_popup = row.control == RowControl::Popup;
                let h = if is_popup {
                    env.selects.metrics(row.title).row_h
                } else {
                    env.layout.described_row_h
                };
                y = if row.flush {
                    y - h
                } else {
                    y - env.layout.row_gap - h
                };
                rows.push(place_page_row(row, env, y, h));
            },
            PageItem::Card(title) => {
                let bottom = y - env.layout.card_bottom_inset;
                cards.push(
                    PlacedCard {
                        title,
                        frame: Rect::new(
                            6_000,
                            bottom,
                            env.content_w - 12_000,
                            header - env.layout.card_header_gap - bottom,
                        ),
                    },
                );
            },
        }
        i += 1;
    }
    StackPlan { rows, cards, cursor: y, header }
}

/// Every heading is followed by rows and then by their card, and the first row below a
/// heading keeps the gap.
pub open spec fn well_formed(items: Seq<PageItem>) -> bool {
    &&& items.len() > 0
    &&& items[0] is FirstHeading || items[0] is Heading
    &&& items[items.len() - 1] is Card
    &&& forall|i: int|
        0 < i < items.len() ==> match #[trigger] items[i] {
            PageItem::FirstHeading => false,
            PageItem::Heading => items[i - 1] is Card,
            PageItem::Row(row) => items[i - 1] is Row || (items[i - 1] !is Card && !row.flush),
            PageItem::Card(_) => items[i - 1] is Row,
        }
}

/// Heights and gaps are not negative, and the gap above a row is larger than that below
/// a heading.
pub open spec fn roomy(env: PageEnv) -> bool {
    &&& 0 <= env.layout.card_header_gap <= env.layout.row_gap
    &&& 0 <= env.layout.card_bottom_inset <= env.layout.section_step
    &&& 0 <= env.selects.theme.row_h
    &&& 0 <= env.selects.glass_style.row_h
    &&& 0 <= env.selects.locale.row_h
    &&& 0 <= env.selects.log_level.row_h
    &&& 0 <= env.selects.display_mode.row_h
    &&& 0 <= env.selects.overlay_position.row_h
    &&& 0 <= env.selects.activation_mode.row_h
    &&& 0 <= env.selects.modifier.row_h
    &&& 0 <= env.selects.scroll_mode.row_h
    &&& 0 <= env.selects.pin_follow.row_h
    &&& 0 <= env.selects.device.row_h
}

/// Whether a row lies between the edges of a card.
pub open spec fn card_holds(card: PlacedCard, row: PlacedRow) -> bool {
    card.frame.y <= row.y && row.top() <= card.frame.top()
}

/// The cursor stays where `i64` can hold it.
proof fn cursor_is_near(items: Seq<PageItem>, env: PageEnv, start: int, i: int)
    requires
        env.valid(),
        0 <= i <= items.len() <= 100,
        -4_000_000_000_000 <= start <= 4_000_000_000_000,
    ensures
        ({
            let (y, header) = cursor_at(items, env, start, i);
            &&& start - i * 2_000_000_000 <= y <= start + i * 2_000_000_000
            &&& start - i * 2_000_000_000 <= header <= start + i * 2_000_000_000
        }),
    decreases i,
{
    if i > 0 {
        cursor_is_near(items, env, start, i - 1);
    }
}

/// Each row lies below the rows before it; no two rows overlap.
pub proof fn rows_never_overlap(items: Seq<PageItem>, env: PageEnv, start: int, a: int, b: int)
    requires
        env.valid(),
        roomy(env),
        items.len() <= 100,
        -4_000_000_000_000 <= start <= 4_000_000_000_000,
        0 <= a < b < rows_at(items, env, start, items.len() as int).len(),
    ensures
        ({
            let rows = rows_at(items, env, start, items.len() as int);
            rows[b].top() <= rows[a].y
        }),
{
    rows_descend(items, env, start, items.len() as int);
}

proof fn rows_descend(items: Seq<PageItem>, env: PageEnv, start: int, i: int)
    requires
        env.valid(),
        roomy(env),
        0 <= i <= items.len() <= 100,
        -4_000_000_000_000 <= start <= 4_000_000_000_000,
    ensures
        forall|k: int|
            0 <= k < rows_at(items, env, start, i).len() ==> (#[trigger] rows_at(
                items,
                env,
                start,
                i,
            )[k]).y >= cursor_at(items, env, start, i).0,
        forall|a: int, b: int|
            0 <= a < b < rows_at(items, env, start, i).len() ==> (#[trigger] rows_at(
                items,
                env,
                start,
                i,
            )[b]).top() <= (#[trigger] rows_at(items, env, start, i)[a]).y,
    decreases i,
{
    if i > 0 {
        rows_descend(items, env, start, i - 1);
        cursor_is_near(items, env, start, i - 1);
        cursor_is_near(items, env, start, i);
        let before = rows_at(items, env, start, i - 1);
        let rows = rows_at(items, env, start, i);
        if let PageItem::Row(row) = items[i - 1] {
            assert(0 <= row_height(row, env));
            assert forall|a: int, b: int| 0 <= a < b < rows.len() implies (#[trigger] rows[b]).top()
                <= (#[trigger] rows[a]).y by {
                assert(rows[a] == before[a]);
                if b < before.len() {
                    assert(rows[b] == before[b]);
                }
            }
            assert forall|k: int| 0 <= k < rows.len() implies (#[trigger] rows[k]).y >= cursor_at(
                items,
                env,
                start,
                i,
            ).0 by {
                if k < before.len() {
                    assert(rows[k] == before[k]);
                }
            }
        } else {
            assert(rows == before);
        }
    }
}

/// The number of rows that have their card, among the first `i` items.
pub open spec fn carded(items: Seq<PageItem>, i: int) -> nat
    decreases i,
{
    if i <= 0 {
        0
    } else if items[i - 1] is Card {
        row_count(items, i)
    } else {
        carded(items, i - 1)
    }
}

/// The number of rows among the first `i` items.
pub open spec fn row_count(items: Seq<PageItem>, i: int) -> nat
    decreases i,
{
    if i <= 0 {
        0
    } else {
        row_count(items, i - 1) + if items[i - 1] is Row { 1nat } else { 0 }
    }
}

/// Whether some card holds a row.
pub open spec fn held(cards: Seq<PlacedCard>, row: PlacedRow) -> bool {
    exists|c: int| 0 <= c < cards.len() && card_holds(#[trigger] cards[c], row)
}

proof fn carded_rows_are_held(items: Seq<PageItem>, env: PageEnv, start: int, i: int)
    requires
        env.valid(),
        roomy(env),
        well_formed(items),
        0 <= i <= items.len() <= 100,
        -4_000_000_000_000 <= start <= 4_000_000_000_000,
    ensures
        rows_at(items, env, start, i).len() == row_count(items, i),
        carded(items, i) <= row_count(items, i),
        i > 0 && (items[i - 1] is FirstHeading || items[i - 1] is Heading) ==> carded(items, i)
            == row_count(items, i),
        i > 0 && items[i - 1] is Card ==> carded(items, i) == row_count(items, i),
        i == 0 ==> row_count(items, i) == 0,
        forall|k: int|
            0 <= k < carded(items, i) ==> held(
                cards_at(items, env, start, i),
                #[trigger] rows_at(items, env, start, i)[k],
            ),
        forall|k: int|
            carded(items, i) <= k < row_count(items, i) ==> {
                &&& (#[trigger] rows_at(items, env, start, i)[k]).y >= cursor_at(
                    items,
                    env,
                    start,
                    i,
                ).0
                &&& rows_at(items, env, start, i)[k].top() <= cursor_at(items, env, start, i).1
                    - env.layout.row_gap
            },
        cursor_at(items, env, start, i).0 <= cursor_at(items, env, start, i).1,
        i > 0 && items[i - 1] is Row ==> cursor_at(items, env, start, i).0 <= cursor_at(
            items,
            env,
            start,
            i,
        ).1 - env.layout.row_gap,
    decreases i,
{
    if i > 0 {
        carded_rows_are_held(items, env, start, i - 1);
        cursor_is_near(items, env, start, i - 1);
        cursor_is_near(items, env, start, i);
        let (y0, h0) = cursor_at(items, env, start, i - 1);
        let (y, header) = cursor_at(items, env, start, i);
        let before = rows_at(items, env, start, i - 1);
        let rows = rows_at(items, env, start, i);
        let cards_before = cards_at(items, env, start, i - 1);
        let cards = cards_at(items, env, start, i);
        match items[i - 1] {
            PageItem::Row(row) => {
                assert(0 <= row_height(row, env));
                assert(i - 1 > 0);
                assert(cards == cards_before);
                assert forall|k: int| 0 <= k < carded(items, i) implies held(
                    cards,
                    #[trigger] rows[k],
                ) by {
                    assert(rows[k] == before[k]);
                }
                assert forall|k: int| carded(items, i) <= k < row_count(items, i) implies (
                #[trigger] rows[k]).y >= y && rows[k].top() <= header - env.layout.row_gap by {
                    if k < before.len() {
                        assert(rows[k] == before[k]);
                    } else if row.flush {
                        assert(items[i - 2] is Row);
                    }
                }
            },
            PageItem::Card(title) => {
                let card = card_between(title, env, header, y - env.layout.card_bottom_inset);
                assert(cards == cards_before.push(card));
                assert(cards[cards.len() - 1] == card);
                assert(rows == before);
                assert forall|k: int| 0 <= k < carded(items, i) implies held(
                    cards,
                    #[trigger] rows[k],
                ) by {
                    if k < carded(items, i - 1) {
                        assert(held(cards_before, before[k]));
                        let c = choose|c: int|
                            0 <= c < cards_before.len() && card_holds(
                                #[trigger] cards_before[c],
                                before[k],
                            );
                        assert(cards[c] == cards_before[c]);
                    } else {
                        assert(before[k].y >= y0);
                        assert(card_holds(cards[cards.len() - 1], rows[k]));
                    }
                }
            },
            _ => {
                assert(rows == before);
                assert(cards == cards_before);
                if i > 1 {
                    assert(items[i - 2] is Card);
                }
                assert forall|k: int| 0 <= k < carded(items, i) implies held(
                    cards,
                    #[trigger] rows[k],
                ) by {
                    assert(held(cards_before, before[k]));
                }
            },
        }
    }
}

/// Every row stands in a card.
pub proof fn rows_stand_in_cards(items: Seq<PageItem>, env: PageEnv, start: int, k: int)
    requires
        env.valid(),
        roomy(env),
        well_formed(items),
        items.len() <= 100,
        -4_000_000_000_000 <= start <= 4_000_000_000_000,
        0 <= k < rows_at(items, env, start, items.len() as int).len(),
    ensures
        held(
            cards_at(items, env, start, items.len() as int),
            rows_at(items, env, start, items.len() as int)[k],
        ),
{
    carded_rows_are_held(items, env, start, items.len() as int);
}

/// The height that a block of rows takes of its page.
pub open spec fn block_height(block: RowBlock, env: PageEnv) -> int {
    if block == RowBlock::ThumbnailOnly {
        2 * (env.layout.row_gap + SINGLE_LINE_ROW_H)
    } else {
        env.layout.row_gap + SINGLE_LINE_ROW_H
    }
}

/// The height that a block of rows takes of its page: what the page gets back when they
/// are hidden.
pub fn collapsible_height(block: RowBlock, env: &PageEnv) -> (r: i64)
    requires
        env.valid(),
    ensures
        r == block_height(block, *env),
{
    let one = env.layout.row_gap + crate::layout::SINGLE_LINE_ROW_H;
    if block == RowBlock::ThumbnailOnly {
        2 * one
    } else {
        one
    }
}

/// What the rows of a block take of the page, among the first `i` items.
pub open spec fn block_steps(items: Seq<PageItem>, env: PageEnv, block: RowBlock, i: int) -> int
    decreases i,
{
    if i <= 0 {
        0
    } else {
        block_steps(items, env, block, i - 1) + match items[i - 1] {
            PageItem::Row(row) => if row.block == Some(block) { row_step(row, env) } else { 0 },
            _ => 0,
        }
    }
}

/// What happens when the control of a row is used.
#[derive(Clone, Copy, Debug, PartialEq, Eq, Structural)]
pub enum RowAction {
    /// The setting is taken over.
    Change,
    /// The setting is taken over, and the rest of the page is enabled or greyed out.
    TogglePage,
    /// The mappings are switched, and their table is drawn again.
    ToggleMappings,
    PickTint,
    /// The setting is taken over as it is typed.
    Type,
    ChooseDevice,
    ExportLogs,
    OpenGuide,
    OpenLink,
    Nothing,
}

/// What happens when the control of a row is used.
pub open spec fn action_of(title: RowTitle) -> RowAction {
    match title {
        RowTitle::Setting(ControlField::WindowsEnabled) => RowAction::TogglePage,
        RowTitle::Setting(ControlField::MouseEnabled) => RowAction::TogglePage,
        RowTitle::Setting(ControlField::ClipboardEnabled) => RowAction::TogglePage,
        RowTitle::Setting(ControlField::WindowControlEnabled) => RowAction::TogglePage,
        RowTitle::Setting(ControlField::QuickActionsEnabled) => RowAction::TogglePage,
        RowTitle::Setting(ControlField::MappingEnabled) => RowAction::ToggleMappings,
        RowTitle::Setting(ControlField::GlassTint) => RowAction::PickTint,
        RowTitle::Setting(ControlField::CornerRadius) => RowAction::Type,
        RowTitle::Setting(ControlField::ClipboardMaxEntries) => RowAction::Type,
        RowTitle::Setting(_) => RowAction::Change,
        RowTitle::Device => RowAction::ChooseDevice,
        RowTitle::ExportLogs => RowAction::ExportLogs,
        RowTitle::ViewGuide => RowAction::OpenGuide,
        RowTitle::Website => RowAction::OpenLink,
        RowTitle::Github => RowAction::OpenLink,
        RowTitle::Version => RowAction::Nothing,
        RowTitle::Accessibility => RowAction::Nothing,
        RowTitle::ScreenRecording => RowAction::Nothing,
    }
}

/// What happens when the control of a row is used.
pub fn row_action(title: RowTitle) -> (r: RowAction)
    ensures
        r == action_of(title),
{
    match title {
        RowTitle::Setting(field) => match field {
            ControlField::WindowsEnabled => RowAction::TogglePage,
            ControlField::MouseEnabled => RowAction::TogglePage,
            ControlField::ClipboardEnabled => RowAction::TogglePage,
            ControlField::WindowControlEnabled => RowAction::TogglePage,
            ControlField::QuickActionsEnabled => RowAction::TogglePage,
            ControlField::MappingEnabled => RowAction::ToggleMappings,
            ControlField::GlassTint => RowAction::PickTint,
            ControlField::CornerRadius => RowAction::Type,
            ControlField::ClipboardMaxEntries => RowAction::Type,
            _ => RowAction::Change,
        },
        RowTitle::Device => RowAction::ChooseDevice,
        RowTitle::ExportLogs => RowAction::ExportLogs,
        RowTitle::ViewGuide => RowAction::OpenGuide,
        RowTitle::Website => RowAction::OpenLink,
        RowTitle::Github => RowAction::OpenLink,
        RowTitle::Version => RowAction::Nothing,
        RowTitle::Accessibility => RowAction::Nothing,
        RowTitle::ScreenRecording => RowAction::Nothing,
    }
}

/// Range of a slider, and the value that it starts with and that a double click
/// brings back. The tracking speed is given in hundredths.
#[derive(Clone, Copy, Debug, PartialEq, Eq, Structural)]
pub struct SliderRange {
    pub min: i64,
    pub max: i64,
    pub default: i64,
}

/// The text size that the sliders for text sizes start with.
pub const TEXT_SIZE_DEFAULT: i64 = 15;

/// The line count that its slider starts with.
pub const LINE_COUNT_DEFAULT: i64 = 3;

/// The number of days that its slider starts with.
pub const CLIPBOARD_AUTO_EXPIRE_DEFAULT: i64 = 3;

/// The range of the slider of a setting, given the limits of the text sizes and the
/// usual tracking speed.
pub fn slider_range(
    field: ControlField,
    text_size_min: i64,
    text_size_max: i64,
    usual_speed: u32,
) -> (r: Option<SliderRange>)
    ensures
        r == match field {
            ControlField::CardTextSize => Some(
                SliderRange {
                    min: text_size_min,
                    max: text_size_max,
                    default: TEXT_SIZE_DEFAULT,
                },
            ),
            ControlField::StatusBarTextSize => Some(
                SliderRange {
                    min: text_size_min,
                    max: text_size_max,
                    default: TEXT_SIZE_DEFAULT,
                },
            ),
            ControlField::LineCount => Some(
                SliderRange { min: 1, max: 10, default: LINE_COUNT_DEFAULT },
            ),
            ControlField::ClipboardAutoExpireDays => Some(
                SliderRange { min: 0, max: 7, default: CLIPBOARD_AUTO_EXPIRE_DEFAULT },
            ),
            ControlField::PointerAcceleration => Some(
                SliderRange { min: 0, max: 1_000, default: usual_speed as i64 },
            ),
            _ => None,
        },
{
    match field {
        ControlField::CardTextSize => Some(
            SliderRange { min: text_size_min, max: text_size_max, default: TEXT_SIZE_DEFAULT },
        ),
        ControlField::StatusBarTextSize => Some(
            SliderRange { min: text_size_min, max: text_size_max, default: TEXT_SIZE_DEFAULT },
        ),
        ControlField::LineCount => Some(
            SliderRange { min: 1, max: 10, default: LINE_COUNT_DEFAULT },
        ),
        ControlField::ClipboardAutoExpireDays => Some(
            SliderRange { min: 0, max: 7, default: CLIPBOARD_AUTO_EXPIRE_DEFAULT },
        ),
        ControlField::PointerAcceleration => Some(
            SliderRange { min: 0, max: 1_000, default: usual_speed as i64 },
        ),
        _ => None,
    }
}

/// The option that the select of a row starts with: the second log level, and the first
/// option of everything else.
pub fn first_option(title: RowTitle) -> (r: usize)
    ensures
        r == if title == RowTitle::Setting(ControlField::LogLevel) {
            1int
        } else {
            0
        },
{
    if title == RowTitle::Setting(ControlField::LogLevel) {
        1
    } else {
        0
    }
}

/// An option of a select: what it says, or the key of what it says.
#[derive(Clone, Copy, Debug)]
pub struct SelectOption {
    pub text: &'static str,
    /// The text is a key that is looked up in the language of the user.
    pub localized: bool,
}

/// An option of a select.
#[verifier::ext_equal]
pub struct OptionView {
    pub text: Seq<char>,
    pub localized: bool,
}

impl View for SelectOption {
    type V = OptionView;

    open spec fn view(&self) -> OptionView {
        OptionView { text: self.text@, localized: self.localized }
    }
}

/// The options of the select of a setting, in the order of their numbers. Languages and
/// scroll modes are listed elsewhere.
pub open spec fn options_of(field: ControlField) -> Seq<OptionView> {
    match field {
        ControlField::Theme => seq![
            OptionView { text: "settings.theme_dark"@, localized: true },
            OptionView { text: "settings.theme_light"@, localized: true },
            OptionView { text: "settings.theme_auto"@, localized: true },
        ],
        ControlField::GlassStyle => seq![
            OptionView { text: "Regular"@, localized: false },
            OptionView { text: "Clear"@, localized: false },
        ],
        ControlField::LogLevel => seq![
            OptionView { text: "Debug"@, localized: false },
            OptionView { text: "Info"@, localized: false },
        ],
        ControlField::ThumbnailsEnabled => seq![
            OptionView { text: "settings.window_display_mode_icons"@, localized: true },
            OptionView { text: "settings.window_display_mode_icons_thumbnails"@, localized: true },
        ],
        ControlField::OverlayPosition => seq![
            OptionView { text: "settings.overlay_position_follow_active"@, localized: true },
            OptionView { text: "settings.overlay_position_main_screen"@, localized: true },
        ],
        ControlField::ActivationMode => seq![
            OptionView { text: "settings.activation_mode_hover"@, localized: true },
            OptionView { text: "settings.activation_mode_click"@, localized: true },
        ],
        ControlField::Modifier => seq![
            OptionView { text: "settings.modifier_option"@, localized: true },
            OptionView { text: "settings.modifier_command"@, localized: true },
        ],
        ControlField::ClipboardPinFollow => seq![
            OptionView { text: "settings.pin_follow_entry"@, localized: true },
            OptionView { text: "settings.pin_keep_position"@, localized: true },
        ],
        _ => seq![],
    }
}

/// What a list of options says.
pub open spec fn option_views(options: Seq<SelectOption>) -> Seq<OptionView> {
    options.map_values(|o: SelectOption| o@)
}

fn add_option(out: &mut Vec<SelectOption>, text: &'static str, localized: bool)
    ensures
        option_views(final(out)@) == option_views(old(out)@).push(
            (OptionView { text: text@, localized }),
        ),
{
    let ghost before = out@;
    out.push(SelectOption { text, localized });
    assert(option_views(out@) =~= option_views(before).push(
        (OptionView { text: text@, localized }),
    ));
}

/// The options of the select of a setting, in the order of their numbers.
pub fn select_options(field: ControlField) -> (r: Vec<SelectOption>)
    ensures
        option_views(r@) == options_of(field),
{
    let mut out: Vec<SelectOption> = Vec::new();
    assert(option_views(out@) =~= seq![]);
    match field {
        ControlField::Theme => {
            add_option(&mut out, "settings.theme_dark", true);
            add_option(&mut out, "settings.theme_light", true);
            add_option(&mut out, "settings.theme_auto", true);
        },
        ControlField::GlassStyle => {
            add_option(&mut out, "Regular", false);
            add_option(&mut out, "Clear", false);
        },
        ControlField::LogLevel => {
            add_option(&mut out, "Debug", false);
            add_option(&mut out, "Info", false);
        },
        ControlField::ThumbnailsEnabled => {
            add_option(&mut out, "settings.window_display_mode_icons", true);
            add_option(&mut out, "settings.window_display_mode_icons_thumbnails", true);
        },
        ControlField::OverlayPosition => {
            add_option(&mut out, "settings.overlay_position_follow_active", true);
            add_option(&mut out, "settings.overlay_position_main_screen", true);
        },
        ControlField::ActivationMode => {
            add_option(&mut out, "settings.activation_mode_hover", true);
            add_option(&mut out, "settings.activation_mode_click", true);
        },
        ControlField::Modifier => {
            add_option(&mut out, "settings.modifier_option", true);
            add_option(&mut out, "settings.modifier_command", true);
        },
        ControlField::ClipboardPinFollow => {
            add_option(&mut out, "settings.pin_follow_entry", true);
            add_option(&mut out, "settings.pin_keep_position", true);
        },
        _ => {},
    }
    assert(option_views(out@) =~= options_of(field));
    out
}

/// What an input says before its setting is shown.
pub fn first_text(field: ControlField) -> (r: Option<&'static str>)
    ensures
        match field {
            ControlField::CornerRadius => r matches Some(text) && text@ == "64"@,
            ControlField::ClipboardMaxEntries => r matches Some(text) && text@ == "50"@,
            _ => r is None,
        },
{
    match field {
        ControlField::CornerRadius => Some("64"),
        ControlField::ClipboardMaxEntries => Some("50"),
        _ => None,
    }
}

/// The number of cards among the first `i` items.
pub open spec fn card_count(items: Seq<PageItem>, i: int) -> nat
    decreases i,
{
    if i <= 0 {
        0
    } else {
        card_count(items, i - 1) + if items[i - 1] is Card { 1nat } else { 0 }
    }
}

proof fn plans_have_every_item(items: Seq<PageItem>, env: PageEnv, start: int, i: int, n: int)
    requires
        0 <= i < n <= items.len(),
    ensures
        rows_at(items, env, start, n).len() == row_count(items, n),
        cards_at(items, env, start, n).len() == card_count(items, n),
        row_count(items, i) <= row_count(items, n),
        card_count(items, i) <= card_count(items, n),
        items[i] matches PageItem::Row(row) ==> {
            &&& row_count(items, i) < row_count(items, n)
            &&& rows_at(items, env, start, n)[row_count(items, i) as int] == placed(
                row,
                env,
                cursor_at(items, env, start, i + 1).0,
            )
        },
        items[i] matches PageItem::Card(title) ==> {
            &&& card_count(items, i) < card_count(items, n)
            &&& cards_at(items, env, start, n)[card_count(items, i) as int].title == title
        },
    decreases n,
{
    reveal_with_fuel(rows_at, 2);
    reveal_with_fuel(cards_at, 2);
    reveal_with_fuel(row_count, 2);
    reveal_with_fuel(card_count, 2);
    if i < n - 1 {
        plans_have_every_item(items, env, start, i, n - 1);
    } else if i > 0 {
        plans_have_every_item(items, env, start, i - 1, n - 1);
    }
}

/// A plan has one row for each row that was asked for, and one card for each card, in the
/// order in which they were asked for.
pub proof fn plans_follow_their_items(items: Seq<PageItem>, env: PageEnv, start: int, i: int)
    requires
        0 <= i < items.len(),
    ensures
        ({
            let rows = rows_at(items, env, start, items.len() as int);
            let cards = cards_at(items, env, start, items.len() as int);
            &&& rows.len() == row_count(items, items.len() as int)
            &&& cards.len() == card_count(items, items.len() as int)
            &&& items[i] matches PageItem::Row(row) ==> {
                &&& row_count(items, i) < rows.len()
                &&& rows[row_count(items, i) as int].row == row
            }
            &&& items[i] matches PageItem::Card(title) ==> {
                &&& card_count(items, i) < cards.len()
                &&& cards[card_count(items, i) as int].title == title
            }
        }),
{
    plans_have_every_item(items, env, start, i, items.len() as int);
}

/// Going down a page, each row takes its height and the gap above it, each further heading
/// its step, and a card nothing of its own.
pub proof fn the_cursor_goes_down(items: Seq<PageItem>, env: PageEnv, start: int, i: int)
    requires
        0 <= i < items.len(),
    ensures
        cursor_at(items, env, start, 0) == (start, start),
        ({
            let (y, header) = cursor_at(items, env, start, i);
            let (y2, header2) = cursor_at(items, env, start, i + 1);
            &&& items[i] matches PageItem::Row(row) ==> {
                &&& header2 == header
                &&& row.flush ==> y - y2 == row_height(row, env)
                &&& !row.flush ==> y - y2 == row_height(row, env) + env.layout.row_gap
            }
            &&& items[i] is FirstHeading ==> y2 == y && header2 == y
            &&& items[i] is Heading ==> y - y2 == env.layout.section_step && header2 == y2
            &&& items[i] is Card ==> y2 == y && header2 == header
        }),
{
}

/// A row is one line high, unless its select needs more. Its control is as high as such
/// controls are, and ends where all controls of the column end, but for a slider, which
/// leaves room for its value, and the values of the about page.
pub proof fn controls_end_at_the_column(row: PageRow, env: PageEnv, y: int)
    requires
        env.valid(),
        -5_000_000_000_000 <= y <= 5_000_000_000_000,
    ensures
        ({
            let p = placed(row, env, y);
            let end = env.layout.control_x + env.layout.control_w;
            &&& p.row == row && p.y == y && p.control.y == y
            &&& row.control != RowControl::Popup ==> p.h == 54_000
            &&& row.control == RowControl::Popup ==> p.h == env.selects.of(row.title).row_h
                && p.control.h == env.selects.of(row.title).control_h
            &&& row.control == RowControl::Switch || row.control == RowControl::Popup || row.control
                == RowControl::TextInput || row.control == RowControl::ColorWell || row.control
                == RowControl::ActionButton ==> p.control.right() == end
            &&& row.control == RowControl::Popup || row.control == RowControl::TextInput
                || row.control == RowControl::Slider || row.control == RowControl::Status
                ==> p.control.x == env.layout.control_x
            &&& row.control == RowControl::Switch ==> p.control.w == 38_000 && p.control.h == 22_000
            &&& row.control == RowControl::ColorWell ==> p.control.w == 52_000
            &&& row.control == RowControl::ActionButton ==> p.control.w == env.action_button.w
                && p.control.h == env.action_button.h
            &&& row.control == RowControl::Slider ==> p.control.w == env.slider_w
            &&& row.control == RowControl::Status ==> p.control.right() + 8_000
                + env.action_button.w == end
            &&& row.control == RowControl::Link || row.control == RowControl::Value ==> p.control.x
                == env.layout.label_x + 145_000
            &&& row.control == RowControl::Value ==> p.control.w == 120_000
            &&& row.control == RowControl::Link && p.control.w > 1_000 ==> p.control.right()
                == env.content_w - env.layout.label_x
            &&& row.control == RowControl::Slider || row.control == RowControl::TextInput
                || row.control == RowControl::ColorWell || row.control == RowControl::Link
                || row.control == RowControl::Value || row.control == RowControl::Status
                ==> p.control.h == env.layout.row_h
        }),
{
}

/// Labels start at the left of their column, or 18 points further in below a row that they
/// depend on, and those that reach for the control end 18 points before it. The line above a
/// row is inset by 6 points on both sides, above its upper edge or on it.
pub proof fn labels_end_before_their_controls(row: PageRow, env: PageEnv, y: int)
    requires
        env.valid(),
        -5_000_000_000_000 <= y <= 5_000_000_000_000,
    ensures
        ({
            let p = placed(row, env, y);
            let l = env.layout;
            let end = p.label_x + p.label_w;
            &&& p.label_x == if row.label == LabelWidth::Indented {
                l.label_x + 18_000
            } else {
                l.label_x as int
            }
            &&& row.label == LabelWidth::BeforeControl || row.label == LabelWidth::Indented ==> end
                + 18_000 == l.control_x
            &&& row.label == LabelWidth::Wide ==> p.label_w == 220_000
            &&& row.label == LabelWidth::Column ==> p.label_w == l.label_w
            &&& row.label == LabelWidth::BeforeLoginSwitch ==> env.content_w - end == l.label_x
                + 58_000
            &&& row.label == LabelWidth::BeforeUpdateSwitch ==> end + 70_000 == l.control_x
                + l.control_w
            &&& p.divider is None <==> row.divider == RowDivider::Missing
            &&& p.divider matches Some(line) ==> {
                &&& line.x == 6_000 && line.h == 1_000
                &&& env.content_w >= 13_000 ==> line.right() == env.content_w - 6_000
                &&& line.y == p.top() + if row.divider == RowDivider::Above {
                    env.divider_rise as int
                } else {
                    0
                }
            }
        }),
{
}

/// A card is inset by 6 points on both sides, and reaches from the gap below its heading down
/// to the edge that it is given.
pub proof fn cards_reach_from_heading_to_bottom(
    title: SectionTitle,
    env: PageEnv,
    header: int,
    bottom: int,
)
    requires
        env.valid(),
        -5_000_000_000_000 <= header <= 5_000_000_000_000,
        -5_000_000_000_000 <= bottom <= 5_000_000_000_000,
    ensures
        ({
            let c = card_between(title, env, header, bottom);
            &&& c.title == title
            &&& c.frame.x == 6_000 && c.frame.right() == env.content_w - 6_000
            &&& c.frame.y == bottom
            &&& c.frame.top() + env.layout.card_header_gap == header
        }),
{
}

/// Each select has heights of its own: those of another one do not count for it.
pub proof fn selects_have_their_own_heights(
    table: SelectTable,
    other: SelectTable,
    title: RowTitle,
)
    ensures
        table.of(RowTitle::Device) == table.device,
        table.of(RowTitle::Setting(ControlField::Theme)) == table.theme,
        table.of(RowTitle::Setting(ControlField::GlassStyle)) == table.glass_style,
        table.of(RowTitle::Setting(ControlField::Locale)) == table.locale,
        table.of(RowTitle::Setting(ControlField::LogLevel)) == table.log_level,
        table.of(RowTitle::Setting(ControlField::ThumbnailsEnabled)) == table.display_mode,
        table.of(RowTitle::Setting(ControlField::OverlayPosition)) == table.overlay_position,
        table.of(RowTitle::Setting(ControlField::ActivationMode)) == table.activation_mode,
        table.of(RowTitle::Setting(ControlField::Modifier)) == table.modifier,
        table.of(RowTitle::Setting(ControlField::ScrollMode)) == table.scroll_mode,
        table.of(RowTitle::Setting(ControlField::ClipboardPinFollow)) == table.pin_follow,
        title != RowTitle::Device ==> (SelectTable { device: other.device, ..table }).of(title)
            == table.of(title),
        title != RowTitle::Setting(ControlField::Theme) ==> (SelectTable {
            theme: other.theme,
            ..table
        }).of(title) == table.of(title),
{
}

/// What a built row says is what it was built from: nothing else is set until it is asked
/// for, and what is asked for leaves the rest alone.
pub proof fn rows_are_built_as_asked(
    title: RowTitle,
    kind: RowKind,
    control: RowControl,
    label: LabelWidth,
    block: RowBlock,
    row: PageRow,
)
    ensures
        ({
            let p = plain_row(title, kind, control, label);
            &&& p.title == title && p.kind == kind && p.control == control && p.label == label
            &&& !p.flush && p.divider == RowDivider::Missing && p.block is None
        }),
        row.with_line().divider == RowDivider::Above,
        (PageRow { divider: row.divider, ..row.with_line() }) == row,
        row.without_gap().divider == RowDivider::Edge && row.without_gap().flush,
        (PageRow { divider: row.divider, flush: row.flush, ..row.without_gap() }) == row,
        row.with_block(block).block == Some(block),
        (PageRow { block: row.block, ..row.with_block(block) }) == row,
        forall|field: ControlField|
            {
                let p = #[trigger] plain_switch_row(field);
                p.title == RowTitle::Setting(field) && p.control == RowControl::Switch && p.kind
                    == RowKind::Described && p.label == LabelWidth::BeforeControl && !p.flush
                    && p.block is None && p.divider == RowDivider::Missing
            },
{
}

/// A block of rows is as high as its rows with the gaps above them: two rows of one line for
/// the thumbnails, one for every other block.
pub proof fn blocks_are_whole_rows(block: RowBlock, env: PageEnv)
    ensures
        block_height(block, env) == if block == RowBlock::ThumbnailOnly {
            2 * (54_000 + env.layout.row_gap)
        } else {
            54_000 + env.layout.row_gap
        },
{
}

/// A plan holds the rows and cards that were asked for, in their order, and tells where it
/// ends: at the lower edge of its last row, below which its last card leaves its inset.
pub proof fn plans_hold_what_was_asked_for(
    plan: StackPlan,
    items: Seq<PageItem>,
    env: PageEnv,
    start: int,
    i: int,
)
    requires
        env.valid(),
        items.len() <= 100,
        -4_000_000_000_000 <= start <= 4_000_000_000_000,
        plan.stacks(items, env, start),
        0 <= i < items.len(),
    ensures
        plan.rows@.len() == row_count(items, items.len() as int),
        plan.cards@.len() == card_count(items, items.len() as int),
        items[i] matches PageItem::Row(row) ==> row_count(items, i) < plan.rows@.len()
            && plan.rows@[row_count(items, i) as int].row == row,
        items[i] matches PageItem::Card(title) ==> card_count(items, i) < plan.cards@.len()
            && plan.cards@[card_count(items, i) as int].title == title,
        items.len() >= 2 && items[items.len() - 1] is Card && items[items.len() - 2] is Row ==> {
            &&& plan.rows@.len() > 0 && plan.cards@.len() > 0
            &&& plan.rows@.last().y == plan.cursor
            &&& plan.cursor - plan.cards@.last().frame.y == env.layout.card_bottom_inset
            &&& plan.header - plan.cards@.last().frame.top() == env.layout.card_header_gap
        },
{
    let n = items.len() as int;
    plans_follow_their_items(items, env, start, i);
    cursor_is_near(items, env, start, n);
    if n >= 2 && items[n - 1] is Card && items[n - 2] is Row {
        reveal_with_fuel(rows_at, 3);
        reveal_with_fuel(cards_at, 3);
        reveal_with_fuel(cursor_at, 3);
    }
}

} // verus!
