//! Which control stands for which setting, and what a change of a control does.
use vstd::prelude::*;
use vstd::string::*;

use crate::config::Config;
use crate::profiles::{write_selected_profile, DeviceKey, ProfileEdit};
use crate::text::{decimal_text, push_two_digits, same_text};
#[allow(unused_imports)]
use crate::config::{
    AppearanceConfig, ClipboardConfig, FontsConfig, I18nConfig, KeyboardConfig, LayoutConfig,
    LoggingConfig, MouseConfig, QuickActionsConfig, StartupConfig, UpdatesConfig,
    WindowControlConfig, WindowsConfig,
};
#[allow(unused_imports)]
use crate::{profiles, text};

verus! {

/// The settings that have a control of their own.
#[derive(Clone, Copy, Debug, PartialEq, Eq, Structural)]
pub enum ControlField {
    Theme,
    GlassStyle,
    GlassTint,
    Locale,
    LogLevel,
    LaunchAtLogin,
    WindowsEnabled,
    ShowMinimized,
    ThumbnailsEnabled,
    FocusedThumbnailPrewarm,
    ShowAppNameInCards,
    CardTextSize,
    StatusBarTextSize,
    OverlayPosition,
    ActivationMode,
    CornerRadius,
    Modifier,
    MouseEnabled,
    ReverseScroll,
    ScrollMode,
    LineCount,
    DisablePointerAccel,
    PointerAcceleration,
    MappingEnabled,
    ClipboardEnabled,
    ClipboardPersist,
    ClipboardShowSourceApp,
    ClipboardMoveUsedToTop,
    ClipboardDeleteAfterPaste,
    ClipboardClearSystemPasteboardAfterPaste,
    ClipboardMaxEntries,
    ClipboardAutoExpireDays,
    ClipboardPinFollow,
    WindowControlEnabled,
    WindowControlUp,
    WindowControlDown,
    WindowControlLeft,
    WindowControlRight,
    WindowControlDisplayUp,
    WindowControlDisplayDown,
    WindowControlDisplayLeft,
    WindowControlDisplayRight,
    QuickActionsEnabled,
    QuickActionOpenSettings,
    QuickActionOpenFinder,
    QuickActionShowDesktop,
    QuickActionLockScreen,
    QuickActionLocatePointer,
    UpdateAutoCheck,
    UpdateAutoDownload,
}

/// The controls of the settings window, each by the number of its view.
#[derive(Clone, Copy, Debug, PartialEq, Eq, Structural)]
pub struct SettingsControls {
    pub theme: usize,
    pub glass_style: usize,
    pub glass_tint: usize,
    pub locale: usize,
    pub log_level: usize,
    pub launch_at_login: usize,
    pub windows_enabled: usize,
    pub show_minimized: usize,
    pub thumbnails_enabled: usize,
    pub focused_thumbnail_prewarm: usize,
    pub show_app_name_in_cards: usize,
    pub card_text_size: usize,
    pub status_bar_text_size: usize,
    pub overlay_position: usize,
    pub activation_mode: usize,
    pub corner_radius: usize,
    pub modifier: usize,
    pub enable_mouse: usize,
    pub reverse_scroll: usize,
    pub scroll_mode: usize,
    pub line_count: usize,
    pub disable_pointer_accel: usize,
    pub pointer_accel_slider: usize,
    pub mapping_enabled: usize,
    pub clipboard_enabled: usize,
    pub clipboard_persist: usize,
    pub clipboard_show_source_app: usize,
    pub clipboard_move_used_to_top: usize,
    pub clipboard_delete_after_paste: usize,
    pub clipboard_clear_system_pasteboard_after_paste: usize,
    pub clipboard_max_entries: usize,
    pub clipboard_auto_expire_days: usize,
    pub clipboard_pin_follow: usize,
    pub window_control_enabled: usize,
    pub window_control_up: usize,
    pub window_control_down: usize,
    pub window_control_left: usize,
    pub window_control_right: usize,
    pub window_control_display_up: usize,
    pub window_control_display_down: usize,
    pub window_control_display_left: usize,
    pub window_control_display_right: usize,
    pub quick_actions_enabled: usize,
    pub quick_actions_open_settings: usize,
    pub quick_actions_open_finder: usize,
    pub quick_actions_show_desktop: usize,
    pub quick_actions_lock_screen: usize,
    pub quick_actions_locate_pointer: usize,
    pub update_auto_check: usize,
    pub update_auto_download: usize,
}

/// The number of settings with a control.
pub const FIELD_COUNT: u8 = 50;

/// The place of a setting in the order in which controls are looked up.
pub open spec fn rank(field: ControlField) -> int {
    match field {
        ControlField::Theme => 0,
        ControlField::GlassStyle => 1,
        ControlField::GlassTint => 2,
        ControlField::Locale => 3,
        ControlField::LogLevel => 4,
        ControlField::LaunchAtLogin => 5,
        ControlField::WindowsEnabled => 6,
        ControlField::ShowMinimized => 7,
        ControlField::ThumbnailsEnabled => 8,
        ControlField::FocusedThumbnailPrewarm => 9,
        ControlField::ShowAppNameInCards => 10,
        ControlField::CardTextSize => 11,
        ControlField::StatusBarTextSize => 12,
        ControlField::OverlayPosition => 13,
        ControlField::ActivationMode => 14,
        ControlField::CornerRadius => 15,
        ControlField::Modifier => 16,
        ControlField::MouseEnabled => 17,
        ControlField::ReverseScroll => 18,
        ControlField::ScrollMode => 19,
        ControlField::LineCount => 20,
        ControlField::DisablePointerAccel => 21,
        ControlField::PointerAcceleration => 22,
        ControlField::MappingEnabled => 23,
        ControlField::ClipboardEnabled => 24,
        ControlField::ClipboardPersist => 25,
        ControlField::ClipboardShowSourceApp => 26,
        ControlField::ClipboardMoveUsedToTop => 27,
        ControlField::ClipboardDeleteAfterPaste => 28,
        ControlField::ClipboardClearSystemPasteboardAfterPaste => 29,
        ControlField::ClipboardMaxEntries => 30,
        ControlField::ClipboardAutoExpireDays => 31,
        ControlField::ClipboardPinFollow => 32,
        ControlField::WindowControlEnabled => 33,
        ControlField::WindowControlUp => 34,
        ControlField::WindowControlDown => 35,
        ControlField::WindowControlLeft => 36,
        ControlField::WindowControlRight => 37,
        ControlField::WindowControlDisplayUp => 38,
        ControlField::WindowControlDisplayDown => 39,
        ControlField::WindowControlDisplayLeft => 40,
        ControlField::WindowControlDisplayRight => 41,
        ControlField::QuickActionsEnabled => 42,
        ControlField::QuickActionOpenSettings => 43,
        ControlField::QuickActionOpenFinder => 44,
        ControlField::QuickActionShowDesktop => 45,
        ControlField::QuickActionLockScreen => 46,
        ControlField::QuickActionLocatePointer => 47,
        ControlField::UpdateAutoCheck => 48,
        ControlField::UpdateAutoDownload => 49,
    }
}

/// The setting at a place of that order.
pub open spec fn field_at(i: int) -> ControlField {
    if i == 0 {
        ControlField::Theme
    } else if i == 1 {
        ControlField::GlassStyle
    } else if i == 2 {
        ControlField::GlassTint
    } else if i == 3 {
        ControlField::Locale
    } else if i == 4 {
        ControlField::LogLevel
    } else if i == 5 {
        ControlField::LaunchAtLogin
    } else if i == 6 {
        ControlField::WindowsEnabled
    } else if i == 7 {
        ControlField::ShowMinimized
    } else if i == 8 {
        ControlField::ThumbnailsEnabled
    } else if i == 9 {
        ControlField::FocusedThumbnailPrewarm
    } else if i == 10 {
        ControlField::ShowAppNameInCards
    } else if i == 11 {
        ControlField::CardTextSize
    } else if i == 12 {
        ControlField::StatusBarTextSize
    } else if i == 13 {
        ControlField::OverlayPosition
    } else if i == 14 {
        ControlField::ActivationMode
    } else if i == 15 {
        ControlField::CornerRadius
    } else if i == 16 {
        ControlField::Modifier
    } else if i == 17 {
        ControlField::MouseEnabled
    } else if i == 18 {
        ControlField::ReverseScroll
    } else if i == 19 {
        ControlField::ScrollMode
    } else if i == 20 {
        ControlField::LineCount
    } else if i == 21 {
        ControlField::DisablePointerAccel
    } else if i == 22 {
        ControlField::PointerAcceleration
    } else if i == 23 {
        ControlField::MappingEnabled
    } else if i == 24 {
        ControlField::ClipboardEnabled
    } else if i == 25 {
        ControlField::ClipboardPersist
    } else if i == 26 {
        ControlField::ClipboardShowSourceApp
    } else if i == 27 {
        ControlField::ClipboardMoveUsedToTop
    } else if i == 28 {
        ControlField::ClipboardDeleteAfterPaste
    } else if i == 29 {
        ControlField::ClipboardClearSystemPasteboardAfterPaste
    } else if i == 30 {
        ControlField::ClipboardMaxEntries
    } else if i == 31 {
        ControlField::ClipboardAutoExpireDays
    } else if i == 32 {
        ControlField::ClipboardPinFollow
    } else if i == 33 {
        ControlField::WindowControlEnabled
    } else if i == 34 {
        ControlField::WindowControlUp
    } else if i == 35 {
        ControlField::WindowControlDown
    } else if i == 36 {
        ControlField::WindowControlLeft
    } else if i == 37 {
        ControlField::WindowControlRight
    } else if i == 38 {
        ControlField::WindowControlDisplayUp
    } else if i == 39 {
        ControlField::WindowControlDisplayDown
    } else if i == 40 {
        ControlField::WindowControlDisplayLeft
    } else if i == 41 {
        ControlField::WindowControlDisplayRight
    } else if i == 42 {
        ControlField::QuickActionsEnabled
    } else if i == 43 {
        ControlField::QuickActionOpenSettings
    } else if i == 44 {
        ControlField::QuickActionOpenFinder
    } else if i == 45 {
        ControlField::QuickActionShowDesktop
    } else if i == 46 {
        ControlField::QuickActionLockScreen
    } else if i == 47 {
        ControlField::QuickActionLocatePointer
    } else if i == 48 {
        ControlField::UpdateAutoCheck
    } else {
        ControlField::UpdateAutoDownload
    }
}

fn field_by_rank(i: u8) -> (r: ControlField)
    requires
        i < FIELD_COUNT,
    ensures
        r == field_at(i as int),
{
    match i {
        0 => ControlField::Theme,
        1 => ControlField::GlassStyle,
        2 => ControlField::GlassTint,
        3 => ControlField::Locale,
        4 => ControlField::LogLevel,
        5 => ControlField::LaunchAtLogin,
        6 => ControlField::WindowsEnabled,
        7 => ControlField::ShowMinimized,
        8 => ControlField::ThumbnailsEnabled,
        9 => ControlField::FocusedThumbnailPrewarm,
        10 => ControlField::ShowAppNameInCards,
        11 => ControlField::CardTextSize,
        12 => ControlField::StatusBarTextSize,
        13 => ControlField::OverlayPosition,
        14 => ControlField::ActivationMode,
        15 => ControlField::CornerRadius,
        16 => ControlField::Modifier,
        17 => ControlField::MouseEnabled,
        18 => ControlField::ReverseScroll,
        19 => ControlField::ScrollMode,
        20 => ControlField::LineCount,
        21 => ControlField::DisablePointerAccel,
        22 => ControlField::PointerAcceleration,
        23 => ControlField::MappingEnabled,
        24 => ControlField::ClipboardEnabled,
        25 => ControlField::ClipboardPersist,
        26 => ControlField::ClipboardShowSourceApp,
        27 => ControlField::ClipboardMoveUsedToTop,
        28 => ControlField::ClipboardDeleteAfterPaste,
        29 => ControlField::ClipboardClearSystemPasteboardAfterPaste,
        30 => ControlField::ClipboardMaxEntries,
        31 => ControlField::ClipboardAutoExpireDays,
        32 => ControlField::ClipboardPinFollow,
        33 => ControlField::WindowControlEnabled,
        34 => ControlField::WindowControlUp,
        35 => ControlField::WindowControlDown,
        36 => ControlField::WindowControlLeft,
        37 => ControlField::WindowControlRight,
        38 => ControlField::WindowControlDisplayUp,
        39 => ControlField::WindowControlDisplayDown,
        40 => ControlField::WindowControlDisplayLeft,
        41 => ControlField::WindowControlDisplayRight,
        42 => ControlField::QuickActionsEnabled,
        43 => ControlField::QuickActionOpenSettings,
        44 => ControlField::QuickActionOpenFinder,
        45 => ControlField::QuickActionShowDesktop,
        46 => ControlField::QuickActionLockScreen,
        47 => ControlField::QuickActionLocatePointer,
        48 => ControlField::UpdateAutoCheck,
        _ => ControlField::UpdateAutoDownload,
    }
}

/// Every setting has its place.
pub proof fn ranks_are_places(field: ControlField)
    ensures
        0 <= rank(field) < FIELD_COUNT,
        field_at(rank(field)) == field,
{
}

impl SettingsControls {
    /// The control of a setting.
    pub open spec fn id_of(self, field: ControlField) -> usize {
        match field {
            ControlField::Theme => self.theme,
            ControlField::GlassStyle => self.glass_style,
            ControlField::GlassTint => self.glass_tint,
            ControlField::Locale => self.locale,
            ControlField::LogLevel => self.log_level,
            ControlField::LaunchAtLogin => self.launch_at_login,
            ControlField::WindowsEnabled => self.windows_enabled,
            ControlField::ShowMinimized => self.show_minimized,
            ControlField::ThumbnailsEnabled => self.thumbnails_enabled,
            ControlField::FocusedThumbnailPrewarm => self.focused_thumbnail_prewarm,
            ControlField::ShowAppNameInCards => self.show_app_name_in_cards,
            ControlField::CardTextSize => self.card_text_size,
            ControlField::StatusBarTextSize => self.status_bar_text_size,
            ControlField::OverlayPosition => self.overlay_position,
            ControlField::ActivationMode => self.activation_mode,
            ControlField::CornerRadius => self.corner_radius,
            ControlField::Modifier => self.modifier,
            ControlField::MouseEnabled => self.enable_mouse,
            ControlField::ReverseScroll => self.reverse_scroll,
            ControlField::ScrollMode => self.scroll_mode,
            ControlField::LineCount => self.line_count,
            ControlField::DisablePointerAccel => self.disable_pointer_accel,
            ControlField::PointerAcceleration => self.pointer_accel_slider,
            ControlField::MappingEnabled => self.mapping_enabled,
            ControlField::ClipboardEnabled => self.clipboard_enabled,
            ControlField::ClipboardPersist => self.clipboard_persist,
            ControlField::ClipboardShowSourceApp => self.clipboard_show_source_app,
            ControlField::ClipboardMoveUsedToTop => self.clipboard_move_used_to_top,
            ControlField::ClipboardDeleteAfterPaste => self.clipboard_delete_after_paste,
            ControlField::ClipboardClearSystemPasteboardAfterPaste => {
                self.clipboard_clear_system_pasteboard_after_paste
            },
            ControlField::ClipboardMaxEntries => self.clipboard_max_entries,
            ControlField::ClipboardAutoExpireDays => self.clipboard_auto_expire_days,
            ControlField::ClipboardPinFollow => self.clipboard_pin_follow,
            ControlField::WindowControlEnabled => self.window_control_enabled,
            ControlField::WindowControlUp => self.window_control_up,
            ControlField::WindowControlDown => self.window_control_down,
            ControlField::WindowControlLeft => self.window_control_left,
            ControlField::WindowControlRight => self.window_control_right,
            ControlField::WindowControlDisplayUp => self.window_control_display_up,
            ControlField::WindowControlDisplayDown => self.window_control_display_down,
            ControlField::WindowControlDisplayLeft => self.window_control_display_left,
            ControlField::WindowControlDisplayRight => self.window_control_display_right,
            ControlField::QuickActionsEnabled => self.quick_actions_enabled,
            ControlField::QuickActionOpenSettings => self.quick_actions_open_settings,
            ControlField::QuickActionOpenFinder => self.quick_actions_open_finder,
            ControlField::QuickActionShowDesktop => self.quick_actions_show_desktop,
            ControlField::QuickActionLockScreen => self.quick_actions_lock_screen,
            ControlField::QuickActionLocatePointer => self.quick_actions_locate_pointer,
            ControlField::UpdateAutoCheck => self.update_auto_check,
            ControlField::UpdateAutoDownload => self.update_auto_download,
        }
    }

    /// No controls yet.
    pub fn none() -> (r: SettingsControls)
        ensures
            forall|f: ControlField| #[trigger] r.id_of(f) == 0,
    {
        SettingsControls {
            theme: 0,
            glass_style: 0,
            glass_tint: 0,
            locale: 0,
            log_level: 0,
            launch_at_login: 0,
            windows_enabled: 0,
            show_minimized: 0,
            thumbnails_enabled: 0,
            focused_thumbnail_prewarm: 0,
            show_app_name_in_cards: 0,
            card_text_size: 0,
            status_bar_text_size: 0,
            overlay_position: 0,
            activation_mode: 0,
            corner_radius: 0,
            modifier: 0,
            enable_mouse: 0,
            reverse_scroll: 0,
            scroll_mode: 0,
            line_count: 0,
            disable_pointer_accel: 0,
            pointer_accel_slider: 0,
            mapping_enabled: 0,
            clipboard_enabled: 0,
            clipboard_persist: 0,
            clipboard_show_source_app: 0,
            clipboard_move_used_to_top: 0,
            clipboard_delete_after_paste: 0,
            clipboard_clear_system_pasteboard_after_paste: 0,
            clipboard_max_entries: 0,
            clipboard_auto_expire_days: 0,
            clipboard_pin_follow: 0,
            window_control_enabled: 0,
            window_control_up: 0,
            window_control_down: 0,
            window_control_left: 0,
            window_control_right: 0,
            window_control_display_up: 0,
            window_control_display_down: 0,
            window_control_display_left: 0,
            window_control_display_right: 0,
            quick_actions_enabled: 0,
            quick_actions_open_settings: 0,
            quick_actions_open_finder: 0,
            quick_actions_show_desktop: 0,
            quick_actions_lock_screen: 0,
            quick_actions_locate_pointer: 0,
            update_auto_check: 0,
            update_auto_download: 0,
        }
    }

    /// Records the control of a setting.
    pub fn assign(&mut self, field: ControlField, control: usize)
        ensures
            final(self).id_of(field) == control,
            forall|f: ControlField|
                f != field ==> #[trigger] final(self).id_of(f) == old(self).id_of(f),
    {
        match field {
            ControlField::Theme => {
                self.theme = control;
            },
            ControlField::GlassStyle => {
                self.glass_style = control;
            },
            ControlField::GlassTint => {
                self.glass_tint = control;
            },
            ControlField::Locale => {
                self.locale = control;
            },
            ControlField::LogLevel => {
                self.log_level = control;
            },
            ControlField::LaunchAtLogin => {
                self.launch_at_login = control;
            },
            ControlField::WindowsEnabled => {
                self.windows_enabled = control;
            },
            ControlField::ShowMinimized => {
                self.show_minimized = control;
            },
            ControlField::ThumbnailsEnabled => {
                self.thumbnails_enabled = control;
            },
            ControlField::FocusedThumbnailPrewarm => {
                self.focused_thumbnail_prewarm = control;
            },
            ControlField::ShowAppNameInCards => {
                self.show_app_name_in_cards = control;
            },
            ControlField::CardTextSize => {
                self.card_text_size = control;
            },
            ControlField::StatusBarTextSize => {
                self.status_bar_text_size = control;
            },
            ControlField::OverlayPosition => {
                self.overlay_position = control;
            },
            ControlField::ActivationMode => {
                self.activation_mode = control;
            },
            ControlField::CornerRadius => {
                self.corner_radius = control;
            },
            ControlField::Modifier => {
                self.modifier = control;
            },
            ControlField::MouseEnabled => {
                self.enable_mouse = control;
            },
            ControlField::ReverseScroll => {
                self.reverse_scroll = control;
            },
            ControlField::ScrollMode => {
                self.scroll_mode = control;
            },
            ControlField::LineCount => {
                self.line_count = control;
            },
            ControlField::DisablePointerAccel => {
                self.disable_pointer_accel = control;
            },
            ControlField::PointerAcceleration => {
                self.pointer_accel_slider = control;
            },
            ControlField::MappingEnabled => {
                self.mapping_enabled = control;
            },
            ControlField::ClipboardEnabled => {
                self.clipboard_enabled = control;
            },
            ControlField::ClipboardPersist => {
                self.clipboard_persist = control;
            },
            ControlField::ClipboardShowSourceApp => {
                self.clipboard_show_source_app = control;
            },
            ControlField::ClipboardMoveUsedToTop => {
                self.clipboard_move_used_to_top = control;
            },
            ControlField::ClipboardDeleteAfterPaste => {
                self.clipboard_delete_after_paste = control;
            },
            ControlField::ClipboardClearSystemPasteboardAfterPaste => {
                self.clipboard_clear_system_pasteboard_after_paste = control;
            },
            ControlField::ClipboardMaxEntries => {
                self.clipboard_max_entries = control;
            },
            ControlField::ClipboardAutoExpireDays => {
                self.clipboard_auto_expire_days = control;
            },
            ControlField::ClipboardPinFollow => {
                self.clipboard_pin_follow = control;
            },
            ControlField::WindowControlEnabled => {
                self.window_control_enabled = control;
            },
            ControlField::WindowControlUp => {
                self.window_control_up = control;
            },
            ControlField::WindowControlDown => {
                self.window_control_down = control;
            },
            ControlField::WindowControlLeft => {
                self.window_control_left = control;
            },
            ControlField::WindowControlRight => {
                self.window_control_right = control;
            },
            ControlField::WindowControlDisplayUp => {
                self.window_control_display_up = control;
            },
            ControlField::WindowControlDisplayDown => {
                self.window_control_display_down = control;
            },
            ControlField::WindowControlDisplayLeft => {
                self.window_control_display_left = control;
            },
            ControlField::WindowControlDisplayRight => {
                self.window_control_display_right = control;
            },
            ControlField::QuickActionsEnabled => {
                self.quick_actions_enabled = control;
            },
            ControlField::QuickActionOpenSettings => {
                self.quick_actions_open_settings = control;
            },
            ControlField::QuickActionOpenFinder => {
                self.quick_actions_open_finder = control;
            },
            ControlField::QuickActionShowDesktop => {
                self.quick_actions_show_desktop = control;
            },
            ControlField::QuickActionLockScreen => {
                self.quick_actions_lock_screen = control;
            },
            ControlField::QuickActionLocatePointer => {
                self.quick_actions_locate_pointer = control;
            },
            ControlField::UpdateAutoCheck => {
                self.update_auto_check = control;
            },
            ControlField::UpdateAutoDownload => {
                self.update_auto_download = control;
            },
        }
    }

    /// The control of a setting.
    pub fn control(&self, field: ControlField) -> (r: usize)
        ensures
            r == self.id_of(field),
    {
        match field {
            ControlField::Theme => self.theme,
            ControlField::GlassStyle => self.glass_style,
            ControlField::GlassTint => self.glass_tint,
            ControlField::Locale => self.locale,
            ControlField::LogLevel => self.log_level,
            ControlField::LaunchAtLogin => self.launch_at_login,
            ControlField::WindowsEnabled => self.windows_enabled,
            ControlField::ShowMinimized => self.show_minimized,
            ControlField::ThumbnailsEnabled => self.thumbnails_enabled,
            ControlField::FocusedThumbnailPrewarm => self.focused_thumbnail_prewarm,
            ControlField::ShowAppNameInCards => self.show_app_name_in_cards,
            ControlField::CardTextSize => self.card_text_size,
            ControlField::StatusBarTextSize => self.status_bar_text_size,
            ControlField::OverlayPosition => self.overlay_position,
            ControlField::ActivationMode => self.activation_mode,
            ControlField::CornerRadius => self.corner_radius,
            ControlField::Modifier => self.modifier,
            ControlField::MouseEnabled => self.enable_mouse,
            ControlField::ReverseScroll => self.reverse_scroll,
            ControlField::ScrollMode => self.scroll_mode,
            ControlField::LineCount => self.line_count,
            ControlField::DisablePointerAccel => self.disable_pointer_accel,
            ControlField::PointerAcceleration => self.pointer_accel_slider,
            ControlField::MappingEnabled => self.mapping_enabled,
            ControlField::ClipboardEnabled => self.clipboard_enabled,
            ControlField::ClipboardPersist => self.clipboard_persist,
            ControlField::ClipboardShowSourceApp => self.clipboard_show_source_app,
            ControlField::ClipboardMoveUsedToTop => self.clipboard_move_used_to_top,
            ControlField::ClipboardDeleteAfterPaste => self.clipboard_delete_after_paste,
            ControlField::ClipboardClearSystemPasteboardAfterPaste => {
                self.clipboard_clear_system_pasteboard_after_paste
            },
            ControlField::ClipboardMaxEntries => self.clipboard_max_entries,
            ControlField::ClipboardAutoExpireDays => self.clipboard_auto_expire_days,
            ControlField::ClipboardPinFollow => self.clipboard_pin_follow,
            ControlField::WindowControlEnabled => self.window_control_enabled,
            ControlField::WindowControlUp => self.window_control_up,
            ControlField::WindowControlDown => self.window_control_down,
            ControlField::WindowControlLeft => self.window_control_left,
            ControlField::WindowControlRight => self.window_control_right,
            ControlField::WindowControlDisplayUp => self.window_control_display_up,
            ControlField::WindowControlDisplayDown => self.window_control_display_down,
            ControlField::WindowControlDisplayLeft => self.window_control_display_left,
            ControlField::WindowControlDisplayRight => self.window_control_display_right,
            ControlField::QuickActionsEnabled => self.quick_actions_enabled,
            ControlField::QuickActionOpenSettings => self.quick_actions_open_settings,
            ControlField::QuickActionOpenFinder => self.quick_actions_open_finder,
            ControlField::QuickActionShowDesktop => self.quick_actions_show_desktop,
            ControlField::QuickActionLockScreen => self.quick_actions_lock_screen,
            ControlField::QuickActionLocatePointer => self.quick_actions_locate_pointer,
            ControlField::UpdateAutoCheck => self.update_auto_check,
            ControlField::UpdateAutoDownload => self.update_auto_download,
        }
    }

    /// No two settings share a control.
    pub open spec fn distinct(self) -> bool {
        forall|f: ControlField, g: ControlField| #[trigger]
            self.id_of(f) == #[trigger] self.id_of(g) ==> f == g
    }
}

/// The first setting, from a place of the order on, whose control is `sender`.
pub open spec fn first_from(ui: SettingsControls, sender: usize, i: int) -> Option<ControlField>
    decreases FIELD_COUNT - i,
{
    if i < 0 || i >= FIELD_COUNT {
        None
    } else if ui.id_of(field_at(i)) == sender {
        Some(field_at(i))
    } else {
        first_from(ui, sender, i + 1)
    }
}

/// The setting whose control sent a message.
pub fn control_field_of(ui: &SettingsControls, sender: usize) -> (r: Option<ControlField>)
    ensures
        r == first_from(*ui, sender, 0),
        r matches Some(field) ==> ui.id_of(field) == sender,
        r is None ==> forall|field: ControlField| #[trigger] ui.id_of(field) != sender,
{
    let mut i: u8 = 0;
    while i < FIELD_COUNT
        invariant
            i <= FIELD_COUNT,
            first_from(*ui, sender, 0) == first_from(*ui, sender, i as int),
            forall|j: int| 0 <= j < i ==> ui.id_of(#[trigger] field_at(j)) != sender,
        decreases FIELD_COUNT - i,
    {
        let field = field_by_rank(i);
        if ui.control(field) == sender {
            return Some(field);
        }
        i += 1;
    }
    assert forall|field: ControlField| #[trigger] ui.id_of(field) != sender by {
        ranks_are_places(field);
        assert(ui.id_of(field_at(rank(field))) != sender);
    }
    None
}

/// Where no two settings share a control, each control leads back to its setting.
pub proof fn controls_are_recognised(ui: SettingsControls, field: ControlField)
    requires
        ui.distinct(),
    ensures
        first_from(ui, ui.id_of(field), 0) == Some(field),
{
    ranks_are_places(field);
    recognised_from(ui, field, 0);
}

proof fn recognised_from(ui: SettingsControls, field: ControlField, i: int)
    requires
        ui.distinct(),
        0 <= i <= rank(field) < FIELD_COUNT,
        field_at(rank(field)) == field,
    ensures
        first_from(ui, ui.id_of(field), i) == Some(field),
    decreases rank(field) - i,
{
    if i < rank(field) {
        if ui.id_of(field_at(i)) == ui.id_of(field) {
            assert(field_at(i) == field);
            place_has_rank(i);
        }
        recognised_from(ui, field, i + 1);
    }
}

proof fn place_has_rank(i: int)
    requires
        0 <= i < FIELD_COUNT,
    ensures
        rank(field_at(i)) == i,
{
}

/// What the control of a setting shows at the moment.
#[derive(Debug)]
pub struct ControlReading {
    /// The chosen option of a select, the state of a switch (1 means on), or the
    /// whole value of a slider.
    pub number: i64,
    /// The colour of a colour well in hexadecimal notation, where it has one.
    pub color: Option<String>,
    /// The value of the line-count slider.
    pub line_count: i64,
    /// The value of the tracking-speed slider in millionths, where it is a number.
    pub speed: Option<i64>,
}

/// The texts that the options of a select stand for.
#[derive(Debug)]
pub struct ChoiceTables {
    pub locales: Vec<String>,
    pub scroll_modes: Vec<String>,
    /// The tracking speed to use for a value that is no number, in hundredths.
    pub fallback_speed: u32,
}

/// The text of a chosen option, or a fallback where the choice names none.
pub open spec fn choice(values: Seq<String>, index: int, fallback: Seq<char>) -> Seq<char> {
    if 0 <= index < values.len() { values[index]@ } else { fallback }
}

fn chosen(values: &Vec<String>, index: i64, fallback: &str) -> (r: String)
    ensures
        r@ == choice(values@, index as int, fallback@),
{
    if index >= 0 && (index as u64) < (values.len() as u64) {
        values[index as usize].clone()
    } else {
        fallback.to_owned()
    }
}

/// Fewest and most days after which a clipboard entry expires; zero means never.
pub const CLIPBOARD_AUTO_EXPIRE_MIN: u32 = 0;

pub const CLIPBOARD_AUTO_EXPIRE_MAX: u32 = 7;

/// Slowest and fastest tracking speed, in hundredths.
pub const MOUSE_ACCELERATION_MIN: u32 = 0;

pub const MOUSE_ACCELERATION_MAX: u32 = 1_000;

/// The tracking speed for a slider value in millionths: within the limits, rounded
/// to hundredths, halves upwards.
pub open spec fn speed_of(raw: Option<i64>, fallback: u32) -> int {
    match raw {
        None => fallback as int,
        Some(v) => {
            let c = if v < 0 { 0 } else if v > 10_000_000 { 10_000_000 } else { v as int };
            (c + 5_000) / 10_000
        },
    }
}

/// The tracking speed, in hundredths, that is stored for a slider value.
pub fn pointer_accel_from_slider(raw: Option<i64>, fallback: u32) -> (r: u32)
    ensures
        r == speed_of(raw, fallback),
        raw is Some ==> MOUSE_ACCELERATION_MIN <= r <= MOUSE_ACCELERATION_MAX,
{
    match raw {
        None => fallback,
        Some(v) => {
            let c: i64 = if v < 0 { 0 } else if v > 10_000_000 { 10_000_000 } else { v };
            ((c + 5_000) / 10_000) as u32
        },
    }
}

/// A number of hundredths with two decimals.
pub fn pointer_accel_display(hundredths: u32) -> (r: String)
    ensures
        r@ == text::decimal(hundredths as nat / 100) + seq!['.'] + text::two_digits(
            hundredths as int % 100,
        ),
{
    proof {
        reveal_strlit(".");
        assert("."@ =~= seq!['.']);
    }
    let mut text = decimal_text((hundredths / 100) as u64);
    text.append(".");
    push_two_digits(&mut text, hundredths % 100);
    text
}

/// A speed that a slider gave is shown as it is stored.
pub proof fn stored_speed_survives_the_slider(hundredths: u32, fallback: u32)
    requires
        hundredths <= MOUSE_ACCELERATION_MAX,
    ensures
        speed_of(Some((hundredths * 10_000) as i64), fallback) == hundredths,
{
}

/// Settings that belong to the profile of the selected device.
pub open spec fn is_profile_field(field: ControlField) -> bool {
    match field {
        ControlField::ReverseScroll => true,
        ControlField::ScrollMode => true,
        ControlField::LineCount => true,
        ControlField::DisablePointerAccel => true,
        ControlField::PointerAcceleration => true,
        ControlField::MappingEnabled => true,
        _ => false,
    }
}

/// The profile of the selected device after a change of one of its controls.
pub open spec fn profile_after(
    p: crate::config::ProfileView,
    field: ControlField,
    reading: ControlReading,
    tables: ChoiceTables,
) -> crate::config::ProfileView {
    let mode = choice(tables.scroll_modes@, reading.number as int, "default"@);
    match field {
        ControlField::ReverseScroll => crate::config::ProfileView {
            reverse_scroll: Some(reading.number == 1),
            ..p
        },
        ControlField::ScrollMode => crate::config::ProfileView {
            scroll_mode: Some(mode),
            line_count: if mode == "line"@ {
                Some(profiles::stored_line_count(reading.line_count as int))
            } else {
                p.line_count
            },
            ..p
        },
        ControlField::LineCount => crate::config::ProfileView {
            line_count: Some(profiles::stored_line_count(reading.number as int)),
            ..p
        },
        ControlField::DisablePointerAccel => crate::config::ProfileView {
            pointer: Some(
                crate::config::PointerConfig {
                    disable_acceleration: Some(reading.number == 1),
                    ..profiles::pointer_of(p)
                },
            ),
            ..p
        },
        ControlField::PointerAcceleration => crate::config::ProfileView {
            pointer: Some(
                crate::config::PointerConfig {
                    acceleration: Some(speed_of(reading.speed, tables.fallback_speed) as u32),
                    ..profiles::pointer_of(p)
                },
            ),
            ..p
        },
        ControlField::MappingEnabled => crate::config::ProfileView {
            button_mappings_enabled: Some(reading.number == 1),
            ..p
        },
        _ => p,
    }
}

/// Writes a changed control of the mouse page to the profile of the selected
/// device. The line count is taken over only in line mode, and each pointer setting
/// leaves the other one alone.
pub fn apply_mouse_profile_field(
    cfg: &mut Config,
    dev: Option<DeviceKey>,
    field: ControlField,
    reading: &ControlReading,
    tables: &ChoiceTables,
)
    requires
        old(cfg).mouse.valid(),
    ensures
        final(cfg).mouse.valid(),
        is_profile_field(field) ==> {
            &&& profiles::only_profiles_changed(*old(cfg), *final(cfg))
            &&& profiles::only_profile_changed(
                old(cfg).mouse.profiles@,
                final(cfg).mouse.profiles@,
                dev,
                profile_after(
                    profiles::profile_of(old(cfg).mouse.profiles@, dev),
                    field,
                    *reading,
                    *tables,
                ),
            )
        },
        !is_profile_field(field) ==> *final(cfg) == *old(cfg),
{
    let on = reading.number == 1;
    match field {
        ControlField::ReverseScroll => {
            write_selected_profile(cfg, dev, ProfileEdit::ReverseScroll(on));
        },
        ControlField::ScrollMode => {
            let mode = chosen(&tables.scroll_modes, reading.number, "default");
            let line_count = if same_text(mode.as_str(), "line") {
                Some(reading.line_count)
            } else {
                None
            };
            write_selected_profile(cfg, dev, ProfileEdit::ScrollMode { mode, line_count });
        },
        ControlField::LineCount => {
            write_selected_profile(cfg, dev, ProfileEdit::LineCount(reading.number));
        },
        ControlField::DisablePointerAccel => {
            write_selected_profile(cfg, dev, ProfileEdit::DisableAcceleration(on));
        },
        ControlField::PointerAcceleration => {
            let speed = pointer_accel_from_slider(reading.speed, tables.fallback_speed);
            write_selected_profile(cfg, dev, ProfileEdit::Acceleration(speed));
        },
        ControlField::MappingEnabled => {
            write_selected_profile(cfg, dev, ProfileEdit::MappingsEnabled(on));
        },
        _ => {},
    }
}

/// The number of days that is stored for a slider value.
pub open spec fn expire_days(value: int) -> u32 {
    if value < CLIPBOARD_AUTO_EXPIRE_MIN {
        CLIPBOARD_AUTO_EXPIRE_MIN
    } else if value > CLIPBOARD_AUTO_EXPIRE_MAX {
        CLIPBOARD_AUTO_EXPIRE_MAX
    } else {
        value as u32
    }
}

fn clamp_expire_days(value: i64) -> (r: u32)
    ensures
        r == expire_days(value as int),
{
    if value < CLIPBOARD_AUTO_EXPIRE_MIN as i64 {
        CLIPBOARD_AUTO_EXPIRE_MIN
    } else if value > CLIPBOARD_AUTO_EXPIRE_MAX as i64 {
        CLIPBOARD_AUTO_EXPIRE_MAX
    } else {
        value as u32
    }
}

/// The settings of the clipboard page after a change of one of their controls.
pub open spec fn clipboard_after(
    c: ClipboardConfig,
    field: ControlField,
    number: int,
) -> ClipboardConfig {
    match field {
        ControlField::ClipboardEnabled => ClipboardConfig { enabled: number == 1, ..c },
        ControlField::ClipboardPersist => ClipboardConfig { persist: number == 1, ..c },
        ControlField::ClipboardShowSourceApp => ClipboardConfig {
            show_source_app: number == 1,
            ..c
        },
        ControlField::ClipboardMoveUsedToTop => ClipboardConfig {
            move_used_to_top: number == 1,
            ..c
        },
        ControlField::ClipboardDeleteAfterPaste => ClipboardConfig {
            delete_after_paste: number == 1,
            ..c
        },
        ControlField::ClipboardClearSystemPasteboardAfterPaste => ClipboardConfig {
            clear_system_pasteboard_after_paste: number == 1,
            ..c
        },
        ControlField::ClipboardAutoExpireDays => ClipboardConfig {
            auto_expire_days: expire_days(number),
            ..c
        },
        ControlField::ClipboardPinFollow => ClipboardConfig {
            pin_follow_selection: number != 1,
            ..c
        },
        _ => c,
    }
}

fn clipboard_with(c: ClipboardConfig, field: ControlField, number: i64) -> (r: ClipboardConfig)
    ensures
        r == clipboard_after(c, field, number as int),
{
    match field {
        ControlField::ClipboardEnabled => ClipboardConfig { enabled: number == 1, ..c },
        ControlField::ClipboardPersist => ClipboardConfig { persist: number == 1, ..c },
        ControlField::ClipboardShowSourceApp => ClipboardConfig {
            show_source_app: number == 1,
            ..c
        },
        ControlField::ClipboardMoveUsedToTop => ClipboardConfig {
            move_used_to_top: number == 1,
            ..c
        },
        ControlField::ClipboardDeleteAfterPaste => ClipboardConfig {
            delete_after_paste: number == 1,
            ..c
        },
        ControlField::ClipboardClearSystemPasteboardAfterPaste => ClipboardConfig {
            clear_system_pasteboard_after_paste: number == 1,
            ..c
        },
        ControlField::ClipboardAutoExpireDays => ClipboardConfig {
            auto_expire_days: clamp_expire_days(number),
            ..c
        },
        ControlField::ClipboardPinFollow => ClipboardConfig {
            pin_follow_selection: number != 1,
            ..c
        },
        _ => c,
    }
}

/// The settings of the window-control page after a change of one of their controls.
pub open spec fn window_control_after(
    c: WindowControlConfig,
    field: ControlField,
    number: int,
) -> WindowControlConfig {
    match field {
        ControlField::WindowControlEnabled => WindowControlConfig { enabled: number == 1, ..c },
        ControlField::WindowControlUp => WindowControlConfig { up: number == 1, ..c },
        ControlField::WindowControlDown => WindowControlConfig { down: number == 1, ..c },
        ControlField::WindowControlLeft => WindowControlConfig { left: number == 1, ..c },
        ControlField::WindowControlRight => WindowControlConfig { right: number == 1, ..c },
        ControlField::WindowControlDisplayUp => WindowControlConfig {
            display_up: number == 1,
            ..c
        },
        ControlField::WindowControlDisplayDown => WindowControlConfig {
            display_down: number == 1,
            ..c
        },
        ControlField::WindowControlDisplayLeft => WindowControlConfig {
            display_left: number == 1,
            ..c
        },
        ControlField::WindowControlDisplayRight => WindowControlConfig {
            display_right: number == 1,
            ..c
        },
        _ => c,
    }
}

fn window_control_with(
    c: WindowControlConfig,
    field: ControlField,
    number: i64,
) -> (r: WindowControlConfig)
    ensures
        r == window_control_after(c, field, number as int),
{
    match field {
        ControlField::WindowControlEnabled => WindowControlConfig { enabled: number == 1, ..c },
        ControlField::WindowControlUp => WindowControlConfig { up: number == 1, ..c },
        ControlField::WindowControlDown => WindowControlConfig { down: number == 1, ..c },
        ControlField::WindowControlLeft => WindowControlConfig { left: number == 1, ..c },
        ControlField::WindowControlRight => WindowControlConfig { right: number == 1, ..c },
        ControlField::WindowControlDisplayUp => WindowControlConfig {
            display_up: number == 1,
            ..c
        },
        ControlField::WindowControlDisplayDown => WindowControlConfig {
            display_down: number == 1,
            ..c
        },
        ControlField::WindowControlDisplayLeft => WindowControlConfig {
            display_left: number == 1,
            ..c
        },
        ControlField::WindowControlDisplayRight => WindowControlConfig {
            display_right: number == 1,
            ..c
        },
        _ => c,
    }
}

/// The settings of the quick-actions page after a change of one of their controls.
pub open spec fn quick_actions_after(
    c: QuickActionsConfig,
    field: ControlField,
    number: int,
) -> QuickActionsConfig {
    match field {
        ControlField::QuickActionsEnabled => QuickActionsConfig { enabled: number == 1, ..c },
        ControlField::QuickActionOpenSettings => QuickActionsConfig {
            open_settings: number == 1,
            ..c
        },
        ControlField::QuickActionOpenFinder => QuickActionsConfig { open_finder: number == 1, ..c },
        ControlField::QuickActionShowDesktop => QuickActionsConfig {
            show_desktop: number == 1,
            ..c
        },
        ControlField::QuickActionLockScreen => QuickActionsConfig { lock_screen: number == 1, ..c },
        ControlField::QuickActionLocatePointer => QuickActionsConfig {
            locate_pointer: number == 1,
            ..c
        },
        _ => c,
    }
}

fn quick_actions_with(
    c: QuickActionsConfig,
    field: ControlField,
    number: i64,
) -> (r: QuickActionsConfig)
    ensures
        r == quick_actions_after(c, field, number as int),
{
    match field {
        ControlField::QuickActionsEnabled => QuickActionsConfig { enabled: number == 1, ..c },
        ControlField::QuickActionOpenSettings => QuickActionsConfig {
            open_settings: number == 1,
            ..c
        },
        ControlField::QuickActionOpenFinder => QuickActionsConfig { open_finder: number == 1, ..c },
        ControlField::QuickActionShowDesktop => QuickActionsConfig {
            show_desktop: number == 1,
            ..c
        },
        ControlField::QuickActionLockScreen => QuickActionsConfig { lock_screen: number == 1, ..c },
        ControlField::QuickActionLocatePointer => QuickActionsConfig {
            locate_pointer: number == 1,
            ..c
        },
        _ => c,
    }
}

/// Settings that are sizes of texts, in points.
pub open spec fn is_size_field(field: ControlField) -> bool {
    field == ControlField::CardTextSize || field == ControlField::StatusBarTextSize
}

/// The settings of the window cards after a change of one of their controls.
pub open spec fn layout_after(c: LayoutConfig, field: ControlField, number: int) -> LayoutConfig {
    match field {
        ControlField::ThumbnailsEnabled => LayoutConfig { thumbnails_enabled: number == 1, ..c },
        ControlField::FocusedThumbnailPrewarm => LayoutConfig {
            focused_thumbnail_prewarm: number == 1,
            ..c
        },
        ControlField::ShowAppNameInCards => LayoutConfig {
            show_app_name_in_cards: number == 1,
            ..c
        },
        ControlField::CardTextSize => LayoutConfig { card_text_size: (number * 1_000) as i64, ..c },
        _ => c,
    }
}

fn layout_with(c: LayoutConfig, field: ControlField, number: i64) -> (r: LayoutConfig)
    requires
        is_size_field(field) ==> crate::geometry::in_range(number as int),
    ensures
        r == layout_after(c, field, number as int),
{
    match field {
        ControlField::ThumbnailsEnabled => LayoutConfig { thumbnails_enabled: number == 1, ..c },
        ControlField::FocusedThumbnailPrewarm => LayoutConfig {
            focused_thumbnail_prewarm: number == 1,
            ..c
        },
        ControlField::ShowAppNameInCards => LayoutConfig {
            show_app_name_in_cards: number == 1,
            ..c
        },
        ControlField::CardTextSize => LayoutConfig { card_text_size: number * 1_000, ..c },
        _ => c,
    }
}

/// The settings of updates after a change of one of their controls.
pub open spec fn updates_after(
    c: UpdatesConfig,
    field: ControlField,
    number: int,
) -> UpdatesConfig {
    match field {
        ControlField::UpdateAutoCheck => UpdatesConfig { automatically_check: number == 1, ..c },
        ControlField::UpdateAutoDownload => UpdatesConfig {
            automatically_download: number == 1,
            ..c
        },
        _ => c,
    }
}

fn updates_with(c: UpdatesConfig, field: ControlField, number: i64) -> (r: UpdatesConfig)
    ensures
        r == updates_after(c, field, number as int),
{
    match field {
        ControlField::UpdateAutoCheck => UpdatesConfig { automatically_check: number == 1, ..c },
        ControlField::UpdateAutoDownload => UpdatesConfig {
            automatically_download: number == 1,
            ..c
        },
        _ => c,
    }
}

/// Whether `new` is the configuration `old` with one setting taken from its control,
/// for the settings outside the mouse profiles. The two numeric text fields do not
/// change this way.
pub open spec fn setting_written(
    old: Config,
    new: Config,
    field: ControlField,
    reading: ControlReading,
    tables: ChoiceTables,
) -> bool {
    let number = reading.number as int;
    match field {
        ControlField::Theme => {
            &&& new == (Config {
                appearance: AppearanceConfig { theme: new.appearance.theme, ..old.appearance },
                ..old
            })
            &&& new.appearance.theme@ == if number == 0 {
                "dark"@
            } else if number == 1 {
                "light"@
            } else {
                "auto"@
            }
        },
        ControlField::GlassStyle => {
            &&& new == (Config {
                appearance: AppearanceConfig {
                    glass_style: new.appearance.glass_style,
                    ..old.appearance
                },
                ..old
            })
            &&& new.appearance.glass_style@ == if number == 1 { "clear"@ } else { "regular"@ }
        },
        ControlField::LogLevel => {
            &&& new == (Config {
                logging: LoggingConfig { level: new.logging.level },
                ..old
            })
            &&& new.logging.level@ == if number == 0 { "debug"@ } else { "info"@ }
        },
        ControlField::OverlayPosition => {
            &&& new == (Config {
                windows: WindowsConfig {
                    overlay_position: new.windows.overlay_position,
                    ..old.windows
                },
                ..old
            })
            &&& new.windows.overlay_position@ == if number == 1 {
                "main"@
            } else {
                "active_window"@
            }
        },
        ControlField::ActivationMode => {
            &&& new == (Config {
                windows: WindowsConfig {
                    activation_mode: new.windows.activation_mode,
                    ..old.windows
                },
                ..old
            })
            &&& new.windows.activation_mode@ == if number == 1 { "click"@ } else { "hover"@ }
        },
        ControlField::Modifier => {
            &&& new == (Config {
                keyboard: KeyboardConfig { modifier: new.keyboard.modifier },
                ..old
            })
            &&& new.keyboard.modifier@ == if number == 1 { "command"@ } else { "option"@ }
        },
        ControlField::GlassTint => match reading.color {
            Some(hex) => {
                &&& new == (Config {
                    appearance: AppearanceConfig {
                        glass_tint: new.appearance.glass_tint,
                        ..old.appearance
                    },
                    ..old
                })
                &&& new.appearance.glass_tint@ == hex@
            },
            None => new == old,
        },
        ControlField::Locale => {
            &&& new == (Config { i18n: I18nConfig { locale: new.i18n.locale }, ..old })
            &&& new.i18n.locale@ == choice(tables.locales@, number, "auto"@)
        },
        ControlField::StatusBarTextSize => new == (Config {
            fonts: FontsConfig { status_bar_size: (number * 1_000) as i64 },
            ..old
        }),
        ControlField::LaunchAtLogin => new == (Config {
            startup: StartupConfig { launch_at_login: number == 1 },
            ..old
        }),
        ControlField::WindowsEnabled => new == (Config {
            windows: WindowsConfig { enabled: number == 1, ..old.windows },
            ..old
        }),
        ControlField::ShowMinimized => new == (Config {
            windows: WindowsConfig { show_minimized: number == 1, ..old.windows },
            ..old
        }),
        ControlField::MouseEnabled => new == (Config {
            mouse: MouseConfig { enabled: number == 1, ..old.mouse },
            ..old
        }),
        _ => new == (Config {
            layout: layout_after(old.layout, field, number),
            clipboard: clipboard_after(old.clipboard, field, number),
            window_control: window_control_after(old.window_control, field, number),
            quick_actions: quick_actions_after(old.quick_actions, field, number),
            updates: updates_after(old.updates, field, number),
            ..old
        }),
    }
}

/// What is left to do after a setting was written; the caller saves it in any case.
#[derive(Clone, Copy, Debug, PartialEq, Eq, Structural)]
pub struct FieldOutcome {
    /// Repaint the glass previews.
    pub preview: bool,
    /// Show the line count that is in force, and its row only in line mode.
    pub refresh_line_count: bool,
}

/// The settings that `apply_choice_field` is for.
pub open spec fn in_choice_group(field: ControlField) -> bool {
    match field {
        ControlField::Theme => true,
        ControlField::GlassStyle => true,
        ControlField::LogLevel => true,
        ControlField::OverlayPosition => true,
        ControlField::ActivationMode => true,
        ControlField::Modifier => true,
        ControlField::GlassTint => true,
        ControlField::Locale => true,
        _ => false,
    }
}

/// Takes over the settings that are chosen from a list or a colour well.
///
/// Returns whether the setting is one of these; others are left alone.
fn apply_choice_field(
    cfg: &mut Config,
    field: ControlField,
    reading: &ControlReading,
    tables: &ChoiceTables,
) -> (r: bool)
    ensures
        final(cfg).mouse.profiles == old(cfg).mouse.profiles,
        r ==> setting_written(*old(cfg), *final(cfg), field, *reading, *tables),
        !r ==> *final(cfg) == *old(cfg),
        r == in_choice_group(field),
{
    match field {
        ControlField::Theme => {
            let value = if reading.number == 0 {
                "dark"
            } else if reading.number == 1 {
                "light"
            } else {
                "auto"
            };
            cfg.appearance.theme = value.to_owned();
        },
        ControlField::GlassStyle => {
            let value = if reading.number == 1 { "clear" } else { "regular" };
            cfg.appearance.glass_style = value.to_owned();
        },
        ControlField::LogLevel => {
            let value = if reading.number == 0 { "debug" } else { "info" };
            cfg.logging.level = value.to_owned();
        },
        ControlField::OverlayPosition => {
            let value = if reading.number == 1 { "main" } else { "active_window" };
            cfg.windows.overlay_position = value.to_owned();
        },
        ControlField::ActivationMode => {
            let value = if reading.number == 1 { "click" } else { "hover" };
            cfg.windows.activation_mode = value.to_owned();
        },
        ControlField::Modifier => {
            let value = if reading.number == 1 { "command" } else { "option" };
            cfg.keyboard.modifier = value.to_owned();
        },
        ControlField::GlassTint => {
            if let Some(hex) = &reading.color {
                cfg.appearance.glass_tint = hex.clone();
            }
        },
        ControlField::Locale => {
            cfg.i18n.locale = chosen(&tables.locales, reading.number, "auto");
        },
        _ => {
            return false;
        },
    }
    true
}

/// The settings that `apply_switch_field` is for.
pub open spec fn in_switch_group(field: ControlField) -> bool {
    match field {
        ControlField::LaunchAtLogin => true,
        ControlField::WindowsEnabled => true,
        ControlField::ShowMinimized => true,
        ControlField::MouseEnabled => true,
        ControlField::StatusBarTextSize => true,
        _ => false,
    }
}

/// Takes over the switches that stand alone, and the size of the status bar text.
///
/// Returns whether the setting is one of these; others are left alone.
fn apply_switch_field(
    cfg: &mut Config,
    field: ControlField,
    reading: &ControlReading,
    tables: &ChoiceTables,
) -> (r: bool)
    requires
        is_size_field(field) ==> crate::geometry::in_range(reading.number as int),
    ensures
        final(cfg).mouse.profiles == old(cfg).mouse.profiles,
        r ==> setting_written(*old(cfg), *final(cfg), field, *reading, *tables),
        !r ==> *final(cfg) == *old(cfg),
        r == in_switch_group(field),
{
    match field {
        ControlField::LaunchAtLogin => {
            cfg.startup.launch_at_login = reading.number == 1;
        },
        ControlField::WindowsEnabled => {
            cfg.windows.enabled = reading.number == 1;
        },
        ControlField::ShowMinimized => {
            cfg.windows.show_minimized = reading.number == 1;
        },
        ControlField::MouseEnabled => {
            cfg.mouse.enabled = reading.number == 1;
        },
        ControlField::StatusBarTextSize => {
            cfg.fonts.status_bar_size = reading.number * 1_000;
        },
        _ => {
            return false;
        },
    }
    true
}

fn is_mouse_profile_field(field: ControlField) -> (r: bool)
    ensures
        r == is_profile_field(field),
{
    match field {
        ControlField::ReverseScroll => true,
        ControlField::ScrollMode => true,
        ControlField::LineCount => true,
        ControlField::DisablePointerAccel => true,
        ControlField::PointerAcceleration => true,
        ControlField::MappingEnabled => true,
        _ => false,
    }
}

/// Takes a setting over from its control.
pub fn apply_control_field(
    cfg: &mut Config,
    dev: Option<DeviceKey>,
    field: ControlField,
    reading: &ControlReading,
    tables: &ChoiceTables,
) -> (r: FieldOutcome)
    requires
        old(cfg).mouse.valid(),
        is_size_field(field) ==> crate::geometry::in_range(reading.number as int),
    ensures
        final(cfg).mouse.valid(),
        is_profile_field(field) ==> {
            &&& profiles::only_profiles_changed(*old(cfg), *final(cfg))
            &&& profiles::only_profile_changed(
                old(cfg).mouse.profiles@,
                final(cfg).mouse.profiles@,
                dev,
                profile_after(
                    profiles::profile_of(old(cfg).mouse.profiles@, dev),
                    field,
                    *reading,
                    *tables,
                ),
            )
        },
        !is_profile_field(field) ==> setting_written(
            *old(cfg),
            *final(cfg),
            field,
            *reading,
            *tables,
        ),
        control_taken_over(*old(cfg), *final(cfg), dev, field, *reading, *tables),
        r == (FieldOutcome {
            preview: field == ControlField::GlassStyle || field == ControlField::GlassTint,
            refresh_line_count: field == ControlField::ScrollMode,
        }),
{
    if is_mouse_profile_field(field) {
        apply_mouse_profile_field(cfg, dev, field, reading, tables);
    } else if !(apply_choice_field(cfg, field, reading, tables) || apply_switch_field(
        cfg,
        field,
        reading,
        tables,
    )) {
        cfg.layout = layout_with(cfg.layout, field, reading.number);
        cfg.clipboard = clipboard_with(cfg.clipboard, field, reading.number);
        cfg.window_control = window_control_with(cfg.window_control, field, reading.number);
        cfg.quick_actions = quick_actions_with(cfg.quick_actions, field, reading.number);
        cfg.updates = updates_with(cfg.updates, field, reading.number);
    }
    FieldOutcome {
        preview: field == ControlField::GlassStyle || field == ControlField::GlassTint,
        refresh_line_count: field == ControlField::ScrollMode,
    }
}

/// Each setting of the window cards changes by its own control only.
proof fn layout_values_have_their_controls(c: LayoutConfig, field: ControlField, number: int)
    ensures
        ({
            let a = layout_after(c, field, number);
            &&& a.thumbnails_enabled == if field == ControlField::ThumbnailsEnabled { number == 1 } else { c.thumbnails_enabled }
            &&& a.focused_thumbnail_prewarm == if field == ControlField::FocusedThumbnailPrewarm { number == 1 } else { c.focused_thumbnail_prewarm }
            &&& a.show_app_name_in_cards == if field == ControlField::ShowAppNameInCards { number == 1 } else { c.show_app_name_in_cards }
            &&& -1_000_000 <= number <= 1_000_000 ==> a.card_text_size == if field
                == ControlField::CardTextSize {
                1_000 * number
            } else {
                c.card_text_size as int
            }
            &&& field != ControlField::CardTextSize ==> a.card_text_size == c.card_text_size
        }),
{
}

/// Each setting of the clipboard page changes by its own control only.
proof fn clipboard_values_have_their_controls(c: ClipboardConfig, field: ControlField, number: int)
    ensures
        ({
            let a = clipboard_after(c, field, number);
            &&& a.enabled == if field == ControlField::ClipboardEnabled { number == 1 } else { c.enabled }
            &&& a.persist == if field == ControlField::ClipboardPersist { number == 1 } else { c.persist }
            &&& a.show_source_app == if field == ControlField::ClipboardShowSourceApp { number == 1 } else { c.show_source_app }
            &&& a.move_used_to_top == if field == ControlField::ClipboardMoveUsedToTop { number == 1 } else { c.move_used_to_top }
            &&& a.delete_after_paste == if field == ControlField::ClipboardDeleteAfterPaste { number == 1 } else { c.delete_after_paste }
            &&& a.clear_system_pasteboard_after_paste == if field == ControlField::ClipboardClearSystemPasteboardAfterPaste { number == 1 } else { c.clear_system_pasteboard_after_paste }
            &&& a.pin_follow_selection == if field == ControlField::ClipboardPinFollow { number != 1 } else { c.pin_follow_selection }
            &&& a.max_entries == c.max_entries
            &&& field != ControlField::ClipboardAutoExpireDays ==> a.auto_expire_days
                == c.auto_expire_days
            &&& field == ControlField::ClipboardAutoExpireDays ==> {
                &&& 0 <= number <= 7 ==> a.auto_expire_days == number
                &&& number < 0 ==> a.auto_expire_days == 0
                &&& number > 7 ==> a.auto_expire_days == 7
            }
        }),
{
}

/// Each setting of the window-control page changes by its own control only.
proof fn window_control_values_have_their_controls(c: WindowControlConfig, field: ControlField, number: int)
    ensures
        ({
            let a = window_control_after(c, field, number);
            &&& a.enabled == if field == ControlField::WindowControlEnabled { number == 1 } else { c.enabled }
            &&& a.up == if field == ControlField::WindowControlUp { number == 1 } else { c.up }
            &&& a.down == if field == ControlField::WindowControlDown { number == 1 } else { c.down }
            &&& a.left == if field == ControlField::WindowControlLeft { number == 1 } else { c.left }
            &&& a.right == if field == ControlField::WindowControlRight { number == 1 } else { c.right }
            &&& a.display_up == if field == ControlField::WindowControlDisplayUp { number == 1 } else { c.display_up }
            &&& a.display_down == if field == ControlField::WindowControlDisplayDown { number == 1 } else { c.display_down }
            &&& a.display_left == if field == ControlField::WindowControlDisplayLeft { number == 1 } else { c.display_left }
            &&& a.display_right == if field == ControlField::WindowControlDisplayRight { number == 1 } else { c.display_right }
        }),
{
}

/// Each setting of the quick-actions page changes by its own control only.
proof fn quick_action_values_have_their_controls(c: QuickActionsConfig, field: ControlField, number: int)
    ensures
        ({
            let a = quick_actions_after(c, field, number);
            &&& a.enabled == if field == ControlField::QuickActionsEnabled { number == 1 } else { c.enabled }
            &&& a.open_settings == if field == ControlField::QuickActionOpenSettings { number == 1 } else { c.open_settings }
            &&& a.open_finder == if field == ControlField::QuickActionOpenFinder { number == 1 } else { c.open_finder }
            &&& a.show_desktop == if field == ControlField::QuickActionShowDesktop { number == 1 } else { c.show_desktop }
            &&& a.lock_screen == if field == ControlField::QuickActionLockScreen { number == 1 } else { c.lock_screen }
            &&& a.locate_pointer == if field == ControlField::QuickActionLocatePointer { number == 1 } else { c.locate_pointer }
        }),
{
}

/// Each setting of updates changes by its own control only.
proof fn update_values_have_their_controls(c: UpdatesConfig, field: ControlField, number: int)
    ensures
        ({
            let a = updates_after(c, field, number);
            &&& a.automatically_check == if field == ControlField::UpdateAutoCheck { number == 1 } else { c.automatically_check }
            &&& a.automatically_download == if field == ControlField::UpdateAutoDownload { number == 1 } else { c.automatically_download }
        }),
{
}

/// Whether `new` is `old` with one setting taken from its control, on whatever page it
/// is.
pub open spec fn control_taken_over(
    old: Config,
    new: Config,
    dev: Option<DeviceKey>,
    field: ControlField,
    reading: ControlReading,
    tables: ChoiceTables,
) -> bool {
    if is_profile_field(field) {
        &&& profiles::only_profiles_changed(old, new)
        &&& profiles::only_profile_changed(
            old.mouse.profiles@,
            new.mouse.profiles@,
            dev,
            profile_after(profiles::profile_of(old.mouse.profiles@, dev), field, reading, tables),
        )
    } else {
        setting_written(old, new, field, reading, tables)
    }
}

/// A switch that is on when its control is read is on in the configuration, one that is
/// off is off, and no control changes the switch of another one. The clipboard page asks
/// where the selection goes, and its second answer is that it stays.
pub proof fn switches_are_taken_over(
    old: Config,
    new: Config,
    dev: Option<DeviceKey>,
    field: ControlField,
    reading: ControlReading,
    tables: ChoiceTables,
)
    requires
        control_taken_over(old, new, dev, field, reading, tables),
    ensures
        new.layout.thumbnails_enabled == if field == ControlField::ThumbnailsEnabled {
            reading.number == 1
        } else {
            old.layout.thumbnails_enabled
        },
        new.layout.focused_thumbnail_prewarm == if field == ControlField::FocusedThumbnailPrewarm {
            reading.number == 1
        } else {
            old.layout.focused_thumbnail_prewarm
        },
        new.layout.show_app_name_in_cards == if field == ControlField::ShowAppNameInCards {
            reading.number == 1
        } else {
            old.layout.show_app_name_in_cards
        },
        new.clipboard.enabled == if field == ControlField::ClipboardEnabled {
            reading.number == 1
        } else {
            old.clipboard.enabled
        },
        new.clipboard.persist == if field == ControlField::ClipboardPersist {
            reading.number == 1
        } else {
            old.clipboard.persist
        },
        new.clipboard.show_source_app == if field == ControlField::ClipboardShowSourceApp {
            reading.number == 1
        } else {
            old.clipboard.show_source_app
        },
        new.clipboard.move_used_to_top == if field == ControlField::ClipboardMoveUsedToTop {
            reading.number == 1
        } else {
            old.clipboard.move_used_to_top
        },
        new.clipboard.delete_after_paste == if field == ControlField::ClipboardDeleteAfterPaste {
            reading.number == 1
        } else {
            old.clipboard.delete_after_paste
        },
        new.clipboard.clear_system_pasteboard_after_paste == if field == ControlField::ClipboardClearSystemPasteboardAfterPaste {
            reading.number == 1
        } else {
            old.clipboard.clear_system_pasteboard_after_paste
        },
        new.clipboard.pin_follow_selection == if field == ControlField::ClipboardPinFollow {
            reading.number != 1
        } else {
            old.clipboard.pin_follow_selection
        },
        new.window_control.enabled == if field == ControlField::WindowControlEnabled {
            reading.number == 1
        } else {
            old.window_control.enabled
        },
        new.window_control.up == if field == ControlField::WindowControlUp {
            reading.number == 1
        } else {
            old.window_control.up
        },
        new.window_control.down == if field == ControlField::WindowControlDown {
            reading.number == 1
        } else {
            old.window_control.down
        },
        new.window_control.left == if field == ControlField::WindowControlLeft {
            reading.number == 1
        } else {
            old.window_control.left
        },
        new.window_control.right == if field == ControlField::WindowControlRight {
            reading.number == 1
        } else {
            old.window_control.right
        },
        new.window_control.display_up == if field == ControlField::WindowControlDisplayUp {
            reading.number == 1
        } else {
            old.window_control.display_up
        },
        new.window_control.display_down == if field == ControlField::WindowControlDisplayDown {
            reading.number == 1
        } else {
            old.window_control.display_down
        },
        new.window_control.display_left == if field == ControlField::WindowControlDisplayLeft {
            reading.number == 1
        } else {
            old.window_control.display_left
        },
        new.window_control.display_right == if field == ControlField::WindowControlDisplayRight {
            reading.number == 1
        } else {
            old.window_control.display_right
        },
        new.quick_actions.enabled == if field == ControlField::QuickActionsEnabled {
            reading.number == 1
        } else {
            old.quick_actions.enabled
        },
        new.quick_actions.open_settings == if field == ControlField::QuickActionOpenSettings {
            reading.number == 1
        } else {
            old.quick_actions.open_settings
        },
        new.quick_actions.open_finder == if field == ControlField::QuickActionOpenFinder {
            reading.number == 1
        } else {
            old.quick_actions.open_finder
        },
        new.quick_actions.show_desktop == if field == ControlField::QuickActionShowDesktop {
            reading.number == 1
        } else {
            old.quick_actions.show_desktop
        },
        new.quick_actions.lock_screen == if field == ControlField::QuickActionLockScreen {
            reading.number == 1
        } else {
            old.quick_actions.lock_screen
        },
        new.quick_actions.locate_pointer == if field == ControlField::QuickActionLocatePointer {
            reading.number == 1
        } else {
            old.quick_actions.locate_pointer
        },
        new.updates.automatically_check == if field == ControlField::UpdateAutoCheck {
            reading.number == 1
        } else {
            old.updates.automatically_check
        },
        new.updates.automatically_download == if field == ControlField::UpdateAutoDownload {
            reading.number == 1
        } else {
            old.updates.automatically_download
        },
        new.startup.launch_at_login == if field == ControlField::LaunchAtLogin {
            reading.number == 1
        } else {
            old.startup.launch_at_login
        },
        new.windows.enabled == if field == ControlField::WindowsEnabled {
            reading.number == 1
        } else {
            old.windows.enabled
        },
        new.windows.show_minimized == if field == ControlField::ShowMinimized {
            reading.number == 1
        } else {
            old.windows.show_minimized
        },
        new.mouse.enabled == if field == ControlField::MouseEnabled {
            reading.number == 1
        } else {
            old.mouse.enabled
        },
{
    let number = reading.number as int;
    layout_values_have_their_controls(old.layout, field, number);
    clipboard_values_have_their_controls(old.clipboard, field, number);
    window_control_values_have_their_controls(old.window_control, field, number);
    quick_action_values_have_their_controls(old.quick_actions, field, number);
    update_values_have_their_controls(old.updates, field, number);
}

/// A choice is stored as the word that stands for it, and no control changes the choice of
/// another one.
pub proof fn choices_are_taken_over(
    old: Config,
    new: Config,
    dev: Option<DeviceKey>,
    field: ControlField,
    reading: ControlReading,
    tables: ChoiceTables,
)
    requires
        control_taken_over(old, new, dev, field, reading, tables),
    ensures
        field != ControlField::Theme ==> new.appearance.theme == old.appearance.theme,
        field == ControlField::Theme ==> {
            &&& reading.number == 0 ==> new.appearance.theme@ == "dark"@
            &&& reading.number == 1 ==> new.appearance.theme@ == "light"@
            &&& reading.number != 0 && reading.number != 1 ==> new.appearance.theme@ == "auto"@
        },
        field != ControlField::GlassStyle ==> new.appearance.glass_style
            == old.appearance.glass_style,
        field == ControlField::GlassStyle ==> {
            &&& reading.number == 1 ==> new.appearance.glass_style@ == "clear"@
            &&& reading.number != 1 ==> new.appearance.glass_style@ == "regular"@
        },
        field != ControlField::GlassTint || reading.color is None ==> new.appearance.glass_tint
            == old.appearance.glass_tint,
        field == ControlField::GlassTint ==> (reading.color matches Some(hex)
            ==> new.appearance.glass_tint@ == hex@),
        field != ControlField::Locale ==> new.i18n == old.i18n,
        field == ControlField::Locale ==> {
            &&& 0 <= reading.number < tables.locales@.len() ==> new.i18n.locale@
                == tables.locales@[reading.number as int]@
            &&& !(0 <= reading.number < tables.locales@.len()) ==> new.i18n.locale@ == "auto"@
        },
        field != ControlField::LogLevel ==> new.logging == old.logging,
        field == ControlField::LogLevel ==> {
            &&& reading.number == 0 ==> new.logging.level@ == "debug"@
            &&& reading.number != 0 ==> new.logging.level@ == "info"@
        },
        field != ControlField::OverlayPosition ==> new.windows.overlay_position
            == old.windows.overlay_position,
        field == ControlField::OverlayPosition ==> {
            &&& reading.number == 1 ==> new.windows.overlay_position@ == "main"@
            &&& reading.number != 1 ==> new.windows.overlay_position@ == "active_window"@
        },
        field != ControlField::ActivationMode ==> new.windows.activation_mode
            == old.windows.activation_mode,
        field == ControlField::ActivationMode ==> {
            &&& reading.number == 1 ==> new.windows.activation_mode@ == "click"@
            &&& reading.number != 1 ==> new.windows.activation_mode@ == "hover"@
        },
        field != ControlField::Modifier ==> new.keyboard == old.keyboard,
        field == ControlField::Modifier ==> {
            &&& reading.number == 1 ==> new.keyboard.modifier@ == "command"@
            &&& reading.number != 1 ==> new.keyboard.modifier@ == "option"@
        },
{
}

/// A size is stored in thousandths of what its slider shows, the days until entries expire
/// within a week, and no control changes the number of another one. The corner radius and
/// the number of entries are typed in, and no control changes them this way.
pub proof fn numbers_are_taken_over(
    old: Config,
    new: Config,
    dev: Option<DeviceKey>,
    field: ControlField,
    reading: ControlReading,
    tables: ChoiceTables,
)
    requires
        control_taken_over(old, new, dev, field, reading, tables),
    ensures
        new.appearance.corner_radius == old.appearance.corner_radius,
        new.clipboard.max_entries == old.clipboard.max_entries,
        field != ControlField::CardTextSize ==> new.layout.card_text_size
            == old.layout.card_text_size,
        field == ControlField::CardTextSize && 0 <= reading.number <= 1_000_000
            ==> new.layout.card_text_size == 1_000 * reading.number,
        field != ControlField::StatusBarTextSize ==> new.fonts.status_bar_size
            == old.fonts.status_bar_size,
        field == ControlField::StatusBarTextSize && 0 <= reading.number <= 1_000_000
            ==> new.fonts.status_bar_size == 1_000 * reading.number,
        field != ControlField::ClipboardAutoExpireDays ==> new.clipboard.auto_expire_days
            == old.clipboard.auto_expire_days,
        field == ControlField::ClipboardAutoExpireDays ==> {
            &&& 0 <= reading.number <= 7 ==> new.clipboard.auto_expire_days == reading.number
            &&& reading.number < 0 ==> new.clipboard.auto_expire_days == 0
            &&& reading.number > 7 ==> new.clipboard.auto_expire_days == 7
        },
{
    let number = reading.number as int;
    layout_values_have_their_controls(old.layout, field, number);
    clipboard_values_have_their_controls(old.clipboard, field, number);
}

/// The profile of the selected device, read again after one of its controls was taken over,
/// says what the control says: a switch that is on gives a value that is on, and one that is
/// off a value that is off. What belongs to another control is as it was, and so are the
/// bindings and the profiles of all other devices.
pub proof fn profile_settings_are_taken_over(
    old: Config,
    new: Config,
    dev: Option<DeviceKey>,
    field: ControlField,
    reading: ControlReading,
    tables: ChoiceTables,
    other: Option<DeviceKey>,
)
    requires
        control_taken_over(old, new, dev, field, reading, tables),
    ensures
        ({
            let p = profiles::profile_of(old.mouse.profiles@, dev);
            let q = profiles::profile_of(new.mouse.profiles@, dev);
            &&& q.device == p.device
            &&& q.button_mappings == p.button_mappings
            &&& q.reverse_scroll == if field == ControlField::ReverseScroll {
                Some(reading.number == 1)
            } else {
                p.reverse_scroll
            }
            &&& q.button_mappings_enabled == if field == ControlField::MappingEnabled {
                Some(reading.number == 1)
            } else {
                p.button_mappings_enabled
            }
            &&& profiles::pointer_of(q).disable_acceleration == if field
                == ControlField::DisablePointerAccel {
                Some(reading.number == 1)
            } else {
                profiles::pointer_of(p).disable_acceleration
            }
            &&& field != ControlField::PointerAcceleration ==> profiles::pointer_of(q).acceleration
                == profiles::pointer_of(p).acceleration
            &&& field == ControlField::PointerAcceleration ==> (profiles::pointer_of(
                q,
            ).acceleration matches Some(s) && s == speed_of(reading.speed, tables.fallback_speed))
        }),
        other != dev ==> profiles::profile_of(new.mouse.profiles@, other) == profiles::profile_of(
            old.mouse.profiles@,
            other,
        ),
        !(field == ControlField::ReverseScroll || field == ControlField::ScrollMode || field
            == ControlField::LineCount || field == ControlField::DisablePointerAccel || field
            == ControlField::PointerAcceleration || field == ControlField::MappingEnabled)
            ==> new.mouse.profiles == old.mouse.profiles,
{
    if is_profile_field(field) {
        let p = profiles::profile_of(old.mouse.profiles@, dev);
        let q = profile_after(p, field, reading, tables);
        profiles::profile_has_its_device(old.mouse.profiles@, dev);
        profiles::profile_reads_back(old.mouse.profiles@, new.mouse.profiles@, dev, q);
        if other != dev {
            profiles::profile_writes_do_not_leak(
                old.mouse.profiles@,
                new.mouse.profiles@,
                dev,
                other,
                q,
            );
        }
    }
}

/// The scroll mode is stored as the word that was chosen, or as the default one where the
/// choice names none. The line count follows its own slider, and the choice of line mode
/// takes over what that slider shows; no other choice changes it. It is kept within 1 to 10.
pub proof fn scroll_settings_are_taken_over(
    old: Config,
    new: Config,
    dev: Option<DeviceKey>,
    field: ControlField,
    reading: ControlReading,
    tables: ChoiceTables,
)
    requires
        control_taken_over(old, new, dev, field, reading, tables),
    ensures
        ({
            let p = profiles::profile_of(old.mouse.profiles@, dev);
            let q = profiles::profile_of(new.mouse.profiles@, dev);
            let index = reading.number as int;
            let named = 0 <= index < tables.scroll_modes@.len();
            &&& field != ControlField::ScrollMode ==> q.scroll_mode == p.scroll_mode
            &&& field == ControlField::ScrollMode && named ==> q.scroll_mode == Some(
                tables.scroll_modes@[index]@,
            )
            &&& field == ControlField::ScrollMode && !named ==> q.scroll_mode == Some("default"@)
            &&& field != ControlField::ScrollMode && field != ControlField::LineCount
                ==> q.line_count == p.line_count
            &&& field == ControlField::ScrollMode && q.scroll_mode != Some("line"@)
                ==> q.line_count == p.line_count
            &&& field == ControlField::LineCount || (field == ControlField::ScrollMode
                && q.scroll_mode == Some("line"@)) ==> {
                let n = if field == ControlField::LineCount {
                    reading.number
                } else {
                    reading.line_count
                };
                &&& q.line_count matches Some(stored)
                &&& 1 <= stored <= 10
                &&& 1 <= n <= 10 ==> stored == n
                &&& n < 1 ==> stored == 1
                &&& n > 10 ==> stored == 10
            }
        }),
{
    if is_profile_field(field) {
        let p = profiles::profile_of(old.mouse.profiles@, dev);
        let q = profile_after(p, field, reading, tables);
        profiles::profile_has_its_device(old.mouse.profiles@, dev);
        profiles::profile_reads_back(old.mouse.profiles@, new.mouse.profiles@, dev, q);
    }
}

/// The stored tracking speed is the hundredth nearest to the slider value, from 0 to 10;
/// a value that is no number gives the fallback.
pub proof fn speeds_are_rounded(raw: Option<i64>, fallback: u32)
    ensures
        raw is None ==> speed_of(raw, fallback) == fallback,
        raw matches Some(v) ==> {
            &&& 0 <= speed_of(raw, fallback) <= 1_000
            &&& v <= 0 ==> speed_of(raw, fallback) == 0
            &&& v >= 10_000_000 ==> speed_of(raw, fallback) == 1_000
            &&& 0 <= v <= 10_000_000 ==> -5_000 < 10_000 * speed_of(raw, fallback) - v <= 5_000
        },
{
}

/// A switch that is turned and turned back is where it was, for the profile as for its
/// readers: what counts is the last thing the control said.
pub proof fn last_reading_counts(
    first: Config,
    second: Config,
    third: Config,
    dev: Option<DeviceKey>,
    field: ControlField,
    before: ControlReading,
    after: ControlReading,
    tables: ChoiceTables,
)
    requires
        field == ControlField::ReverseScroll || field == ControlField::MappingEnabled || field
            == ControlField::DisablePointerAccel,
        control_taken_over(first, second, dev, field, before, tables),
        control_taken_over(second, third, dev, field, after, tables),
    ensures
        ({
            let p = profiles::profile_of(third.mouse.profiles@, dev);
            let value = if field == ControlField::ReverseScroll {
                p.reverse_scroll
            } else if field == ControlField::MappingEnabled {
                p.button_mappings_enabled
            } else {
                profiles::pointer_of(p).disable_acceleration
            };
            value == Some(after.number == 1)
        }),
{
    profile_settings_are_taken_over(second, third, dev, field, after, tables, dev);
}

} // verus!
