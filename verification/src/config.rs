//! The configuration that the settings window edits.
//!
//! Lengths are thousandths of a point and the tracking speed is held in hundredths.
use vstd::prelude::*;

use crate::button_map::ButtonMap;

verus! {

#[derive(Debug)]
pub struct AppearanceConfig {
    /// "dark", "light" or "auto".
    pub theme: String,
    /// "regular" or "clear".
    pub glass_style: String,
    /// Eight hexadecimal digits, red, green, blue and alpha.
    pub glass_tint: String,
    pub corner_radius: i64,
}

#[derive(Debug)]
pub struct I18nConfig {
    pub locale: String,
}

#[derive(Debug)]
pub struct LoggingConfig {
    /// "debug" or "info".
    pub level: String,
}

#[derive(Clone, Copy, Debug, PartialEq, Eq, Structural)]
pub struct StartupConfig {
    pub launch_at_login: bool,
}

#[derive(Debug)]
pub struct WindowsConfig {
    pub enabled: bool,
    pub show_minimized: bool,
    /// "main" or "active_window".
    pub overlay_position: String,
    /// "click" or "hover".
    pub activation_mode: String,
}

#[derive(Clone, Copy, Debug, PartialEq, Eq, Structural)]
pub struct LayoutConfig {
    pub thumbnails_enabled: bool,
    pub focused_thumbnail_prewarm: bool,
    pub show_app_name_in_cards: bool,
    pub card_text_size: i64,
}

#[derive(Clone, Copy, Debug, PartialEq, Eq, Structural)]
pub struct FontsConfig {
    pub status_bar_size: i64,
}

#[derive(Debug)]
pub struct KeyboardConfig {
    /// "command" or "option".
    pub modifier: String,
}

/// Which mice a profile is for; nothing set means all of them.
#[derive(Clone, Copy, Debug, PartialEq, Eq, Structural)]
pub struct DeviceMatcher {
    pub vendor_id: Option<u32>,
    pub product_id: Option<u32>,
}

#[derive(Clone, Copy, Debug, PartialEq, Eq, Structural)]
pub struct PointerConfig {
    pub disable_acceleration: Option<bool>,
    /// Tracking speed in hundredths.
    pub acceleration: Option<u32>,
}

#[derive(Debug)]
pub struct MouseProfile {
    pub device: DeviceMatcher,
    pub reverse_scroll: Option<bool>,
    /// "default" or "line".
    pub scroll_mode: Option<String>,
    pub line_count: Option<u32>,
    pub pointer: Option<PointerConfig>,
    pub button_mappings: ButtonMap,
    pub button_mappings_enabled: Option<bool>,
}

#[derive(Debug)]
pub struct MouseConfig {
    pub enabled: bool,
    pub profiles: Vec<MouseProfile>,
}

#[derive(Clone, Copy, Debug, PartialEq, Eq, Structural)]
pub struct ClipboardConfig {
    pub enabled: bool,
    pub persist: bool,
    pub show_source_app: bool,
    pub move_used_to_top: bool,
    pub delete_after_paste: bool,
    pub clear_system_pasteboard_after_paste: bool,
    pub max_entries: u32,
    pub auto_expire_days: u32,
    pub pin_follow_selection: bool,
}

#[derive(Clone, Copy, Debug, PartialEq, Eq, Structural)]
pub struct WindowControlConfig {
    pub enabled: bool,
    pub up: bool,
    pub down: bool,
    pub left: bool,
    pub right: bool,
    pub display_up: bool,
    pub display_down: bool,
    pub display_left: bool,
    pub display_right: bool,
}

#[derive(Clone, Copy, Debug, PartialEq, Eq, Structural)]
pub struct QuickActionsConfig {
    pub enabled: bool,
    pub open_settings: bool,
    pub open_finder: bool,
    pub show_desktop: bool,
    pub lock_screen: bool,
    pub locate_pointer: bool,
}

#[derive(Clone, Copy, Debug, PartialEq, Eq, Structural)]
pub struct UpdatesConfig {
    pub automatically_check: bool,
    pub automatically_download: bool,
}

/// The whole configuration.
#[derive(Debug)]
pub struct Config {
    pub appearance: AppearanceConfig,
    pub i18n: I18nConfig,
    pub logging: LoggingConfig,
    pub startup: StartupConfig,
    pub windows: WindowsConfig,
    pub layout: LayoutConfig,
    pub fonts: FontsConfig,
    pub keyboard: KeyboardConfig,
    pub mouse: MouseConfig,
    pub clipboard: ClipboardConfig,
    pub window_control: WindowControlConfig,
    pub quick_actions: QuickActionsConfig,
    pub updates: UpdatesConfig,
}

impl MouseConfig {
    /// The bindings of every profile are a map.
    pub open spec fn valid(self) -> bool {
        forall|i: int|
            0 <= i < self.profiles@.len() ==> (#[trigger] self.profiles@[i]).button_mappings.inv()
    }
}

/// What a profile says, apart from how its bindings are stored.
#[verifier::ext_equal]
pub struct ProfileView {
    pub device: DeviceMatcher,
    pub reverse_scroll: Option<bool>,
    pub scroll_mode: Option<Seq<char>>,
    pub line_count: Option<u32>,
    pub pointer: Option<PointerConfig>,
    pub button_mappings: Map<Seq<char>, Seq<char>>,
    pub button_mappings_enabled: Option<bool>,
}

impl View for MouseProfile {
    type V = ProfileView;

    open spec fn view(&self) -> ProfileView {
        ProfileView {
            device: self.device,
            reverse_scroll: self.reverse_scroll,
            scroll_mode: match self.scroll_mode {
                Some(s) => Some(s@),
                None => None,
            },
            line_count: self.line_count,
            pointer: self.pointer,
            button_mappings: self.button_mappings@,
            button_mappings_enabled: self.button_mappings_enabled,
        }
    }
}

} // verus!
