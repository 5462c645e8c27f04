//! Colours of the settings window, as `0xRRGGBBAA` numbers.
use vstd::prelude::*;

verus! {

/// The colours of one appearance.
#[derive(Clone, Copy, Debug, PartialEq, Eq, Structural)]
pub struct UiPalette {
    pub dark: bool,
    pub window_bg: u32,
    pub sidebar_bg: u32,
    pub detail_bg: u32,
    pub card_bg: u32,
    pub card_border: u32,
    pub field_bg: u32,
    pub separator: u32,
    pub shadow: u32,
    pub selection_bg: u32,
    pub hover_bg: u32,
    pub button_bg: u32,
    pub footer_button_bg: u32,
    pub button_text: u32,
    pub accent: u32,
    pub accent_hover: u32,
    pub destructive: u32,
    pub destructive_hover: u32,
    pub primary_text: u32,
    pub secondary_text: u32,
    pub sidebar_text: u32,
    pub muted_text: u32,
    pub disabled_text: u32,
}

/// The palette of the settings window, which is that of the whole application.
pub fn settings_palette(application: UiPalette) -> (r: UiPalette)
    ensures
        r == application,
{
    application
}

/// What a text is for, which decides its colour.
#[derive(Clone, Copy, Debug, PartialEq, Eq, Structural)]
pub enum SettingsTextRole {
    Primary,
    Secondary,
    Sidebar,
    Muted,
    Disabled,
    Accent,
    AccentHover,
}

pub open spec fn text_color(palette: UiPalette, role: SettingsTextRole) -> u32 {
    match role {
        SettingsTextRole::Primary => palette.primary_text,
        SettingsTextRole::Secondary => palette.secondary_text,
        SettingsTextRole::Sidebar => palette.sidebar_text,
        SettingsTextRole::Muted => palette.muted_text,
        SettingsTextRole::Disabled => palette.disabled_text,
        SettingsTextRole::Accent => palette.accent,
        SettingsTextRole::AccentHover => palette.accent_hover,
    }
}

/// The colour of a text role.
pub fn settings_text_color(palette: UiPalette, role: SettingsTextRole) -> (r: u32)
    ensures
        r == text_color(palette, role),
{
    match role {
        SettingsTextRole::Primary => palette.primary_text,
        SettingsTextRole::Secondary => palette.secondary_text,
        SettingsTextRole::Sidebar => palette.sidebar_text,
        SettingsTextRole::Muted => palette.muted_text,
        SettingsTextRole::Disabled => palette.disabled_text,
        SettingsTextRole::Accent => palette.accent,
        SettingsTextRole::AccentHover => palette.accent_hover,
    }
}

/// The colour that stands for a colour of the light appearance: the light
/// appearance uses it as it is, the dark one has a role for the known ones.
pub open spec fn themed(palette: UiPalette, hex: u32) -> u32 {
    if !palette.dark {
        hex
    } else if hex == 0xFFFFFFAD || hex == 0x7676801F || hex == 0x7676801E {
        palette.button_bg
    } else if hex == 0xFFFFFFC7 {
        palette.footer_button_bg
    } else if hex == 0x76768024 || hex == 0x7676802B {
        palette.hover_bg
    } else if hex == 0x0A84FFFF {
        palette.accent
    } else if hex == 0x0077EDFF {
        palette.accent_hover
    } else if hex == 0xFF3B30FF {
        palette.destructive
    } else if hex == 0xD70015FF {
        palette.destructive_hover
    } else if hex == 0xFFFFFFFF || hex == 0x2E2E2EFF || hex == 0x2C2C30FF || hex == 0x44444AFF {
        palette.button_text
    } else {
        hex
    }
}

/// Maps a colour of the light appearance to the active palette.
pub fn themed_settings_color(palette: UiPalette, hex: u32) -> (r: u32)
    ensures
        r == themed(palette, hex),
{
    if !palette.dark {
        return hex;
    }
    match hex {
        0xFFFFFFAD | 0x7676801F | 0x7676801E => palette.button_bg,
        0xFFFFFFC7 => palette.footer_button_bg,
        0x76768024 | 0x7676802B => palette.hover_bg,
        0x0A84FFFF => palette.accent,
        0x0077EDFF => palette.accent_hover,
        0xFF3B30FF => palette.destructive,
        0xD70015FF => palette.destructive_hover,
        0xFFFFFFFF | 0x2E2E2EFF | 0x2C2C30FF | 0x44444AFF => palette.button_text,
        _ => hex,
    }
}

/// Kinds of buttons.
#[derive(Clone, Copy, Debug, PartialEq, Eq, Structural)]
pub enum SettingsButtonRole {
    Action,
    Compact,
    Footer,
    Primary,
    Destructive,
}

/// Background and text colour of a button, and the tag that leads to its colours
/// while the pointer enters and leaves it.
pub open spec fn role_style(role: SettingsButtonRole) -> (u32, u32, int) {
    match role {
        SettingsButtonRole::Action => (0xFFFFFFAD, 0x2E2E2EFF, -3),
        SettingsButtonRole::Compact => (0x7676801F, 0x44444AFF, 0),
        SettingsButtonRole::Footer => (0xFFFFFFC7, 0x2E2E2EFF, -1),
        SettingsButtonRole::Primary => (0x0A84FFFF, 0xFFFFFFFF, -2),
        SettingsButtonRole::Destructive => (0xFF3B30FF, 0xFFFFFFFF, -4),
    }
}

impl SettingsButtonRole {
    /// Background and text colour and tag of a button.
    pub fn style(self) -> (r: (u32, u32, i64))
        ensures
            r.0 == role_style(self).0,
            r.1 == role_style(self).1,
            r.2 == role_style(self).2,
    {
        match self {
            SettingsButtonRole::Action => (0xFFFFFFAD, 0x2E2E2EFF, -3),
            SettingsButtonRole::Compact => (0x7676801F, 0x44444AFF, 0),
            SettingsButtonRole::Footer => (0xFFFFFFC7, 0x2E2E2EFF, -1),
            SettingsButtonRole::Primary => (0x0A84FFFF, 0xFFFFFFFF, -2),
            SettingsButtonRole::Destructive => (0xFF3B30FF, 0xFFFFFFFF, -4),
        }
    }
}

/// The background of a button under the pointer.
pub open spec fn hover_background(tag: int) -> u32 {
    if tag == -2 {
        0x0077EDFF
    } else if tag == -1 {
        0x76768024
    } else if tag == -4 {
        0xD70015FF
    } else {
        0x7676802B
    }
}

/// The background of a button that the pointer has left. Tags that are not negative
/// belong to the compact buttons of the mapping table.
pub open spec fn normal_background(tag: int) -> u32 {
    if tag == -2 {
        0x0A84FFFF
    } else if tag == -1 {
        0xFFFFFFC7
    } else if tag == -4 {
        0xFF3B30FF
    } else if tag >= 0 {
        0x7676801F
    } else {
        0xFFFFFFAD
    }
}

/// The background of a button when the pointer enters it.
pub fn html_action_button_mouse_entered(palette: UiPalette, tag: i64) -> (r: u32)
    ensures
        r == themed(palette, hover_background(tag as int)),
{
    let hover = match tag {
        -2 => 0x0077EDFFu32,
        -1 => 0x76768024u32,
        -4 => 0xD70015FFu32,
        _ => 0x7676802Bu32,
    };
    themed_settings_color(palette, hover)
}

/// The background of a button when the pointer leaves it.
pub fn html_action_button_mouse_exited(palette: UiPalette, tag: i64) -> (r: u32)
    ensures
        r == themed(palette, normal_background(tag as int)),
{
    let normal = match tag {
        -2 => 0x0A84FFFFu32,
        -1 => 0xFFFFFFC7u32,
        -4 => 0xFF3B30FFu32,
        _ => if tag >= 0 {
            0x7676801Fu32
        } else {
            0xFFFFFFADu32
        },
    };
    themed_settings_color(palette, normal)
}

/// Colours of a button: background, border and text.
pub fn style_html_button(palette: UiPalette, role: SettingsButtonRole) -> (r: (u32, u32, u32))
    ensures
        r.0 == themed(palette, role_style(role).0),
        r.1 == palette.card_border,
        r.2 == themed(palette, role_style(role).1),
{
    let (background, text, _tag) = role.style();
    (
        themed_settings_color(palette, background),
        palette.card_border,
        themed_settings_color(palette, text),
    )
}

/// A button has, when the pointer leaves it, the background that it was made with,
/// and another one while the pointer is over it.
pub proof fn button_recovers_its_background(role: SettingsButtonRole)
    ensures
        normal_background(role_style(role).2) == role_style(role).0,
        hover_background(role_style(role).2) != role_style(role).0,
{
}

/// The tags of two kinds of buttons differ, so the tag alone tells the kind.
pub proof fn button_tags_are_distinct(a: SettingsButtonRole, b: SettingsButtonRole)
    requires
        role_style(a).2 == role_style(b).2,
    ensures
        a == b,
{
}

/// The light appearance shows every colour as it is given.
pub proof fn light_palette_changes_no_color(palette: UiPalette, hex: u32)
    requires
        !palette.dark,
    ensures
        themed(palette, hex) == hex,
{
}

/// Every text role has a colour of its own in the palette: changing one colour changes the
/// texts of that role and no others.
pub proof fn text_roles_have_their_colors(palette: UiPalette, other: u32, role: SettingsTextRole)
    ensures
        text_color(UiPalette { primary_text: other, ..palette }, role) == if role
            == SettingsTextRole::Primary {
            other
        } else {
            text_color(palette, role)
        },
        text_color(UiPalette { secondary_text: other, ..palette }, role) == if role
            == SettingsTextRole::Secondary {
            other
        } else {
            text_color(palette, role)
        },
        text_color(UiPalette { sidebar_text: other, ..palette }, role) == if role
            == SettingsTextRole::Sidebar {
            other
        } else {
            text_color(palette, role)
        },
        text_color(UiPalette { muted_text: other, ..palette }, role) == if role
            == SettingsTextRole::Muted {
            other
        } else {
            text_color(palette, role)
        },
        text_color(UiPalette { disabled_text: other, ..palette }, role) == if role
            == SettingsTextRole::Disabled {
            other
        } else {
            text_color(palette, role)
        },
        text_color(UiPalette { accent: other, ..palette }, role) == if role
            == SettingsTextRole::Accent {
            other
        } else {
            text_color(palette, role)
        },
        text_color(UiPalette { accent_hover: other, ..palette }, role) == if role
            == SettingsTextRole::AccentHover {
            other
        } else {
            text_color(palette, role)
        },
{
}

/// In a dark theme each button has the colours of its role: plain buttons those for buttons,
/// the footer its own, the primary one the accent colour and the destructive one its warning;
/// under the pointer each has the colour for that, and its text that of buttons.
pub proof fn dark_buttons_have_their_colors(palette: UiPalette, role: SettingsButtonRole)
    requires
        palette.dark,
    ensures
        ({
            let (background, text, tag) = role_style(role);
            &&& themed(palette, background) == match role {
                SettingsButtonRole::Action => palette.button_bg,
                SettingsButtonRole::Compact => palette.button_bg,
                SettingsButtonRole::Footer => palette.footer_button_bg,
                SettingsButtonRole::Primary => palette.accent,
                SettingsButtonRole::Destructive => palette.destructive,
            }
            &&& themed(palette, hover_background(tag)) == match role {
                SettingsButtonRole::Primary => palette.accent_hover,
                SettingsButtonRole::Destructive => palette.destructive_hover,
                _ => palette.hover_bg,
            }
            &&& themed(palette, text) == palette.button_text
        }),
{
}

/// In the light theme a primary button is blue and a destructive one red, both with white
/// text, and darker under the pointer; all others are a pale grey with dark text.
pub proof fn light_buttons_have_their_colors(role: SettingsButtonRole)
    ensures
        role_style(SettingsButtonRole::Primary) == (0x0A84FFFFu32, 0xFFFFFFFFu32, -2int),
        role_style(SettingsButtonRole::Destructive) == (0xFF3B30FFu32, 0xFFFFFFFFu32, -4int),
        hover_background(-2) == 0x0077EDFF,
        hover_background(-4) == 0xD70015FF,
        hover_background(-1) == 0x76768024,
        role_style(SettingsButtonRole::Action) == (0xFFFFFFADu32, 0x2E2E2EFFu32, -3int),
        role_style(SettingsButtonRole::Footer) == (0xFFFFFFC7u32, 0x2E2E2EFFu32, -1int),
        role_style(SettingsButtonRole::Compact) == (0x7676801Fu32, 0x44444AFFu32, 0int),
        role != SettingsButtonRole::Primary && role != SettingsButtonRole::Destructive
            ==> role_style(role).1 != 0xFFFFFFFF,
{
}

/// The buttons of the mapping table carry the number of their mouse button as a tag, and are
/// compact buttons whichever it is.
pub proof fn numbered_buttons_are_compact(button: int)
    requires
        button >= 0,
    ensures
        normal_background(button) == role_style(SettingsButtonRole::Compact).0,
        hover_background(button) == 0x7676802B,
{
}

/// A colour that is none of the known ones is shown as it is given, in both themes; the greys
/// that buttons are drawn with all stand for the same colour of a dark theme.
pub proof fn unknown_colors_stay(palette: UiPalette, hex: u32)
    ensures
        hex % 0x100 != 0xFF && hex % 0x100 != 0xAD && hex % 0x100 != 0xC7 && hex / 0x100
            != 0x767680 ==> themed(palette, hex) == hex,
        palette.dark ==> themed(palette, 0x7676801E) == palette.button_bg,
        palette.dark ==> themed(palette, 0x2C2C30FF) == palette.button_text,
        palette.dark ==> themed(palette, 0x7676802B) == palette.hover_bg,
{
}

} // verus!
