//! What the controls of the window show of a configuration.
use vstd::prelude::*;

use crate::config::{
    ClipboardConfig, Config, LayoutConfig, QuickActionsConfig, UpdatesConfig, WindowControlConfig,
};
use crate::controls;
use crate::dispatch;
use crate::dispatch::{ChoiceTables, ControlField, ControlReading};
use crate::geometry;
use crate::text::same_text;
#[allow(unused_imports)]
use crate::page_rows::{RowControl, RowTitle};
#[allow(unused_imports)]
use crate::page_contents;

verus! {

/// What a control shows.
#[derive(Clone, Copy, Debug, PartialEq, Eq, Structural)]
pub enum Shown {
    Switch { on: bool },
    /// The chosen option of a select.
    Choice { index: usize },
    /// The whole value of a slider.
    Value { number: i64 },
}

impl Shown {
    /// The number that is read from a control that shows this.
    pub open spec fn number(self) -> int {
        match self {
            Shown::Switch { on } => controls::switch_state(on) as int,
            Shown::Choice { index } => index as int,
            Shown::Value { number } => number as int,
        }
    }
}

/// The first place of a text in a list.
pub open spec fn text_index(values: Seq<String>, text: Seq<char>) -> Option<usize>
    decreases values.len(),
{
    if values.len() == 0 {
        None
    } else {
        match text_index(values.drop_last(), text) {
            Some(i) => Some(i),
            None => if values.last()@ == text {
                Some((values.len() - 1) as usize)
            } else {
                None
            },
        }
    }
}

/// The first place of a text in a list.
pub fn option_index(values: &Vec<String>, text: &str) -> (r: Option<usize>)
    ensures
        r == text_index(values@, text@),
{
    let mut i: usize = 0;
    while i < values.len()
        invariant
            i <= values@.len(),
            text_index(values@.take(i as int), text@) is None,
        decreases values@.len() - i,
    {
        assert(values@.take(i + 1).drop_last() =~= values@.take(i as int));
        if same_text(values[i].as_str(), text) {
            proof {
                later_texts_do_not_matter(values@, text@, i + 1);
            }
            return Some(i);
        }
        i += 1;
    }
    assert(values@.take(values@.len() as int) =~= values@);
    None
}

/// A text found among the first `n` of a list is found there in the whole list.
proof fn later_texts_do_not_matter(values: Seq<String>, text: Seq<char>, n: int)
    requires
        0 <= n <= values.len(),
        text_index(values.take(n), text) is Some,
    ensures
        text_index(values, text) == text_index(values.take(n), text),
    decreases values.len() - n,
{
    if n < values.len() {
        assert(values.take(n + 1).drop_last() =~= values.take(n));
        later_texts_do_not_matter(values, text, n + 1);
    } else {
        assert(values.take(n) =~= values);
    }
}

/// A length in whole points, halves upwards; a negative one counts as zero.
pub open spec fn whole_points(length: i64) -> i64 {
    if length < 0 {
        0
    } else {
        (length as int / 1_000 + if length as int % 1_000 >= 500 { 1int } else { 0int }) as i64
    }
}

fn rounded_points(length: i64) -> (r: i64)
    ensures
        r == whole_points(length),
{
    if length < 0 {
        0
    } else if length % 1_000 >= 500 {
        length / 1_000 + 1
    } else {
        length / 1_000
    }
}

/// What a switch shows that is on or off.
pub open spec fn switch(on: bool) -> Option<Shown> {
    Some(Shown::Switch { on })
}

/// The second of two options where a condition holds, and the first otherwise.
pub open spec fn second_if(condition: bool) -> Option<Shown> {
    Some(Shown::Choice { index: if condition { 1 } else { 0 } })
}

/// What a select with a fixed list of options shows.
pub open spec fn shown_choice(cfg: Config, field: ControlField) -> Option<Shown> {
    match field {
        ControlField::Theme => Some(
            Shown::Choice {
                index: if cfg.appearance.theme@ == "dark"@ {
                    0
                } else if cfg.appearance.theme@ == "light"@ {
                    1
                } else {
                    2
                },
            },
        ),
        ControlField::GlassStyle => second_if(cfg.appearance.glass_style@ == "clear"@),
        ControlField::LogLevel => second_if(cfg.logging.level@ != "debug"@),
        ControlField::OverlayPosition => second_if(cfg.windows.overlay_position@ == "main"@),
        ControlField::ActivationMode => second_if(cfg.windows.activation_mode@ == "click"@),
        ControlField::Modifier => second_if(cfg.keyboard.modifier@ == "command"@),
        ControlField::ThumbnailsEnabled => second_if(cfg.layout.thumbnails_enabled),
        ControlField::ClipboardPinFollow => second_if(!cfg.clipboard.pin_follow_selection),
        _ => None,
    }
}

/// What a switch that stands alone shows.
pub open spec fn shown_alone(c: Config, field: ControlField) -> Option<Shown> {
    match field {
        ControlField::LaunchAtLogin => switch(c.startup.launch_at_login),
        ControlField::WindowsEnabled => switch(c.windows.enabled),
        ControlField::ShowMinimized => switch(c.windows.show_minimized),
        ControlField::MouseEnabled => switch(c.mouse.enabled),
        _ => None,
    }
}

/// What a switch for the window cards shows.
pub open spec fn shown_layout(c: LayoutConfig, field: ControlField) -> Option<Shown> {
    match field {
        ControlField::FocusedThumbnailPrewarm => switch(c.focused_thumbnail_prewarm),
        ControlField::ShowAppNameInCards => switch(c.show_app_name_in_cards),
        _ => None,
    }
}

/// What a switch for updates shows.
pub open spec fn shown_updates(c: UpdatesConfig, field: ControlField) -> Option<Shown> {
    match field {
        ControlField::UpdateAutoCheck => switch(c.automatically_check),
        ControlField::UpdateAutoDownload => switch(c.automatically_download),
        _ => None,
    }
}

/// What a switch of the window-control page shows.
pub open spec fn shown_window_control(c: WindowControlConfig, field: ControlField) -> Option<Shown> {
    match field {
        ControlField::WindowControlEnabled => switch(c.enabled),
        ControlField::WindowControlUp => switch(c.up),
        ControlField::WindowControlDown => switch(c.down),
        ControlField::WindowControlLeft => switch(c.left),
        ControlField::WindowControlRight => switch(c.right),
        ControlField::WindowControlDisplayUp => switch(c.display_up),
        ControlField::WindowControlDisplayDown => switch(c.display_down),
        ControlField::WindowControlDisplayLeft => switch(c.display_left),
        ControlField::WindowControlDisplayRight => switch(c.display_right),
        _ => None,
    }
}

/// What a switch of the clipboard page shows.
pub open spec fn shown_clipboard(c: ClipboardConfig, field: ControlField) -> Option<Shown> {
    match field {
        ControlField::ClipboardEnabled => switch(c.enabled),
        ControlField::ClipboardPersist => switch(c.persist),
        ControlField::ClipboardShowSourceApp => switch(c.show_source_app),
        ControlField::ClipboardMoveUsedToTop => switch(c.move_used_to_top),
        ControlField::ClipboardDeleteAfterPaste => switch(c.delete_after_paste),
        ControlField::ClipboardClearSystemPasteboardAfterPaste => switch(
            c.clear_system_pasteboard_after_paste,
        ),
        _ => None,
    }
}

/// What a switch of the quick-actions page shows.
pub open spec fn shown_quick_actions(c: QuickActionsConfig, field: ControlField) -> Option<Shown> {
    match field {
        ControlField::QuickActionsEnabled => switch(c.enabled),
        ControlField::QuickActionOpenSettings => switch(c.open_settings),
        ControlField::QuickActionOpenFinder => switch(c.open_finder),
        ControlField::QuickActionShowDesktop => switch(c.show_desktop),
        ControlField::QuickActionLockScreen => switch(c.lock_screen),
        ControlField::QuickActionLocatePointer => switch(c.locate_pointer),
        _ => None,
    }
}

/// What the switch of a setting shows, where its control is one.
pub open spec fn shown_switch(cfg: Config, field: ControlField) -> Option<Shown> {
    if let Some(shown) = shown_alone(cfg, field) {
        Some(shown)
    } else if let Some(shown) = shown_layout(cfg.layout, field) {
        Some(shown)
    } else if let Some(shown) = shown_updates(cfg.updates, field) {
        Some(shown)
    } else if let Some(shown) = shown_window_control(cfg.window_control, field) {
        Some(shown)
    } else if let Some(shown) = shown_clipboard(cfg.clipboard, field) {
        Some(shown)
    } else {
        shown_quick_actions(cfg.quick_actions, field)
    }
}

/// What the control of a setting shows. The settings of a mouse, texts that are typed and
/// colours are not shown this way.
pub open spec fn shown_value(
    cfg: Config,
    field: ControlField,
    locales: Seq<String>,
) -> Option<Shown> {
    match field {
        ControlField::Locale => Some(
            Shown::Choice {
                index: match text_index(locales, cfg.i18n.locale@) {
                    Some(i) => i,
                    None => 0,
                },
            },
        ),
        ControlField::CardTextSize => Some(
            Shown::Value { number: whole_points(cfg.layout.card_text_size) },
        ),
        ControlField::StatusBarTextSize => Some(
            Shown::Value { number: whole_points(cfg.fonts.status_bar_size) },
        ),
        ControlField::ClipboardAutoExpireDays => Some(
            Shown::Value { number: cfg.clipboard.auto_expire_days as i64 },
        ),
        _ => match shown_choice(cfg, field) {
            Some(shown) => Some(shown),
            None => shown_switch(cfg, field),
        },
    }
}

fn show_switch(on: bool) -> (r: Option<Shown>)
    ensures
        r == switch(on),
{
    Some(Shown::Switch { on })
}

fn show_second_if(condition: bool) -> (r: Option<Shown>)
    ensures
        r == second_if(condition),
{
    Some(Shown::Choice { index: if condition { 1 } else { 0 } })
}

fn show_choice(cfg: &Config, field: ControlField) -> (r: Option<Shown>)
    ensures
        r == shown_choice(*cfg, field),
{
    match field {
        ControlField::Theme => {
            let theme = cfg.appearance.theme.as_str();
            let index: usize = if same_text(theme, "dark") {
                0
            } else if same_text(theme, "light") {
                1
            } else {
                2
            };
            Some(Shown::Choice { index })
        },
        ControlField::GlassStyle => show_second_if(
            same_text(cfg.appearance.glass_style.as_str(), "clear"),
        ),
        ControlField::LogLevel => show_second_if(!same_text(cfg.logging.level.as_str(), "debug")),
        ControlField::OverlayPosition => show_second_if(
            same_text(cfg.windows.overlay_position.as_str(), "main"),
        ),
        ControlField::ActivationMode => show_second_if(
            same_text(cfg.windows.activation_mode.as_str(), "click"),
        ),
        ControlField::Modifier => show_second_if(
            same_text(cfg.keyboard.modifier.as_str(), "command"),
        ),
        ControlField::ThumbnailsEnabled => show_second_if(cfg.layout.thumbnails_enabled),
        ControlField::ClipboardPinFollow => show_second_if(!cfg.clipboard.pin_follow_selection),
        _ => None,
    }
}

fn show_alone(c: &Config, field: ControlField) -> (r: Option<Shown>)
    ensures
        r == shown_alone(*c, field),
{
    match field {
        ControlField::LaunchAtLogin => show_switch(c.startup.launch_at_login),
        ControlField::WindowsEnabled => show_switch(c.windows.enabled),
        ControlField::ShowMinimized => show_switch(c.windows.show_minimized),
        ControlField::MouseEnabled => show_switch(c.mouse.enabled),
        _ => None,
    }
}

fn show_layout(c: LayoutConfig, field: ControlField) -> (r: Option<Shown>)
    ensures
        r == shown_layout(c, field),
{
    match field {
        ControlField::FocusedThumbnailPrewarm => show_switch(c.focused_thumbnail_prewarm),
        ControlField::ShowAppNameInCards => show_switch(c.show_app_name_in_cards),
        _ => None,
    }
}

fn show_updates(c: UpdatesConfig, field: ControlField) -> (r: Option<Shown>)
    ensures
        r == shown_updates(c, field),
{
    match field {
        ControlField::UpdateAutoCheck => show_switch(c.automatically_check),
        ControlField::UpdateAutoDownload => show_switch(c.automatically_download),
        _ => None,
    }
}

fn show_window_control(c: WindowControlConfig, field: ControlField) -> (r: Option<Shown>)
    ensures
        r == shown_window_control(c, field),
{
    match field {
        ControlField::WindowControlEnabled => show_switch(c.enabled),
        ControlField::WindowControlUp => show_switch(c.up),
        ControlField::WindowControlDown => show_switch(c.down),
        ControlField::WindowControlLeft => show_switch(c.left),
        ControlField::WindowControlRight => show_switch(c.right),
        ControlField::WindowControlDisplayUp => show_switch(c.display_up),
        ControlField::WindowControlDisplayDown => show_switch(c.display_down),
        ControlField::WindowControlDisplayLeft => show_switch(c.display_left),
        ControlField::WindowControlDisplayRight => show_switch(c.display_right),
        _ => None,
    }
}

fn show_clipboard(c: ClipboardConfig, field: ControlField) -> (r: Option<Shown>)
    ensures
        r == shown_clipboard(c, field),
{
    match field {
        ControlField::ClipboardEnabled => show_switch(c.enabled),
        ControlField::ClipboardPersist => show_switch(c.persist),
        ControlField::ClipboardShowSourceApp => show_switch(c.show_source_app),
        ControlField::ClipboardMoveUsedToTop => show_switch(c.move_used_to_top),
        ControlField::ClipboardDeleteAfterPaste => show_switch(c.delete_after_paste),
        ControlField::ClipboardClearSystemPasteboardAfterPaste => show_switch(
            c.clear_system_pasteboard_after_paste,
        ),
        _ => None,
    }
}

fn show_quick_actions(c: QuickActionsConfig, field: ControlField) -> (r: Option<Shown>)
    ensures
        r == shown_quick_actions(c, field),
{
    match field {
        ControlField::QuickActionsEnabled => show_switch(c.enabled),
        ControlField::QuickActionOpenSettings => show_switch(c.open_settings),
        ControlField::QuickActionOpenFinder => show_switch(c.open_finder),
        ControlField::QuickActionShowDesktop => show_switch(c.show_desktop),
        ControlField::QuickActionLockScreen => show_switch(c.lock_screen),
        ControlField::QuickActionLocatePointer => show_switch(c.locate_pointer),
        _ => None,
    }
}

fn show_any_switch(cfg: &Config, field: ControlField) -> (r: Option<Shown>)
    ensures
        r == shown_switch(*cfg, field),
{
    if let Some(shown) = show_alone(cfg, field) {
        Some(shown)
    } else if let Some(shown) = show_layout(cfg.layout, field) {
        Some(shown)
    } else if let Some(shown) = show_updates(cfg.updates, field) {
        Some(shown)
    } else if let Some(shown) = show_window_control(cfg.window_control, field) {
        Some(shown)
    } else if let Some(shown) = show_clipboard(cfg.clipboard, field) {
        Some(shown)
    } else {
        show_quick_actions(cfg.quick_actions, field)
    }
}

/// What the control of a setting shows; nothing for the settings of a mouse, for texts
/// that are typed and for colours.
pub fn control_value(cfg: &Config, field: ControlField, locales: &Vec<String>) -> (r: Option<Shown>)
    ensures
        r == shown_value(*cfg, field, locales@),
{
    match field {
        ControlField::Locale => {
            let index: usize = match option_index(locales, cfg.i18n.locale.as_str()) {
                Some(i) => i,
                None => 0,
            };
            Some(Shown::Choice { index })
        },
        ControlField::CardTextSize => Some(
            Shown::Value { number: rounded_points(cfg.layout.card_text_size) },
        ),
        ControlField::StatusBarTextSize => Some(
            Shown::Value { number: rounded_points(cfg.fonts.status_bar_size) },
        ),
        ControlField::ClipboardAutoExpireDays => Some(
            Shown::Value { number: cfg.clipboard.auto_expire_days as i64 },
        ),
        _ => match show_choice(cfg, field) {
            Some(shown) => Some(shown),
            None => show_any_switch(cfg, field),
        },
    }
}

/// Whether the control of a setting can be brought to a number: the options of a select,
/// the two states of a switch, and the range of a slider.
pub open spec fn offered(field: ControlField, number: int, locales: Seq<String>) -> bool {
    match field {
        ControlField::Theme => 0 <= number <= 2,
        ControlField::Locale => 0 <= number < locales.len() <= usize::MAX,
        ControlField::CardTextSize => 0 <= number && geometry::in_range(number),
        ControlField::StatusBarTextSize => 0 <= number && geometry::in_range(number),
        ControlField::ClipboardAutoExpireDays => dispatch::CLIPBOARD_AUTO_EXPIRE_MIN <= number
            <= dispatch::CLIPBOARD_AUTO_EXPIRE_MAX,
        _ => 0 <= number <= 1,
    }
}

proof fn a_text_is_where_it_stands(values: Seq<String>, at: int)
    requires
        0 <= at < values.len() <= usize::MAX,
        forall|i: int, j: int|
            0 <= i < j < values.len() ==> (#[trigger] values[i])@ != (#[trigger] values[j])@,
    ensures
        text_index(values, values[at]@) == Some(at as usize),
    decreases values.len(),
{
    let rest = values.drop_last();
    if at < rest.len() {
        assert forall|i: int, j: int| 0 <= i < j < rest.len() implies (#[trigger] rest[i])@ != (
        #[trigger] rest[j])@ by {
            assert(rest[i] == values[i] && rest[j] == values[j]);
        }
        a_text_is_where_it_stands(rest, at);
        assert(rest[at] == values[at]);
    } else {
        assert(text_index(rest, values[at]@) is None) by {
            absent_texts_are_not_found(rest, values[at]@);
        }
    }
}

proof fn absent_texts_are_not_found(values: Seq<String>, text: Seq<char>)
    requires
        forall|i: int| 0 <= i < values.len() ==> (#[trigger] values[i])@ != text,
    ensures
        text_index(values, text) is None,
    decreases values.len(),
{
    if values.len() > 0 {
        let rest = values.drop_last();
        assert forall|i: int| 0 <= i < rest.len() implies (#[trigger] rest[i])@ != text by {
            assert(rest[i] == values[i]);
        }
        absent_texts_are_not_found(rest, text);
        assert(values[values.len() - 1]@ != text);
    }
}

/// The texts of two options of one select differ.
proof fn option_texts_differ()
    ensures
        "dark"@ != "light"@,
        "dark"@ != "auto"@,
        "light"@ != "auto"@,
        "clear"@ != "regular"@,
        "debug"@ != "info"@,
        "main"@ != "active_window"@,
        "click"@ != "hover"@,
        "command"@ != "option"@,
{
    reveal_strlit("dark");
    reveal_strlit("light");
    reveal_strlit("auto");
    reveal_strlit("clear");
    reveal_strlit("regular");
    reveal_strlit("debug");
    reveal_strlit("info");
    reveal_strlit("main");
    reveal_strlit("active_window");
    reveal_strlit("click");
    reveal_strlit("hover");
    reveal_strlit("command");
    reveal_strlit("option");
    assert("dark"@.len() != "light"@.len() && "auto"@.len() != "light"@.len());
    assert("dark"@[0] == 'd' && "auto"@[0] == 'a');
    assert("clear"@.len() != "regular"@.len());
    assert("debug"@.len() != "info"@.len());
    assert("main"@.len() != "active_window"@.len());
    assert("click"@[0] == 'c' && "hover"@[0] == 'h');
    assert("command"@.len() != "option"@.len());
}

/// Whether a control shows a number.
pub open spec fn shows(
    cfg: Config,
    field: ControlField,
    locales: Seq<String>,
    number: int,
) -> bool {
    shown_value(cfg, field, locales) matches Some(shown) && shown.number() == number
}

proof fn choices_are_shown(
    before: Config,
    after: Config,
    field: ControlField,
    reading: ControlReading,
    tables: ChoiceTables,
)
    requires
        shown_choice(before, field) is Some,
        offered(field, reading.number as int, tables.locales@),
        dispatch::setting_written(before, after, field, reading, tables),
    ensures
        shows(after, field, tables.locales@, reading.number as int),
{
    option_texts_differ();
}

proof fn layout_switches_are_kept(c: LayoutConfig, field: ControlField, number: int)
    requires
        0 <= number <= 1,
        shown_layout(c, field) is Some,
    ensures
        shown_layout(dispatch::layout_after(c, field, number), field) == switch(number == 1),
{
}

proof fn updates_switches_are_kept(c: UpdatesConfig, field: ControlField, number: int)
    requires
        0 <= number <= 1,
        shown_updates(c, field) is Some,
    ensures
        shown_updates(dispatch::updates_after(c, field, number), field) == switch(number == 1),
{
}

proof fn window_control_switches_are_kept(c: WindowControlConfig, field: ControlField, number: int)
    requires
        0 <= number <= 1,
        shown_window_control(c, field) is Some,
    ensures
        shown_window_control(dispatch::window_control_after(c, field, number), field) == switch(number == 1),
{
}

proof fn clipboard_switches_are_kept(c: ClipboardConfig, field: ControlField, number: int)
    requires
        0 <= number <= 1,
        shown_clipboard(c, field) is Some,
    ensures
        shown_clipboard(dispatch::clipboard_after(c, field, number), field) == switch(number == 1),
{
}

proof fn quick_actions_switches_are_kept(c: QuickActionsConfig, field: ControlField, number: int)
    requires
        0 <= number <= 1,
        shown_quick_actions(c, field) is Some,
    ensures
        shown_quick_actions(dispatch::quick_actions_after(c, field, number), field) == switch(number == 1),
{
}

proof fn lone_switches_are_kept(
    before: Config,
    after: Config,
    field: ControlField,
    reading: ControlReading,
    tables: ChoiceTables,
)
    requires
        0 <= reading.number <= 1,
        shown_alone(before, field) is Some,
        dispatch::setting_written(before, after, field, reading, tables),
    ensures
        shown_alone(after, field) == switch(reading.number == 1),
{
}

/// The settings that are written together with their neighbours.
proof fn sections_are_written(
    before: Config,
    after: Config,
    field: ControlField,
    reading: ControlReading,
    tables: ChoiceTables,
)
    requires
        !dispatch::in_choice_group(field),
        !dispatch::in_switch_group(field),
        dispatch::setting_written(before, after, field, reading, tables),
    ensures
        after.layout == dispatch::layout_after(before.layout, field, reading.number as int),
        after.clipboard == dispatch::clipboard_after(
            before.clipboard,
            field,
            reading.number as int,
        ),
        after.window_control == dispatch::window_control_after(
            before.window_control,
            field,
            reading.number as int,
        ),
        after.quick_actions == dispatch::quick_actions_after(
            before.quick_actions,
            field,
            reading.number as int,
        ),
        after.updates == dispatch::updates_after(before.updates, field, reading.number as int),
{
}

/// A switch belongs to the same section whatever it shows.
proof fn sections_of_switches_are_fixed(a: Config, b: Config, field: ControlField)
    ensures
        shown_alone(a, field) is Some <==> shown_alone(b, field) is Some,
        shown_layout(a.layout, field) is Some <==> shown_layout(b.layout, field) is Some,
        shown_updates(a.updates, field) is Some <==> shown_updates(b.updates, field) is Some,
        shown_window_control(a.window_control, field) is Some <==> shown_window_control(
            b.window_control,
            field,
        ) is Some,
        shown_clipboard(a.clipboard, field) is Some <==> shown_clipboard(
            b.clipboard,
            field,
        ) is Some,
{
}

proof fn switches_are_shown(
    before: Config,
    after: Config,
    field: ControlField,
    reading: ControlReading,
    tables: ChoiceTables,
)
    requires
        shown_switch(before, field) is Some,
        0 <= reading.number <= 1,
        dispatch::setting_written(before, after, field, reading, tables),
    ensures
        shown_switch(after, field) == switch(reading.number == 1),
{
    let number = reading.number as int;
    sections_of_switches_are_fixed(before, after, field);
    if shown_alone(before, field) is Some {
        lone_switches_are_kept(before, after, field, reading, tables);
    } else {
        sections_are_written(before, after, field, reading, tables);
        if shown_layout(before.layout, field) is Some {
            layout_switches_are_kept(before.layout, field, number);
        } else if shown_updates(before.updates, field) is Some {
            updates_switches_are_kept(before.updates, field, number);
        } else if shown_window_control(before.window_control, field) is Some {
            window_control_switches_are_kept(before.window_control, field, number);
        } else if shown_clipboard(before.clipboard, field) is Some {
            clipboard_switches_are_kept(before.clipboard, field, number);
        } else {
            quick_actions_switches_are_kept(before.quick_actions, field, number);
        }
    }
}

proof fn values_are_shown(
    before: Config,
    after: Config,
    field: ControlField,
    reading: ControlReading,
    tables: ChoiceTables,
)
    requires
        field == ControlField::ClipboardAutoExpireDays || dispatch::is_size_field(field),
        offered(field, reading.number as int, tables.locales@),
        dispatch::setting_written(before, after, field, reading, tables),
    ensures
        shows(after, field, tables.locales@, reading.number as int),
{
    if dispatch::is_size_field(field) {
        assert(whole_points((reading.number * 1_000) as i64) == reading.number);
    }
}

/// A setting that was taken over from its control is shown there as it was read: nothing
/// jumps when the window is opened again.
pub proof fn controls_show_what_was_set(
    before: Config,
    after: Config,
    field: ControlField,
    reading: ControlReading,
    tables: ChoiceTables,
)
    requires
        shown_value(before, field, tables.locales@) is Some,
        offered(field, reading.number as int, tables.locales@),
        forall|i: int, j: int|
            0 <= i < j < tables.locales@.len() ==> (#[trigger] tables.locales@[i])@ != (
            #[trigger] tables.locales@[j])@,
        dispatch::setting_written(before, after, field, reading, tables),
    ensures
        shows(after, field, tables.locales@, reading.number as int),
{
    if field == ControlField::Locale {
        a_text_is_where_it_stands(tables.locales@, reading.number as int);
    } else if field == ControlField::ClipboardAutoExpireDays || dispatch::is_size_field(field) {
        values_are_shown(before, after, field, reading, tables);
    } else if shown_choice(before, field) is Some {
        choices_are_shown(before, after, field, reading, tables);
    } else {
        switches_are_shown(before, after, field, reading, tables);
    }
}

/// A text is found where it first stands in a list, and not found where it does not.
pub proof fn texts_are_found_where_they_first_stand(values: Seq<String>, text: Seq<char>, i: int)
    requires
        values.len() <= usize::MAX,
    ensures
        text_index(values, text) matches Some(k) ==> {
            &&& k < values.len()
            &&& values[k as int]@ == text
            &&& 0 <= i < k ==> values[i]@ != text
        },
        text_index(values, text) is None && 0 <= i < values.len() ==> values[i]@ != text,
    decreases values.len(),
{
    if values.len() > 0 {
        let rest = values.drop_last();
        texts_are_found_where_they_first_stand(rest, text, i);
        if 0 <= i < rest.len() {
            assert(rest[i] == values[i]);
        }
        if let Some(k) = text_index(rest, text) {
            assert(rest[k as int] == values[k as int]);
        }
        assert(values[values.len() - 1] == values.last());
    }
}

/// A length is shown in the nearest whole points, halves upwards, and not below zero.
pub proof fn lengths_are_rounded_to_points(length: i64)
    ensures
        length >= 0 ==> -500 < 1_000 * whole_points(length) - length <= 500,
        length < 0 ==> whole_points(length) == 0,
{
}

/// Every setting of the pages is shown, but for those of a mouse, those that are typed in and
/// the tint. A switch shows whether it is on, a select its choice, and a slider its value.
pub proof fn controls_show_their_kind(cfg: Config, field: ControlField, locales: Seq<String>)
    ensures
        shown_value(cfg, field, locales) is None <==> (dispatch::is_profile_field(field) || field
            == ControlField::GlassTint || field == ControlField::CornerRadius || field
            == ControlField::ClipboardMaxEntries),
        shown_value(cfg, field, locales) matches Some(shown) ==> {
            let control = page_contents::control_for(RowTitle::Setting(field));
            &&& shown is Switch <==> control == RowControl::Switch
            &&& shown is Choice <==> control == RowControl::Popup
            &&& shown is Value <==> control == RowControl::Slider
        },
        forall|shown: Shown| #[trigger]
            shown.number() == match shown {
                Shown::Switch { on } => if on { 1int } else { 0 },
                Shown::Choice { index } => index as int,
                Shown::Value { number } => number as int,
            },
{
}

/// A switch is shown as it is configured: on where its setting is on, and off where it is off.
pub proof fn switches_show_their_setting(cfg: Config, locales: Seq<String>)
    ensures
        ({
            let on = |field: ControlField|
                shown_value(cfg, field, locales) == Some(Shown::Switch { on: true });
            &&& on(ControlField::LaunchAtLogin) == cfg.startup.launch_at_login
            &&& on(ControlField::WindowsEnabled) == cfg.windows.enabled
            &&& on(ControlField::ShowMinimized) == cfg.windows.show_minimized
            &&& on(ControlField::FocusedThumbnailPrewarm) == cfg.layout.focused_thumbnail_prewarm
            &&& on(ControlField::ShowAppNameInCards) == cfg.layout.show_app_name_in_cards
            &&& on(ControlField::MouseEnabled) == cfg.mouse.enabled
            &&& on(ControlField::ClipboardEnabled) == cfg.clipboard.enabled
            &&& on(ControlField::WindowControlEnabled) == cfg.window_control.enabled
            &&& on(ControlField::QuickActionsEnabled) == cfg.quick_actions.enabled
            &&& on(ControlField::UpdateAutoCheck) == cfg.updates.automatically_check
            &&& on(ControlField::UpdateAutoDownload) == cfg.updates.automatically_download
        }),
        ({
            let on = |field: ControlField|
                shown_value(cfg, field, locales) == Some(Shown::Switch { on: true });
            let c = cfg.clipboard;
            let w = cfg.window_control;
            let q = cfg.quick_actions;
            &&& on(ControlField::ClipboardPersist) == c.persist
            &&& on(ControlField::ClipboardShowSourceApp) == c.show_source_app
            &&& on(ControlField::ClipboardMoveUsedToTop) == c.move_used_to_top
            &&& on(ControlField::ClipboardDeleteAfterPaste) == c.delete_after_paste
            &&& on(ControlField::ClipboardClearSystemPasteboardAfterPaste)
                == c.clear_system_pasteboard_after_paste
            &&& on(ControlField::WindowControlUp) == w.up
            &&& on(ControlField::WindowControlDown) == w.down
            &&& on(ControlField::WindowControlLeft) == w.left
            &&& on(ControlField::WindowControlRight) == w.right
            &&& on(ControlField::WindowControlDisplayUp) == w.display_up
            &&& on(ControlField::WindowControlDisplayDown) == w.display_down
            &&& on(ControlField::WindowControlDisplayLeft) == w.display_left
            &&& on(ControlField::WindowControlDisplayRight) == w.display_right
            &&& on(ControlField::QuickActionOpenSettings) == q.open_settings
            &&& on(ControlField::QuickActionOpenFinder) == q.open_finder
            &&& on(ControlField::QuickActionShowDesktop) == q.show_desktop
            &&& on(ControlField::QuickActionLockScreen) == q.lock_screen
            &&& on(ControlField::QuickActionLocatePointer) == q.locate_pointer
        }),
{
}

/// A word that stands for no option is shown as the usual one: the theme of the system, plain
/// glass, the active window, hovering, the option key, and the log level without details.
pub proof fn unknown_words_show_the_usual_option(cfg: Config, locales: Seq<String>, word: String)
    requires
        word@ != "dark"@,
        word@ != "light"@,
        word@ != "clear"@,
        word@ != "debug"@,
        word@ != "main"@,
        word@ != "click"@,
        word@ != "command"@,
    ensures
        cfg.appearance.theme == word ==> shows(cfg, ControlField::Theme, locales, 2),
        cfg.appearance.glass_style == word ==> shows(cfg, ControlField::GlassStyle, locales, 0),
        cfg.logging.level == word ==> shows(cfg, ControlField::LogLevel, locales, 1),
        cfg.windows.overlay_position == word ==> shows(
            cfg,
            ControlField::OverlayPosition,
            locales,
            0,
        ),
        cfg.windows.activation_mode == word ==> shows(
            cfg,
            ControlField::ActivationMode,
            locales,
            0,
        ),
        cfg.keyboard.modifier == word ==> shows(cfg, ControlField::Modifier, locales, 0),
{
}

/// A language is shown as the option that stands for it, and one that is not offered as the
/// first option.
pub proof fn languages_show_their_option(cfg: Config, locales: Seq<String>, i: int)
    requires
        locales.len() <= usize::MAX,
    ensures
        (forall|k: int| 0 <= k < locales.len() ==> (#[trigger] locales[k])@ != cfg.i18n.locale@)
            ==> shows(cfg, ControlField::Locale, locales, 0),
        0 <= i < locales.len() && locales[i]@ == cfg.i18n.locale@ && (forall|k: int|
            0 <= k < i ==> (#[trigger] locales[k])@ != cfg.i18n.locale@) ==> shows(
            cfg,
            ControlField::Locale,
            locales,
            i,
        ),
{
    let text = cfg.i18n.locale@;
    if forall|k: int| 0 <= k < locales.len() ==> (#[trigger] locales[k])@ != text {
        absent_texts_are_not_found(locales, text);
    }
    if 0 <= i < locales.len() && locales[i]@ == text {
        texts_are_found_where_they_first_stand(locales, text, i);
    }
}

} // verus!
