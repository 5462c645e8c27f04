//! Settings that are typed in as numbers.
use vstd::prelude::*;
use vstd::string::*;

use crate::config::Config;
use crate::dispatch::SettingsControls;
use crate::text::{decimal_text, digit_text};
#[allow(unused_imports)]
use crate::config::{AppearanceConfig, ClipboardConfig};
#[allow(unused_imports)]
use crate::{geometry, text};

verus! {

/// The settings that are typed in.
#[derive(Clone, Copy, Debug, PartialEq, Eq, Structural)]
pub enum TextField {
    CornerRadius,
    ClipboardMaxEntries,
}

/// The largest corner radius.
pub const CORNER_RADIUS_MAX: i64 = 500_000;

/// Fewest and most clipboard entries.
pub const MAX_ENTRIES_MIN: u64 = 1;

pub const MAX_ENTRIES_MAX: u64 = 100;

/// What was typed, read as a number: as a length for the corner radius, as a count for
/// the clipboard entries. Nothing where it is no finite number.
#[derive(Clone, Copy, Debug, PartialEq, Eq, Structural)]
pub struct TypedNumber {
    pub length: Option<i64>,
    pub count: Option<u64>,
}

/// A number that is accepted.
#[derive(Clone, Copy, Debug, PartialEq, Eq, Structural)]
pub enum TextFieldValue {
    Length(i64),
    Count(u32),
}

/// The setting that a text field belongs to.
pub fn text_field_of(ui: &SettingsControls, obj: usize) -> (r: Option<TextField>)
    ensures
        r == if obj == ui.corner_radius {
            Some(TextField::CornerRadius)
        } else if obj == ui.clipboard_max_entries {
            Some(TextField::ClipboardMaxEntries)
        } else {
            None
        },
{
    if obj == ui.corner_radius {
        Some(TextField::CornerRadius)
    } else if obj == ui.clipboard_max_entries {
        Some(TextField::ClipboardMaxEntries)
    } else {
        None
    }
}

/// The number that is accepted for a setting, if it is within its limits.
pub open spec fn accepted(field: TextField, typed: TypedNumber) -> Option<TextFieldValue> {
    match field {
        TextField::CornerRadius => match typed.length {
            Some(v) if 0 <= v <= CORNER_RADIUS_MAX => Some(TextFieldValue::Length(v)),
            _ => None,
        },
        TextField::ClipboardMaxEntries => match typed.count {
            Some(v) if MAX_ENTRIES_MIN <= v <= MAX_ENTRIES_MAX => Some(
                TextFieldValue::Count(v as u32),
            ),
            _ => None,
        },
    }
}

/// Holds a typed number against the limits of its setting.
pub fn parse_text_field(field: TextField, typed: TypedNumber) -> (r: Option<TextFieldValue>)
    ensures
        r == accepted(field, typed),
{
    match field {
        TextField::CornerRadius => match typed.length {
            Some(v) => if v >= 0 && v <= CORNER_RADIUS_MAX {
                Some(TextFieldValue::Length(v))
            } else {
                None
            },
            None => None,
        },
        TextField::ClipboardMaxEntries => match typed.count {
            Some(v) => if v >= MAX_ENTRIES_MIN && v <= MAX_ENTRIES_MAX {
                Some(TextFieldValue::Count(v as u32))
            } else {
                None
            },
            None => None,
        },
    }
}

/// The configuration with a typed number; a number of the wrong kind changes nothing.
pub open spec fn with_number(cfg: Config, field: TextField, value: TextFieldValue) -> Config {
    match (field, value) {
        (TextField::CornerRadius, TextFieldValue::Length(v)) => Config {
            appearance: AppearanceConfig { corner_radius: v, ..cfg.appearance },
            ..cfg
        },
        (TextField::ClipboardMaxEntries, TextFieldValue::Count(v)) => Config {
            clipboard: ClipboardConfig { max_entries: v, ..cfg.clipboard },
            ..cfg
        },
        _ => cfg,
    }
}

/// Writes a typed number to the configuration.
pub fn write_text_field_config(cfg: &mut Config, field: TextField, value: TextFieldValue)
    ensures
        *final(cfg) == with_number(*old(cfg), field, value),
{
    match field {
        TextField::CornerRadius => {
            if let TextFieldValue::Length(v) = value {
                cfg.appearance.corner_radius = v;
            }
        },
        TextField::ClipboardMaxEntries => {
            if let TextFieldValue::Count(v) = value {
                cfg.clipboard.max_entries = v;
            }
        },
    }
}

/// The setting of a text field with the number that is accepted for it.
pub open spec fn accepted_for(
    ui: SettingsControls,
    obj: usize,
    typed: TypedNumber,
) -> Option<(TextField, TextFieldValue)> {
    let field = if obj == ui.corner_radius {
        Some(TextField::CornerRadius)
    } else if obj == ui.clipboard_max_entries {
        Some(TextField::ClipboardMaxEntries)
    } else {
        None
    };
    match field {
        Some(f) => match accepted(f, typed) {
            Some(v) => Some((f, v)),
            None => None,
        },
        None => None,
    }
}

/// Takes a number over while it is being typed. What is not accepted leaves the
/// configuration alone. Tells whether something is to be saved, after a while.
pub fn on_control_text_did_change(
    cfg: &mut Config,
    ui: &SettingsControls,
    obj: usize,
    typed: TypedNumber,
) -> (r: bool)
    ensures
        match accepted_for(*ui, obj, typed) {
            Some((field, value)) => r && *final(cfg) == with_number(*old(cfg), field, value),
            None => !r && *final(cfg) == *old(cfg),
        },
{
    match text_field_of(ui, obj) {
        None => false,
        Some(field) => match parse_text_field(field, typed) {
            None => false,
            Some(value) => {
                write_text_field_config(cfg, field, value);
                true
            },
        },
    }
}

/// What happens when typing ends.
#[derive(Debug)]
pub enum EndEditing {
    /// The field belongs to no setting.
    Ignored,
    /// The number was taken over; it is put into effect and saved at once.
    Committed,
    /// The number was not accepted: the field shows the configured one again.
    Restored { control: usize, text: String },
}

/// The text of a configured number.
pub open spec fn configured_text(cfg: Config, field: TextField) -> Seq<char> {
    match field {
        TextField::CornerRadius => length_digits(cfg.appearance.corner_radius as int),
        TextField::ClipboardMaxEntries => text::decimal(cfg.clipboard.max_entries as nat),
    }
}

/// The digits after the decimal point of a number of thousandths, without trailing
/// zeros.
pub open spec fn fraction_digits(thousandths: int) -> Seq<char> {
    let (a, b, c) = (thousandths / 100, thousandths / 10 % 10, thousandths % 10);
    if c != 0 {
        seq!['.', text::digit_char(a), text::digit_char(b), text::digit_char(c)]
    } else if b != 0 {
        seq!['.', text::digit_char(a), text::digit_char(b)]
    } else if a != 0 {
        seq!['.', text::digit_char(a)]
    } else {
        seq![]
    }
}

/// A length in points, as short as it can be written.
pub open spec fn length_digits(v: int) -> Seq<char> {
    if v < 0 {
        seq!['-'] + text::decimal((-v / 1_000) as nat) + fraction_digits(-v % 1_000)
    } else {
        text::decimal((v / 1_000) as nat) + fraction_digits(v % 1_000)
    }
}

/// A length in points, as short as it can be written.
pub fn length_text(v: i64) -> (r: String)
    requires
        v > i64::MIN,
    ensures
        r@ == length_digits(v as int),
{
    proof {
        reveal_strlit("-");
        reveal_strlit(".");
        assert("-"@ =~= seq!['-']);
        assert("."@ =~= seq!['.']);
    }
    let mut out = String::new();
    if v < 0 {
        out.append("-");
    }
    let size: i64 = if v < 0 { -v } else { v };
    let whole = decimal_text((size / 1_000) as u64);
    out.append(whole.as_str());
    let rest = size % 1_000;
    let a = (rest / 100) as u8;
    let b = (rest / 10 % 10) as u8;
    let c = (rest % 10) as u8;
    if rest != 0 {
        out.append(".");
        out.append(digit_text(a));
        if b != 0 || c != 0 {
            out.append(digit_text(b));
            if c != 0 {
                out.append(digit_text(c));
            }
        }
    }
    assert(out@ =~= length_digits(v as int));
    out
}

/// Ends typing: an accepted number is taken over, any other is replaced by what is
/// configured.
pub fn on_control_text_did_end_editing(
    cfg: &mut Config,
    ui: &SettingsControls,
    obj: usize,
    typed: TypedNumber,
) -> (r: EndEditing)
    requires
        old(cfg).appearance.corner_radius > i64::MIN,
    ensures
        match r {
            EndEditing::Ignored => obj != ui.corner_radius && obj != ui.clipboard_max_entries
                && *final(cfg) == *old(cfg),
            EndEditing::Committed => accepted_for(*ui, obj, typed) matches Some((field, value))
                && *final(cfg) == with_number(*old(cfg), field, value),
            EndEditing::Restored { control, text } => {
                &&& accepted_for(*ui, obj, typed) is None
                &&& *final(cfg) == *old(cfg)
                &&& control == obj
                &&& if obj == ui.corner_radius {
                    text@ == configured_text(*old(cfg), TextField::CornerRadius)
                } else {
                    obj == ui.clipboard_max_entries && text@ == configured_text(
                        *old(cfg),
                        TextField::ClipboardMaxEntries,
                    )
                }
            },
        },
{
    match text_field_of(ui, obj) {
        None => EndEditing::Ignored,
        Some(field) => match parse_text_field(field, typed) {
            Some(value) => {
                write_text_field_config(cfg, field, value);
                EndEditing::Committed
            },
            None => {
                let text = match field {
                    TextField::CornerRadius => length_text(cfg.appearance.corner_radius),
                    TextField::ClipboardMaxEntries => decimal_text(
                        cfg.clipboard.max_entries as u64,
                    ),
                };
                EndEditing::Restored { control: obj, text }
            },
        },
    }
}

/// Whatever is typed, a number that reaches the configuration is within its limits.
pub proof fn typed_numbers_stay_in_their_limits(
    cfg: Config,
    ui: SettingsControls,
    obj: usize,
    typed: TypedNumber,
)
    ensures
        accepted_for(ui, obj, typed) matches Some((field, value)) ==> {
            let after = with_number(cfg, field, value);
            &&& field == TextField::CornerRadius ==> 0 <= after.appearance.corner_radius
                <= CORNER_RADIUS_MAX
            &&& field == TextField::ClipboardMaxEntries ==> 1 <= after.clipboard.max_entries <= 100
        },
{
}

/// A number within its limits is accepted as it is, and no other: a corner radius from 0 to
/// 500 points, 1 to 100 entries. What is no number is not accepted.
pub proof fn limits_decide_what_is_accepted(typed: TypedNumber)
    ensures
        typed.length matches Some(v) ==> (accepted(TextField::CornerRadius, typed) == if 0 <= v
            <= 500_000 {
            Some(TextFieldValue::Length(v))
        } else {
            None
        }),
        typed.length is None ==> accepted(TextField::CornerRadius, typed) is None,
        typed.count matches Some(n) ==> (accepted(TextField::ClipboardMaxEntries, typed) == if 1
            <= n <= 100 {
            Some(TextFieldValue::Count(n as u32))
        } else {
            None
        }),
        typed.count is None ==> accepted(TextField::ClipboardMaxEntries, typed) is None,
{
}

/// A typed number changes the setting of the input that it was typed into, and nothing else
/// of the configuration; an input that is neither changes nothing.
pub proof fn typed_numbers_reach_their_setting(
    cfg: Config,
    ui: SettingsControls,
    obj: usize,
    typed: TypedNumber,
)
    requires
        ui.corner_radius != ui.clipboard_max_entries,
    ensures
        obj != ui.corner_radius && obj != ui.clipboard_max_entries ==> accepted_for(
            ui,
            obj,
            typed,
        ) is None,
        accepted_for(ui, obj, typed) matches Some((field, value)) ==> {
            let after = with_number(cfg, field, value);
            &&& obj == ui.corner_radius ==> typed.length == Some(after.appearance.corner_radius)
                && after.clipboard == cfg.clipboard
            &&& obj == ui.clipboard_max_entries ==> typed.count is Some && typed.count->0
                == after.clipboard.max_entries && after.appearance == cfg.appearance
            &&& after.appearance.theme == cfg.appearance.theme
            &&& after.appearance.glass_style == cfg.appearance.glass_style
            &&& after.appearance.glass_tint == cfg.appearance.glass_tint
            &&& after.clipboard == (ClipboardConfig {
                max_entries: after.clipboard.max_entries,
                ..cfg.clipboard
            })
            &&& after == (Config {
                appearance: after.appearance,
                clipboard: after.clipboard,
                ..cfg
            })
        },
        obj == ui.corner_radius && (typed.length matches Some(v) && 0 <= v <= 500_000)
            ==> accepted_for(ui, obj, typed) is Some,
        obj == ui.clipboard_max_entries && (typed.count matches Some(n) && 1 <= n <= 100)
            ==> accepted_for(ui, obj, typed) is Some,
{
}

/// A length is written in points without a needless zero: whole points have no decimals, and
/// the last decimal is never a zero.
pub proof fn lengths_are_written_short(v: int)
    requires
        v >= 0,
    ensures
        v % 1_000 == 0 ==> length_digits(v) == text::decimal((v / 1_000) as nat),
        v % 1_000 != 0 ==> ({
            let t = length_digits(v);
            let w = text::decimal((v / 1_000) as nat);
            let n = w.len() as int;
            &&& n + 2 <= t.len() <= n + 4
            &&& t.take(n) == w
            &&& t[n] == '.'
            &&& t[n + 1] == text::digit_char(v / 100 % 10)
            &&& t.last() != '0'
            &&& t.len() == n + 3 || t.len() == n + 4 ==> t[n + 2] == text::digit_char(v / 10 % 10)
            &&& t.len() == n + 4 <==> v % 10 != 0
            &&& t.len() == n + 2 <==> v % 100 == 0
            &&& t.len() == n + 4 ==> t[n + 3] == text::digit_char(v % 10)
        }),
        v > 0 ==> length_digits(-v) == seq!['-'] + length_digits(v),
{
    let w = text::decimal((v / 1_000) as nat);
    let rest = v % 1_000;
    assert(rest / 100 == v / 100 % 10);
    assert(rest / 10 % 10 == v / 10 % 10);
    assert(rest % 10 == v % 10);
    if rest == 0 {
        assert(length_digits(v) =~= w);
    } else {
        assert(length_digits(v).take(w.len() as int) =~= w);
    }
    if v > 0 {
        assert(length_digits(-v) =~= seq!['-'] + length_digits(v));
    }
}

/// What is configured is what the input shows.
pub proof fn inputs_show_what_is_configured(cfg: Config)
    ensures
        configured_text(cfg, TextField::ClipboardMaxEntries) == text::decimal(
            cfg.clipboard.max_entries as nat,
        ),
        cfg.appearance.corner_radius >= 0 && cfg.appearance.corner_radius as int % 1_000 == 0
            ==> configured_text(cfg, TextField::CornerRadius) == text::decimal(
            (cfg.appearance.corner_radius as int / 1_000) as nat,
        ),
{
    lengths_are_written_short(
        geometry::max_of(cfg.appearance.corner_radius as int, 0),
    );
}

} // verus!
