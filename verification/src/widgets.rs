//! Switches, sliders, buttons with wrapped titles, and the counter of header clicks.
use vstd::prelude::*;
use vstd::string::*;

use crate::geometry::{ceil_points, clamp_len, half, max_len, min_len, Measure, Rect, LIMIT};
use crate::palette::UiPalette;
use crate::text::{decimal_text, push_two_digits};
#[allow(unused_imports)]
use crate::{geometry, text};

verus! {

pub const HTML_SWITCH_W: i64 = 38_000;

pub const HTML_SWITCH_H: i64 = 22_000;

pub const HTML_SWITCH_KNOB_D: i64 = 18_000;

/// Places a switch at the right edge of the control column, centred in a height.
pub fn make_switch(right_x: i64, y: i64, h: i64) -> (r: Rect)
    requires
        geometry::near(right_x as int),
        geometry::near(y as int),
        geometry::near(h as int),
    ensures
        r.right() == right_x,
        r.y == y + (h - HTML_SWITCH_H) / 2,
        r.w == HTML_SWITCH_W,
        r.h == HTML_SWITCH_H,
{
    Rect::new(right_x - HTML_SWITCH_W, y + half(h - HTML_SWITCH_H), HTML_SWITCH_W, HTML_SWITCH_H)
}

/// The colour of the track of a switch.
pub open spec fn switch_track(palette: UiPalette, on: bool, enabled: bool) -> u32 {
    if on {
        if enabled { palette.accent } else { 0x0A84FF73 }
    } else if enabled {
        if palette.dark { 0x636366FF } else { 0xC7C7CCFF }
    } else {
        if palette.dark { 0x63636673 } else { 0xC7C7CC73 }
    }
}

/// Where the knob of a switch stands: two points from the end of its side.
pub open spec fn knob_x(on: bool) -> int {
    if on { HTML_SWITCH_W - HTML_SWITCH_KNOB_D - 2_000 } else { 2_000 }
}

/// The look of a switch.
#[derive(Clone, Copy, Debug, PartialEq, Eq, Structural)]
pub struct SwitchVisual {
    pub track: u32,
    pub knob_color: u32,
    pub knob: Rect,
    /// The centre of the knob that it glides from, where it changes sides.
    pub glide_from: Option<i64>,
    /// The centre of the knob that it glides to.
    pub glide_to: i64,
}

/// The look of a switch in a state, coming from another state where it just changed.
pub fn html_switch_apply_visual(
    palette: UiPalette,
    state: i64,
    enabled: bool,
    previous_state: Option<i64>,
) -> (r: SwitchVisual)
    ensures
        r.track == switch_track(palette, state != 0, enabled),
        r.knob_color == if palette.dark { 0xF5F5F7F5u32 } else { 0xFFFFFFF5u32 },
        r.knob.x == knob_x(state != 0),
        r.knob.y == 2_000,
        r.knob.w == HTML_SWITCH_KNOB_D,
        r.knob.h == HTML_SWITCH_KNOB_D,
        r.glide_to == knob_x(state != 0) + 9_000,
        match previous_state {
            Some(p) if (p != 0) != (state != 0) => r.glide_from matches Some(x) && x == knob_x(
                p != 0,
            ) + 9_000,
            _ => r.glide_from is None,
        },
{
    let on = state != 0;
    let track = if on {
        if enabled {
            palette.accent
        } else {
            0x0A84FF73
        }
    } else if enabled {
        if palette.dark {
            0x636366FF
        } else {
            0xC7C7CCFF
        }
    } else {
        if palette.dark {
            0x63636673
        } else {
            0xC7C7CC73
        }
    };
    let right = HTML_SWITCH_W - HTML_SWITCH_KNOB_D - 2_000;
    let to_x = if on { right } else { 2_000 };
    let glide_from = match previous_state {
        Some(p) => {
            let from_x = if p != 0 { right } else { 2_000 };
            if from_x != to_x {
                Some(from_x + HTML_SWITCH_KNOB_D / 2)
            } else {
                None
            }
        },
        None => None,
    };
    SwitchVisual {
        track,
        knob_color: if palette.dark { 0xF5F5F7F5 } else { 0xFFFFFFF5 },
        knob: Rect::new(
            to_x,
            (HTML_SWITCH_H - HTML_SWITCH_KNOB_D) / 2,
            HTML_SWITCH_KNOB_D,
            HTML_SWITCH_KNOB_D,
        ),
        glide_from,
        glide_to: to_x + HTML_SWITCH_KNOB_D / 2,
    }
}

/// The state that a change of a switch comes from; nothing where it does not change.
pub fn html_switch_set_state(previous: i64, state: i64) -> (r: Option<i64>)
    ensures
        r == if previous != state {
            Some(previous)
        } else {
            None
        },
{
    if previous != state {
        Some(previous)
    } else {
        None
    }
}

/// The state of a switch after a click; a disabled switch keeps its state and sends
/// nothing.
pub open spec fn switch_clicked(state: int, enabled: bool) -> Option<int> {
    if !enabled { None } else if state == 0 { Some(1) } else { Some(0) }
}

/// The state of a switch after a click.
pub fn html_switch_mouse_down(state: i64, enabled: bool) -> (r: Option<i64>)
    ensures
        match r {
            Some(next) => switch_clicked(state as int, enabled) == Some(next as int),
            None => switch_clicked(state as int, enabled) is None,
        },
{
    if !enabled {
        None
    } else if state == 0 {
        Some(1)
    } else {
        Some(0)
    }
}

/// Two clicks bring a switch back.
pub proof fn two_clicks_restore_a_switch(state: int)
    requires
        state == 0 || state == 1,
    ensures
        switch_clicked(state, true) matches Some(once) && switch_clicked(once, true) == Some(state),
{
}

/// Whether a click on a slider restores its default: a double click does, where there
/// is a default.
pub fn slider_should_reset(click_count: i64, has_default: bool) -> (r: bool)
    ensures
        r == (click_count == 2 && has_default),
{
    click_count == 2 && has_default
}

/// A slider with the value that a double click restores. Values are hundredths.
#[derive(Clone, Copy, Debug, PartialEq, Eq, Structural)]
pub struct SettingsSlider {
    pub value: i64,
    pub default_value: Option<i64>,
}

/// What becomes of a click on a slider.
#[derive(Clone, Copy, Debug, PartialEq, Eq, Structural)]
pub enum SliderClick {
    /// The default was restored, and the change is reported.
    Restored,
    /// The slider handles the click itself.
    PassOn,
}

impl SettingsSlider {
    /// A click on the slider: a double click restores the default.
    pub fn settings_slider_mouse_down(&mut self, click_count: i64) -> (r: SliderClick)
        ensures
            final(self).default_value == old(self).default_value,
            match old(self).default_value {
                Some(d) if click_count == 2 => final(self).value == d && r == SliderClick::Restored,
                _ => final(self).value == old(self).value && r == SliderClick::PassOn,
            },
    {
        if slider_should_reset(click_count, self.default_value.is_some()) {
            if let Some(value) = self.default_value {
                self.value = value;
                return SliderClick::Restored;
            }
        }
        SliderClick::PassOn
    }
}

/// A number of hundredths as text: without decimals where it is whole, else with two.
pub open spec fn slider_text(hundredths: int) -> Seq<char> {
    let size = if hundredths < 0 { -hundredths } else { hundredths };
    let sign: Seq<char> = if hundredths < 0 { seq!['-'] } else { seq![] };
    if size % 100 == 0 {
        sign + text::decimal((size / 100) as nat)
    } else {
        sign + text::decimal((size / 100) as nat) + seq!['.'] + text::two_digits(size % 100)
    }
}

/// The default of a slider as it is shown in its hint.
pub fn settings_slider_display(hundredths: i64) -> (r: String)
    requires
        hundredths > i64::MIN,
    ensures
        r@ == slider_text(hundredths as int),
{
    proof {
        reveal_strlit("-");
        reveal_strlit(".");
        assert("-"@ =~= seq!['-']);
        assert("."@ =~= seq!['.']);
    }
    let size: u64 = if hundredths < 0 { (-hundredths) as u64 } else { hundredths as u64 };
    let mut out = String::new();
    if hundredths < 0 {
        out.append("-");
    }
    let whole = decimal_text(size / 100);
    out.append(whole.as_str());
    if size % 100 != 0 {
        out.append(".");
        push_two_digits(&mut out, (size % 100) as u32);
    }
    assert(out@ =~= slider_text(hundredths as int));
    out
}

/// The height of a button whose title is broken into at most `lines` lines.
pub open spec fn wrapped_button_height(lines: int, single: Measure, measured: Measure) -> int {
    let line = match single {
        Measure::Finite(h) if h > 0 => h as int,
        _ => 17_000,
    };
    let limit = geometry::ceil_points_of(line * geometry::max_of(lines, 1) + 8_000);
    let wanted = match measured {
        Measure::Finite(h) if h > 0 => geometry::ceil_points_of(h + 8_000),
        _ => 30_000,
    };
    geometry::clamp_of(wanted, 30_000, geometry::max_of(limit, 30_000))
}

/// The height of a button with a wrapped title: what the title needs, between 30
/// points and the height of the allowed number of lines. A missing button has the
/// least height.
pub fn configure_settings_button_wrapping(
    button: usize,
    max_lines: usize,
    single_line: Measure,
    measured: Measure,
) -> (r: i64)
    requires
        single_line.valid(),
        measured.valid(),
    ensures
        r == if button == 0 {
            30_000
        } else {
            wrapped_button_height(max_lines as int, single_line, measured)
        },
        r >= 30_000,
{
    if button == 0 {
        return 30_000;
    }
    let line_height = match single_line {
        Measure::Finite(h) => if h > 0 {
            h
        } else {
            17_000
        },
        _ => 17_000,
    };
    let lines: i128 = if max_lines < 1 { 1 } else { max_lines as i128 };
    proof {
        assert(0 < line_height * lines <= 1_000_000_000_000 * 0x1_0000_0000_0000_0000)
            by (nonlinear_arith)
            requires
                0 < line_height <= 1_000_000_000_000,
                1 <= lines <= 0x1_0000_0000_0000_0000,
        ;
    }
    let room = line_height as i128 * lines + 8_000;
    // No title is as high as that, so more room makes no difference.
    let max_height = ceil_points(if room < 2 * LIMIT as i128 { room as i64 } else { 2 * LIMIT });
    let wanted = match measured {
        Measure::Finite(h) => if h > 0 {
            ceil_points(h + 8_000)
        } else {
            30_000
        },
        _ => 30_000,
    };
    clamp_len(wanted, 30_000, max_len(max_height, 30_000))
}

/// The label of a wrapped button: inset from both sides, centred.
pub open spec fn button_label(width: int, height: int, measured: Measure) -> Rect {
    let text_h = match measured {
        Measure::Finite(h) if h > 0 => geometry::min_of(h as int, geometry::max_of(height, 1_000)),
        _ => geometry::max_of(height, 1_000),
    };
    Rect {
        x: 8_000,
        y: (geometry::max_of(height - text_h, 0) / 2) as i64,
        w: geometry::max_of(width - 16_000, 1_000) as i64,
        h: text_h as i64,
    }
}

/// Places the label of a wrapped button.
pub fn center_settings_button_label(width: i64, height: i64, measured: Measure) -> (r: Rect)
    requires
        geometry::in_range(width as int),
        geometry::near(height as int),
    ensures
        r == button_label(width as int, height as int, measured),
{
    let text_h = match measured {
        Measure::Finite(h) => if h > 0 {
            min_len(h, max_len(height, 1_000))
        } else {
            max_len(height, 1_000)
        },
        _ => max_len(height, 1_000),
    };
    Rect::new(8_000, half(max_len(height - text_h, 0)), max_len(width - 16_000, 1_000), text_h)
}

/// Consecutive clicks on the header of the page about the application.
#[derive(Clone, Copy, Debug, PartialEq, Eq, Structural)]
pub struct HeaderClicks {
    pub count: u32,
    /// When the last click came, in milliseconds.
    pub last: Option<u64>,
}

/// Number of clicks in a row that reveal the build number.
pub const REVEAL_CLICKS: u32 = 5;

impl HeaderClicks {
    /// Fewer clicks are remembered than the number that reveals.
    pub open spec fn inv(self) -> bool {
        self.count < REVEAL_CLICKS
    }

    /// The number of clicks in a row, with one at `now`. A click belongs to the row
    /// where the last one is not longer ago than `window`.
    pub open spec fn in_a_row(self, now: int, window: int) -> int {
        match self.last {
            Some(t) if geometry::max_of(now - t, 0) <= window => self.count + 1,
            _ => 1,
        }
    }

    /// Before any click.
    pub open spec fn fresh() -> HeaderClicks {
        HeaderClicks { count: 0, last: None }
    }

    /// Whether a click reveals the build number.
    pub open spec fn reveals(self, now: int, window: int) -> bool {
        self.in_a_row(now, window) >= REVEAL_CLICKS
    }

    /// What is remembered after a click. A revealing click starts over.
    pub open spec fn clicked(self, now: u64, window: int) -> HeaderClicks {
        if self.reveals(now as int, window) {
            HeaderClicks::fresh()
        } else {
            HeaderClicks { count: self.in_a_row(now as int, window) as u32, last: Some(now) }
        }
    }

    /// What is remembered after clicks at the given times.
    pub open spec fn clicked_at(self, times: Seq<u64>, window: int) -> HeaderClicks
        decreases times.len(),
    {
        if times.len() == 0 {
            self
        } else {
            self.clicked_at(times.drop_last(), window).clicked(times.last(), window)
        }
    }

    pub fn new() -> (r: HeaderClicks)
        ensures
            r.inv(),
            r == HeaderClicks::fresh(),
    {
        HeaderClicks { count: 0, last: None }
    }

    /// Counts a click, and tells whether it reveals the build number. A revealing click
    /// starts over.
    pub fn on_about_header_click(&mut self, now: u64, window: u64) -> (r: bool)
        requires
            old(self).inv(),
        ensures
            final(self).inv(),
            r == old(self).reveals(now as int, window as int),
            *final(self) == old(self).clicked(now, window as int),
    {
        let within = match self.last {
            Some(t) => {
                let elapsed = if now >= t { now - t } else { 0 };
                elapsed <= window
            },
            None => false,
        };
        let count = if within { self.count + 1 } else { 1 };
        if count >= REVEAL_CLICKS {
            self.count = 0;
            self.last = None;
            true
        } else {
            self.count = count;
            self.last = Some(now);
            false
        }
    }
}

/// Of clicks that each come soon after the one before, the fifth reveals the build number
/// and none before it does; after it the count starts over.
pub proof fn fifth_quick_click_reveals(times: Seq<u64>, window: int, i: int)
    requires
        0 <= i < times.len(),
        times.len() == REVEAL_CLICKS,
        window >= 0,
        forall|k: int|
            0 <= k < times.len() - 1 ==> (#[trigger] times[k + 1]) - times[k] <= window,
    ensures
        ({
            let before = HeaderClicks::fresh().clicked_at(times.take(i), window);
            &&& before.reveals(times[i] as int, window) <==> i == REVEAL_CLICKS - 1
            &&& i == REVEAL_CLICKS - 1 ==> before.clicked(times[i], window)
                == HeaderClicks::fresh()
        }),
{
    quick_clicks_count(times, window, i);
}

/// So many clicks in a row are remembered as there were.
proof fn quick_clicks_count(times: Seq<u64>, window: int, i: int)
    requires
        0 <= i < times.len(),
        times.len() == REVEAL_CLICKS,
        window >= 0,
        forall|k: int|
            0 <= k < times.len() - 1 ==> (#[trigger] times[k + 1]) - times[k] <= window,
    ensures
        ({
            let before = HeaderClicks::fresh().clicked_at(times.take(i), window);
            &&& before.count == i
            &&& i == 0 ==> before.last is None
            &&& i > 0 ==> before.last == Some(times[i - 1])
            &&& before.in_a_row(times[i] as int, window) == i + 1
        }),
    decreases i,
{
    if i > 0 {
        quick_clicks_count(times, window, i - 1);
        assert(times.take(i).drop_last() =~= times.take(i - 1));
        assert(times.take(i).last() == times[i - 1]);
        assert(times[(i - 1) + 1] - times[i - 1] <= window);
    }
}

/// A click that comes too late begins a new row.
pub proof fn late_click_starts_over(c: HeaderClicks, now: u64, window: int)
    requires
        c.last matches Some(t) && now - t > window,
        window >= 0,
    ensures
        !c.reveals(now as int, window),
        c.clicked(now, window) == (HeaderClicks { count: 1, last: Some(now) }),
{
}

/// The page that a link leads to.
#[derive(Clone, Copy, Debug, PartialEq, Eq, Structural)]
pub enum ExternalLink {
    Website,
    Repository,
}

/// The page that the link with a tag leads to.
pub fn external_link_mouse_down(tag: i64) -> (r: ExternalLink)
    ensures
        r == if tag == 1 {
            ExternalLink::Repository
        } else {
            ExternalLink::Website
        },
{
    if tag == 1 {
        ExternalLink::Repository
    } else {
        ExternalLink::Website
    }
}

/// A click turns a switch over: one that is off is on, and one that is on, in whatever state
/// it says so, is off. A disabled switch does nothing.
pub proof fn clicks_turn_switches_over(state: int)
    ensures
        switch_clicked(0, true) == Some(1int),
        state != 0 ==> switch_clicked(state, true) == Some(0int),
        switch_clicked(state, false) is None,
{
}

/// The knob of a switch stands two points from the left end when it is off, and two points
/// from the right end when it is on.
pub proof fn knobs_stand_at_their_side()
    ensures
        knob_x(false) == 2_000,
        38_000 - (knob_x(true) + 18_000) == 2_000,
{
}

/// The track of a switch has the accent colour only when the switch is on and can be used. A
/// switch that cannot be used has a track that is less than half opaque, and one that is off
/// is grey in both themes.
pub proof fn tracks_tell_the_state(palette: UiPalette, on: bool)
    ensures
        switch_track(palette, true, true) == palette.accent,
        switch_track(palette, on, false) % 0x100 == 0x73,
        switch_track(palette, true, false) == 0x0A84FF73,
        switch_track(palette, false, true) % 0x100 == 0xFF,
        switch_track(palette, false, true) / 0x100 == switch_track(palette, false, false) / 0x100,
        palette.dark ==> switch_track(palette, false, true) == 0x636366FF,
        !palette.dark ==> switch_track(palette, false, true) == 0xC7C7CCFF,
{
}

/// A whole number of hundredths is written without decimals, any other one with two; a
/// negative one is its opposite with a sign before it.
pub proof fn slider_defaults_are_written_short(n: int)
    requires
        n >= 0,
    ensures
        slider_text(100 * n) == text::decimal(n as nat),
        n % 100 != 0 ==> ({
            let t = slider_text(n);
            let w = text::decimal((n / 100) as nat);
            let k = w.len() as int;
            &&& t.len() == k + 3
            &&& t.take(k) == w
            &&& t[k] == '.'
            &&& t[k + 1] == text::digit_char(n / 10 % 10)
            &&& t[k + 2] == text::digit_char(n % 10)
        }),
        n > 0 ==> slider_text(-n) == seq!['-'] + slider_text(n),
{
    assert(100 * n / 100 == n && 100 * n % 100 == 0);
    assert(slider_text(100 * n) =~= text::decimal(n as nat));
    if n % 100 != 0 {
        let w = text::decimal((n / 100) as nat);
        assert(slider_text(n).take(w.len() as int) =~= w);
        assert(n % 100 / 10 == n / 10 % 10);
        assert(n % 100 % 10 == n % 10);
    }
    if n > 0 {
        assert(slider_text(-n) =~= seq!['-'] + slider_text(n));
    }
}

/// A button with a wrapped title is as high as its title and 8 points more, but at least 30
/// points, and no higher than the lines that it may have.
pub proof fn wrapped_buttons_fit_their_titles(lines: int, line: i64, title: i64)
    requires
        0 < line <= geometry::LIMIT,
        0 < title <= geometry::LIMIT,
        1 <= lines <= 1_000,
    ensures
        ({
            let h = wrapped_button_height(lines, Measure::Finite(line), Measure::Finite(title));
            &&& h >= 30_000
            &&& h % 1_000 == 0
            &&& h > 30_000 ==> h < title + 8_000 + 1_000
            &&& 22_000 <= title <= line * lines ==> title + 8_000 <= h
            &&& title <= 22_000 ==> h == 30_000
            &&& line * lines >= 22_000 ==> h < line * lines + 8_000 + 1_000
        }),
        wrapped_button_height(lines, Measure::Finite(line), Measure::Absent) == 30_000,
        wrapped_button_height(0, Measure::Finite(line), Measure::Finite(title))
            == wrapped_button_height(1, Measure::Finite(line), Measure::Finite(title)),
        wrapped_button_height(lines, Measure::Absent, Measure::Finite(title))
            == wrapped_button_height(lines, Measure::Finite(17_000), Measure::Finite(title)),
{
    let x = line as int;
    assert(x * 1 == x) by (nonlinear_arith);
    assert(x <= x * lines) by (nonlinear_arith)
        requires
            1 <= lines,
            0 < x,
    ;
}

/// The label of a wrapped button is inset by 8 points on both sides, centred, and not higher
/// than the button.
pub proof fn button_labels_are_centred(width: int, height: int, text_h: i64)
    requires
        17_000 <= width <= geometry::LIMIT,
        1_000 <= height <= geometry::LIMIT,
        0 < text_h,
    ensures
        ({
            let r = button_label(width, height, Measure::Finite(text_h));
            &&& r.x == 8_000 && r.right() == width - 8_000
            &&& r.h <= height && (text_h <= height ==> r.h == text_h)
            &&& -1 <= r.twice_mid_y() - height <= 0
            &&& button_label(width, height, Measure::Absent).h == height
            &&& button_label(width, height, Measure::Absent).y == 0
        }),
{
}

/// Clicks belong to a row while each comes within the window after the one before; a clock
/// that was set back counts as no time passed. The first click starts the row.
pub proof fn clicks_in_time_belong_together(c: HeaderClicks, now: int, window: int)
    ensures
        c.last is None ==> c.in_a_row(now, window) == 1,
        c.last matches Some(t) ==> {
            &&& now - t <= window && window >= 0 ==> c.in_a_row(now, window) == c.count + 1
            &&& now - t > window && now >= t ==> c.in_a_row(now, window) == 1
        },
        c.reveals(now, window) <==> c.in_a_row(now, window) >= 5,
        HeaderClicks::fresh().count == 0 && HeaderClicks::fresh().last is None,
{
}

} // verus!
