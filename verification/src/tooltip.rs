//! Hints for settings that are greyed out: the bubble, and when it comes and goes.
use std::collections::HashMap;

use vstd::prelude::*;
use vstd::string::*;

use crate::geometry::{clamp_len, half, max_len, Rect};
use crate::palette::UiPalette;
#[allow(unused_imports)]
use crate::geometry;

verus! {

/// Size of a bubble.
pub const BUBBLE_W: i64 = 288_000;

pub const BUBBLE_H: i64 = 66_000;

/// Distance of a bubble from the lower edge of the window.
pub const BUBBLE_BOTTOM: i64 = 74_000;

/// Smallest distance of a bubble from an edge of the window.
pub const BUBBLE_MARGIN: i64 = 8_000;

/// Space for the text of a bubble: its width without padding, icon and gap.
pub const BUBBLE_MAX_TEXT_W: i64 = 220_000;

/// Milliseconds after which a bubble goes away by itself.
pub const BUBBLE_LIFETIME_MS: u64 = 2_500;

/// A bubble is centred near the lower edge of the window, and kept inside it as far
/// as it fits.
pub open spec fn bubble_frame(content: Rect) -> Rect {
    let min_x = content.x + BUBBLE_MARGIN;
    let min_y = content.y + BUBBLE_MARGIN;
    Rect {
        x: geometry::clamp_of(
            content.x + (content.w - BUBBLE_W) / 2,
            min_x,
            geometry::max_of(content.right() - BUBBLE_W - BUBBLE_MARGIN, min_x),
        ) as i64,
        y: geometry::clamp_of(
            content.y + BUBBLE_BOTTOM,
            min_y,
            geometry::max_of(content.top() - BUBBLE_H - BUBBLE_MARGIN, min_y),
        ) as i64,
        w: BUBBLE_W,
        h: BUBBLE_H,
    }
}

/// The width that the text of a bubble gets.
pub open spec fn bubble_text_width(measured: int) -> int {
    geometry::clamp_of(measured, 1_000, BUBBLE_MAX_TEXT_W as int)
}

/// Placement and colours of a bubble and its parts.
#[derive(Clone, Copy, Debug, PartialEq, Eq, Structural)]
pub struct BubblePlan {
    pub frame: Rect,
    /// The round field of the icon, in the bubble.
    pub icon_field: Rect,
    /// The icon, in its field.
    pub icon: Rect,
    pub label: Rect,
    pub background: u32,
    pub border: u32,
    pub icon_tint: u32,
    pub icon_field_color: u32,
    pub text: u32,
    /// A check mark in place of an information sign.
    pub check_mark: bool,
}

/// The colour of the icon of a bubble.
pub open spec fn bubble_tint(palette: UiPalette, success: bool) -> u32 {
    if success {
        if palette.dark { 0x30D158FF } else { 0x34C759FF }
    } else {
        palette.accent
    }
}

/// The colour of the field round the icon: that of the icon, nearly transparent.
pub open spec fn bubble_field(palette: UiPalette, success: bool) -> u32 {
    if success {
        if palette.dark { 0x30D15826 } else { 0x34C75920 }
    } else if palette.dark {
        palette.accent & 0xFFFFFF00 | 0x26
    } else {
        palette.accent & 0xFFFFFF00 | 0x20
    }
}

/// Lays out a bubble in a window for a text of a measured width. Icon and text are
/// centred together.
pub fn show_bubble_in_window(
    content: Rect,
    text_width: i64,
    success: bool,
    palette: UiPalette,
) -> (r: BubblePlan)
    requires
        content.valid(),
        geometry::in_range(text_width as int),
    ensures
        ({
            let text_w = bubble_text_width(text_width as int);
            let group_x = (BUBBLE_W - (40_000 + text_w)) / 2;
            &&& r.frame == bubble_frame(content)
            &&& r.icon_field.x == group_x && r.icon_field.y == 19_000
            &&& r.icon_field.w == 28_000 && r.icon_field.h == 28_000
            &&& r.icon == (Rect { x: 7_000, y: 7_000, w: 14_000, h: 14_000 })
            &&& r.label.x == group_x + 40_000 && r.label.y == 23_000
            &&& r.label.w == text_w && r.label.h == 20_000
        }),
        r.background == if palette.dark { 0x3A3A3FF2u32 } else { 0xF8F8F8F2u32 },
        r.border == if palette.dark { 0xFFFFFF20u32 } else { 0x00000010u32 },
        r.icon_tint == bubble_tint(palette, success),
        r.icon_field_color == bubble_field(palette, success),
        r.text == palette.primary_text,
        r.check_mark == success,
{
    let min_x = content.x + BUBBLE_MARGIN;
    let max_x = max_len(content.x + content.w - BUBBLE_W - BUBBLE_MARGIN, min_x);
    let x = clamp_len(content.x + half(content.w - BUBBLE_W), min_x, max_x);
    let min_y = content.y + BUBBLE_MARGIN;
    let max_y = max_len(content.y + content.h - BUBBLE_H - BUBBLE_MARGIN, min_y);
    let y = clamp_len(content.y + BUBBLE_BOTTOM, min_y, max_y);
    let icon_size: i64 = 28_000;
    let icon_inner: i64 = 14_000;
    let icon_gap: i64 = 12_000;
    let padding: i64 = 28_000;
    let text_w = clamp_len(text_width, 1_000, BUBBLE_W - padding - icon_size - icon_gap);
    let group_w = icon_size + icon_gap + text_w;
    let group_x = max_len(half(BUBBLE_W - group_w), half(padding));
    let icon_tint = if success {
        if palette.dark {
            0x30D158FF
        } else {
            0x34C759FF
        }
    } else {
        palette.accent
    };
    let icon_field_color = if success {
        if palette.dark {
            0x30D15826
        } else {
            0x34C75920
        }
    } else if palette.dark {
        palette.accent & 0xFFFFFF00 | 0x26
    } else {
        palette.accent & 0xFFFFFF00 | 0x20
    };
    BubblePlan {
        frame: Rect::new(x, y, BUBBLE_W, BUBBLE_H),
        icon_field: Rect::new(group_x, half(BUBBLE_H - icon_size), icon_size, icon_size),
        icon: Rect::new(
            half(icon_size - icon_inner),
            half(icon_size - icon_inner),
            icon_inner,
            icon_inner,
        ),
        label: Rect::new(group_x + icon_size + icon_gap, half(BUBBLE_H - 20_000), text_w, 20_000),
        background: if palette.dark { 0x3A3A3FF2 } else { 0xF8F8F8F2 },
        border: if palette.dark { 0xFFFFFF20 } else { 0x00000010 },
        icon_tint,
        icon_field_color,
        text: palette.primary_text,
        check_mark: success,
    }
}

/// In a window that is large enough the bubble keeps the margin to every edge.
pub proof fn bubble_stays_in_the_window(content: Rect)
    requires
        content.valid(),
        content.w >= BUBBLE_W + 2 * BUBBLE_MARGIN,
        content.h >= BUBBLE_H + 2 * BUBBLE_MARGIN,
    ensures
        ({
            let b = bubble_frame(content);
            &&& content.x + BUBBLE_MARGIN <= b.x
            &&& b.right() <= content.right() - BUBBLE_MARGIN
            &&& content.y + BUBBLE_MARGIN <= b.y
            &&& b.top() <= content.top() - BUBBLE_MARGIN
        }),
{
}

/// However long the text, icon and text keep their padding inside the bubble.
pub proof fn bubble_text_stays_inside(measured: int)
    ensures
        ({
            let text_w = bubble_text_width(measured);
            let group_x = (BUBBLE_W - (40_000 + text_w)) / 2;
            &&& 14_000 <= group_x
            &&& group_x + 40_000 + text_w <= BUBBLE_W - 14_000
        }),
{
}

/// How a bubble comes up: it fades in, rises to its place and grows to its full size, all
/// in the same time. It starts as far below its place as it rises, and with the given
/// scale. Scale is given in hundredths, opacity in percent.
#[derive(Clone, Copy, Debug, PartialEq, Eq, Structural)]
pub struct BubbleEntry {
    pub duration_ms: u64,
    pub rise: i64,
    pub scale: u32,
    pub from_opacity: u32,
    pub to_opacity: u32,
}

/// How a bubble comes up; nothing where it is shown at once, because it cannot be
/// animated or motion is to be reduced.
pub fn bubble_entry(has_layer: bool, reduce_motion: bool) -> (r: Option<BubbleEntry>)
    ensures
        r == if has_layer && !reduce_motion {
            Some(
                BubbleEntry {
                    duration_ms: 400,
                    rise: 22_000,
                    scale: 96,
                    from_opacity: 0,
                    to_opacity: 100,
                },
            )
        } else {
            None
        },
{
    if !has_layer || reduce_motion {
        return None;
    }
    Some(
        BubbleEntry {
            duration_ms: 400,
            rise: 22_000,
            scale: 96,
            from_opacity: 0,
            to_opacity: 100,
        },
    )
}

/// How a bubble goes away: it fades, moves to the side and shrinks, and is taken away
/// afterwards. Scale is given in hundredths.
#[derive(Clone, Copy, Debug, PartialEq, Eq, Structural)]
pub struct BubbleExit {
    pub fade_ms: u64,
    pub offset: i64,
    pub scale: u32,
    pub move_ms: u64,
}

/// How a bubble goes away; nothing where it is taken away at once, because it cannot be
/// animated or motion is to be reduced.
pub fn bubble_exit(has_layer: bool, reduce_motion: bool) -> (r: Option<BubbleExit>)
    ensures
        r == if has_layer && !reduce_motion {
            Some(BubbleExit { fade_ms: 140, offset: 32_000, scale: 96, move_ms: 180 })
        } else {
            None
        },
{
    if !has_layer || reduce_motion {
        return None;
    }
    Some(BubbleExit { fade_ms: 140, offset: 32_000, scale: 96, move_ms: 180 })
}

/// Whether the pointer over a greyed-out view shows that nothing can be done there.
pub fn disabled_cursor_mouse_entered(view: usize, reports_enabled: bool, is_enabled: bool) -> (r:
    bool)
    ensures
        r == (view != 0 && !(reports_enabled && is_enabled)),
{
    if view == 0 {
        false
    } else if reports_enabled {
        !is_enabled
    } else {
        true
    }
}

/// Work for the owner of the views.
#[derive(Clone, Copy, Debug, PartialEq, Eq, Structural)]
pub enum TooltipEffect {
    InvalidateTimer { timer: usize },
    /// Let a bubble go away, with its animation.
    DismissBubble { bubble: usize },
    /// Take a bubble away at once.
    RemoveBubble { bubble: usize },
    /// Follow the pointer over a view.
    AddTracking { view: usize },
    /// Stop following the pointer over a view, and show the usual pointer again.
    RemoveTracking { view: usize, area: usize },
}

/// The hints of the greyed-out views, and the bubble that is shown.
pub struct SettingsTooltip {
    /// The area in which the pointer is followed, for each greyed-out view.
    pub areas: HashMap<usize, usize>,
    /// The hint of each greyed-out view.
    pub hints: HashMap<usize, String>,
    pub bubble: Option<usize>,
    /// The timer that ends the bubble.
    pub timer: Option<usize>,
}

/// What the hints are.
#[verifier::ext_equal]
pub struct TooltipModel {
    pub areas: Map<usize, usize>,
    pub hints: Map<usize, Seq<char>>,
    pub bubble: Option<usize>,
    pub timer: Option<usize>,
}

impl View for SettingsTooltip {
    type V = TooltipModel;

    open spec fn view(&self) -> TooltipModel {
        TooltipModel {
            areas: self.areas@,
            hints: self.hints@.map_values(|s: String| s@),
            bubble: self.bubble,
            timer: self.timer,
        }
    }
}

impl TooltipModel {
    /// Without bubble and timer.
    pub open spec fn quiet(self) -> TooltipModel {
        TooltipModel { bubble: None, timer: None, ..self }
    }

    /// The timer goes first, then the bubble.
    pub open spec fn hide_effects(self) -> Seq<TooltipEffect> {
        let timer: Seq<TooltipEffect> = match self.timer {
            Some(timer) => seq![TooltipEffect::InvalidateTimer { timer }],
            None => seq![],
        };
        let bubble: Seq<TooltipEffect> = match self.bubble {
            Some(bubble) => seq![TooltipEffect::DismissBubble { bubble }],
            None => seq![],
        };
        timer + bubble
    }

    /// The hints after a view was enabled or greyed out.
    pub open spec fn applied(
        self,
        view: usize,
        enabled: bool,
        hint: Option<Seq<char>>,
    ) -> TooltipModel {
        if view == 0 {
            self
        } else if enabled {
            TooltipModel {
                areas: self.areas.remove(view),
                hints: self.hints.remove(view),
                ..self.quiet()
            }
        } else {
            TooltipModel {
                hints: match hint {
                    Some(text) => self.hints.insert(view, text),
                    None => self.hints.remove(view),
                },
                ..self
            }
        }
    }

    pub open spec fn apply_effects(self, view: usize, enabled: bool) -> Seq<TooltipEffect> {
        if view == 0 {
            seq![]
        } else if enabled {
            if self.areas.contains_key(view) {
                self.hide_effects().push(
                    TooltipEffect::RemoveTracking { view, area: self.areas[view] },
                )
            } else {
                self.hide_effects()
            }
        } else if self.areas.contains_key(view) {
            seq![]
        } else {
            seq![TooltipEffect::AddTracking { view }]
        }
    }
}

impl SettingsTooltip {
    pub fn new() -> (r: SettingsTooltip)
        ensures
            r@.areas == Map::<usize, usize>::empty(),
            r@.hints == Map::<usize, Seq<char>>::empty(),
            r@.bubble is None,
            r@.timer is None,
    {
        broadcast use vstd::std_specs::hash::group_hash_axioms;

        let r = SettingsTooltip {
            areas: HashMap::new(),
            hints: HashMap::new(),
            bubble: None,
            timer: None,
        };
        assert(r@.hints =~= Map::<usize, Seq<char>>::empty());
        r
    }

    /// Ends the bubble that is shown.
    pub fn hide_bubble(&mut self) -> (r: Vec<TooltipEffect>)
        ensures
            final(self)@ == old(self)@.quiet(),
            r@ == old(self)@.hide_effects(),
    {
        let mut effects: Vec<TooltipEffect> = Vec::new();
        let timer = self.timer.take();
        if let Some(timer) = timer {
            effects.push(TooltipEffect::InvalidateTimer { timer });
        }
        let bubble = self.bubble.take();
        if let Some(bubble) = bubble {
            effects.push(TooltipEffect::DismissBubble { bubble });
        }
        assert(effects@ =~= old(self)@.hide_effects());
        effects
    }

    /// A timer has run out; only the current one ends the bubble.
    pub fn tooltip_timeout(&mut self, timer: usize) -> (r: Option<TooltipEffect>)
        ensures
            old(self)@.timer == Some(timer) ==> {
                &&& final(self)@ == old(self)@.quiet()
                &&& r == match old(self)@.bubble {
                    Some(bubble) => Some(TooltipEffect::DismissBubble { bubble }),
                    None => None,
                }
            },
            old(self)@.timer != Some(timer) ==> final(self)@ == old(self)@ && r is None,
    {
        if self.timer == Some(timer) {
            self.timer = None;
            let bubble = self.bubble.take();
            match bubble {
                Some(bubble) => Some(TooltipEffect::DismissBubble { bubble }),
                None => None,
            }
        } else {
            None
        }
    }

    /// Makes room for a new bubble in a window with a content view; tells whether one
    /// is to be shown. A missing window or an empty text changes nothing.
    pub fn begin_bubble(&mut self, has_window: bool, text: &str, has_content: bool) -> (r: (
        Vec<TooltipEffect>,
        bool,
    ))
        ensures
            ({
                let wanted = has_window && text@.len() > 0;
                &&& final(self)@ == if wanted {
                    old(self)@.quiet()
                } else {
                    old(self)@
                }
                &&& r.0@ == if wanted {
                    old(self)@.hide_effects()
                } else {
                    seq![]
                }
                &&& r.1 == (wanted && has_content)
            }),
    {
        if !has_window || text.unicode_len() == 0 {
            return (Vec::new(), false);
        }
        (self.hide_bubble(), has_content)
    }

    /// Records the bubble that is now shown and its timer.
    pub fn bubble_shown(&mut self, bubble: usize, timer: usize)
        ensures
            final(self)@ == (TooltipModel {
                bubble: Some(bubble),
                timer: Some(timer),
                ..old(self)@
            }),
    {
        self.bubble = Some(bubble);
        self.timer = Some(timer);
    }

    /// Records the area in which the pointer is followed over a view.
    pub fn tracking_added(&mut self, view: usize, area: usize)
        ensures
            final(self)@ == (TooltipModel {
                areas: old(self)@.areas.insert(view, area),
                ..old(self)@
            }),
    {
        broadcast use vstd::std_specs::hash::group_hash_axioms;

        self.areas.insert(view, area);
    }

    /// A view was enabled or greyed out: a greyed-out one is watched and keeps its
    /// hint, an enabled one has neither, and ends the bubble.
    pub fn apply(&mut self, view: usize, enabled: bool, hint: Option<&str>) -> (r: Vec<
        TooltipEffect,
    >)
        ensures
            final(self)@ == old(self)@.applied(
                view,
                enabled,
                match hint {
                    Some(text) => Some(text@),
                    None => None,
                },
            ),
            r@ == old(self)@.apply_effects(view, enabled),
    {
        broadcast use vstd::std_specs::hash::group_hash_axioms;

        let mut effects: Vec<TooltipEffect> = Vec::new();
        if view == 0 {
            return effects;
        }
        if enabled {
            effects = self.hide_bubble();
            let removed = self.areas.remove(&view);
            if let Some(area) = removed {
                effects.push(TooltipEffect::RemoveTracking { view, area });
            }
            self.hints.remove(&view);
            assert(self@.areas =~= old(self)@.areas.remove(view));
            assert(self@.hints =~= old(self)@.hints.remove(view));
        } else {
            if !self.areas.contains_key(&view) {
                effects.push(TooltipEffect::AddTracking { view });
            }
            match hint {
                Some(text) => {
                    self.hints.insert(view, text.to_owned());
                    assert(self@.hints =~= old(self)@.hints.insert(view, text@));
                },
                None => {
                    self.hints.remove(&view);
                    assert(self@.hints =~= old(self)@.hints.remove(view));
                },
            }
        }
        effects
    }

    /// The hint of a view.
    pub fn hint_of(&self, view: usize) -> (r: Option<String>)
        ensures
            match r {
                Some(text) => self@.hints.contains_key(view) && text@ == self@.hints[view],
                None => !self@.hints.contains_key(view),
            },
    {
        broadcast use vstd::std_specs::hash::group_hash_axioms;

        match self.hints.get(&view) {
            Some(text) => Some(text.clone()),
            None => None,
        }
    }

    /// Drops what is remembered about a view that is about to go away.
    pub fn forget(&mut self, view: usize)
        ensures
            final(self)@ == (TooltipModel {
                areas: old(self)@.areas.remove(view),
                hints: old(self)@.hints.remove(view),
                ..old(self)@
            }),
    {
        broadcast use vstd::std_specs::hash::group_hash_axioms;

        self.areas.remove(&view);
        self.hints.remove(&view);
        assert(self@.areas =~= old(self)@.areas.remove(view));
        assert(self@.hints =~= old(self)@.hints.remove(view));
    }

    /// Drops everything before the window goes away.
    pub fn clear_runtime_registries(&mut self) -> (r: Vec<TooltipEffect>)
        ensures
            final(self)@.areas == Map::<usize, usize>::empty(),
            final(self)@.hints == Map::<usize, Seq<char>>::empty(),
            final(self)@.bubble is None,
            final(self)@.timer is None,
            r@ == (match old(self)@.timer {
                Some(timer) => seq![TooltipEffect::InvalidateTimer { timer }],
                None => seq![],
            }) + (match old(self)@.bubble {
                Some(bubble) => seq![TooltipEffect::RemoveBubble { bubble }],
                None => seq![],
            }),
    {
        broadcast use vstd::std_specs::hash::group_hash_axioms;

        let mut effects: Vec<TooltipEffect> = Vec::new();
        let timer = self.timer.take();
        if let Some(timer) = timer {
            effects.push(TooltipEffect::InvalidateTimer { timer });
        }
        let bubble = self.bubble.take();
        if let Some(bubble) = bubble {
            effects.push(TooltipEffect::RemoveBubble { bubble });
        }
        self.areas.clear();
        self.hints.clear();
        assert(self@.hints =~= Map::<usize, Seq<char>>::empty());
        effects
    }
}

/// A view with a hint, as a click finds it.
#[derive(Clone, Copy, Debug, PartialEq, Eq, Structural)]
pub struct HintCandidate {
    pub view: usize,
    /// The view is in the window that was clicked.
    pub in_window: bool,
    /// The view or something round it is hidden.
    pub hidden: bool,
    /// The view says that it is enabled.
    pub enabled: bool,
}

/// Whether a click that hits a chain of views, from the innermost out, is answered
/// with the hint of a view.
pub open spec fn answers(c: HintCandidate, hit: Seq<usize>) -> bool {
    c.in_window && !c.hidden && hit.contains(c.view) && !c.enabled
}

/// What a click does to the bubble.
#[derive(Clone, Copy, Debug, PartialEq, Eq, Structural)]
pub enum HintClick {
    /// The hint of a view is shown.
    Show { view: usize },
    /// The bubble goes away.
    Hide,
}

/// Decides what a click in the window does: on a greyed-out view it shows that view's
/// hint, anywhere else it hides the bubble.
pub fn handle_mouse_down(candidates: &Vec<HintCandidate>, hit: &Vec<usize>) -> (r: HintClick)
    ensures
        match r {
            HintClick::Show { view } => exists|i: int|
                0 <= i < candidates@.len() && answers(#[trigger] candidates@[i], hit@)
                    && candidates@[i].view == view && forall|j: int|
                    0 <= j < i ==> !answers(#[trigger] candidates@[j], hit@),
            HintClick::Hide => forall|i: int|
                0 <= i < candidates@.len() ==> !answers(#[trigger] candidates@[i], hit@),
        },
{
    let mut i: usize = 0;
    while i < candidates.len()
        invariant
            i <= candidates@.len(),
            forall|k: int| 0 <= k < i ==> !answers(#[trigger] candidates@[k], hit@),
        decreases candidates@.len() - i,
    {
        let c = candidates[i];
        if c.in_window && !c.hidden && !c.enabled {
            let mut j: usize = 0;
            while j < hit.len()
                invariant
                    i < candidates@.len(),
                    c == candidates@[i as int],
                    c.in_window && !c.hidden && !c.enabled,
                    j <= hit@.len(),
                    forall|k: int| 0 <= k < j ==> hit@[k] != c.view,
                    forall|k: int| 0 <= k < i ==> !answers(#[trigger] candidates@[k], hit@),
                decreases hit@.len() - j,
            {
                if hit[j] == c.view {
                    assert(hit@.contains(c.view));
                    assert(answers(candidates@[i as int], hit@));
                    return HintClick::Show { view: c.view };
                }
                j += 1;
            }
        }
        i += 1;
    }
    HintClick::Hide
}

/// A view that is enabled again has no hint, no watched area and leaves no bubble.
pub proof fn enabling_clears_the_hint(m: TooltipModel, view: usize, hint: Option<Seq<char>>)
    requires
        view != 0,
    ensures
        !m.applied(view, true, hint).hints.contains_key(view),
        !m.applied(view, true, hint).areas.contains_key(view),
        m.applied(view, true, hint).bubble is None,
        m.applied(view, true, hint).timer is None,
{
}

/// Enabling or greying out one view leaves the hints of all others alone.
pub proof fn hints_of_other_views_stay(
    m: TooltipModel,
    view: usize,
    enabled: bool,
    hint: Option<Seq<char>>,
    other: usize,
)
    requires
        other != view,
    ensures
        m.applied(view, enabled, hint).hints.contains_key(other) == m.hints.contains_key(other),
        m.hints.contains_key(other) ==> m.applied(view, enabled, hint).hints[other]
            == m.hints[other],
{
}

/// In a window that is wide and high enough, a bubble is centred across it, 74 points above
/// its lower edge, and always 288 by 66 points large. A window that is too narrow keeps the
/// left end of the bubble in sight, and one that is too low its lower end.
pub proof fn bubbles_are_centred_at_the_bottom(content: Rect)
    requires
        content.valid(),
    ensures
        ({
            let b = bubble_frame(content);
            &&& b.w == 288_000 && b.h == 66_000
            &&& content.w >= 304_000 ==> -1 <= (2 * b.x + b.w) - (2 * content.x + content.w) <= 0
            &&& content.w < 304_000 ==> b.x == content.x + 8_000
            &&& content.h >= 148_000 ==> b.y == content.y + 74_000
            &&& content.h < 82_000 ==> b.y == content.y + 8_000
        }),
        BUBBLE_LIFETIME_MS == 2_500,
{
}

/// The text gets the width that it has, up to 220 points.
pub proof fn bubble_texts_get_their_width(measured: int)
    ensures
        1_000 <= measured <= 220_000 ==> bubble_text_width(measured) == measured,
        measured > 220_000 ==> bubble_text_width(measured) == 220_000,
        measured < 1_000 ==> bubble_text_width(measured) == 1_000,
{
}

/// Success is green and opaque in both themes, anything else has the accent colour. The field
/// round the icon has the same colour, all but transparent.
pub proof fn bubble_colors_tell_success(palette: UiPalette, success: bool)
    ensures
        success && palette.dark ==> bubble_tint(palette, success) == 0x30D158FF,
        success && !palette.dark ==> bubble_tint(palette, success) == 0x34C759FF,
        !success ==> bubble_tint(palette, success) == palette.accent,
        bubble_field(palette, success) & 0xFFFF_FF00 == bubble_tint(palette, success)
            & 0xFFFF_FF00,
        bubble_field(palette, success) & 0xFF == if palette.dark { 0x26u32 } else { 0x20u32 },
{
    let a = palette.accent;
    assert((a & 0xFFFFFF00u32 | 0x26u32) & 0xFFFF_FF00u32 == a & 0xFFFF_FF00u32) by (bit_vector);
    assert((a & 0xFFFFFF00u32 | 0x20u32) & 0xFFFF_FF00u32 == a & 0xFFFF_FF00u32) by (bit_vector);
    assert((a & 0xFFFFFF00u32 | 0x26u32) & 0xFFu32 == 0x26u32) by (bit_vector);
    assert((a & 0xFFFFFF00u32 | 0x20u32) & 0xFFu32 == 0x20u32) by (bit_vector);
    assert(0x30D15826u32 & 0xFFFF_FF00u32 == 0x30D158FFu32 & 0xFFFF_FF00u32) by (bit_vector);
    assert(0x34C75920u32 & 0xFFFF_FF00u32 == 0x34C759FFu32 & 0xFFFF_FF00u32) by (bit_vector);
    assert(0x30D15826u32 & 0xFFu32 == 0x26u32) by (bit_vector);
    assert(0x34C75920u32 & 0xFFu32 == 0x20u32) by (bit_vector);
}

/// Hiding lets go of the timer and of the bubble, where there are any, in that order, and of
/// nothing else; what is already quiet has nothing to hide.
pub proof fn hiding_lets_go_of_both(m: TooltipModel)
    ensures
        m.quiet().bubble is None && m.quiet().timer is None,
        m.quiet().hints == m.hints && m.quiet().areas == m.areas,
        m.quiet().hide_effects().len() == 0,
        m.timer matches Some(timer) ==> m.hide_effects()[0] == (TooltipEffect::InvalidateTimer {
            timer,
        }),
        m.bubble matches Some(bubble) ==> m.hide_effects().last() == (
        TooltipEffect::DismissBubble { bubble }),
        m.hide_effects().len() == (if m.timer is Some { 1nat } else { 0 }) + (if m.bubble is Some {
            1nat
        } else {
            0
        }),
{
}

/// A greyed-out view has the hint that was last given for it, or none, and is followed by the
/// pointer exactly once; the bubble stays. A missing view changes nothing.
pub proof fn greyed_out_views_keep_their_hint(
    m: TooltipModel,
    view: usize,
    hint: Option<Seq<char>>,
)
    ensures
        m.applied(0, false, hint) == m && m.applied(0, true, hint) == m,
        m.apply_effects(0, false).len() == 0 && m.apply_effects(0, true).len() == 0,
        view != 0 ==> {
            let after = m.applied(view, false, hint);
            &&& hint matches Some(text) ==> after.hints.contains_key(view) && after.hints[view]
                == text
            &&& hint is None ==> !after.hints.contains_key(view)
            &&& after.bubble == m.bubble && after.timer == m.timer && after.areas == m.areas
            &&& m.areas.contains_key(view) ==> m.apply_effects(view, false).len() == 0
            &&& !m.areas.contains_key(view) ==> m.apply_effects(view, false) == seq![
                TooltipEffect::AddTracking { view },
            ]
        },
{
}

/// A view that is enabled is no longer followed, where it was, once the bubble is gone.
pub proof fn enabled_views_are_not_followed(m: TooltipModel, view: usize)
    requires
        view != 0,
    ensures
        m.areas.contains_key(view) ==> {
            let effects = m.apply_effects(view, true);
            &&& effects.len() == m.hide_effects().len() + 1
            &&& effects.last() == (TooltipEffect::RemoveTracking { view, area: m.areas[view] })
            &&& effects.drop_last() == m.hide_effects()
        },
        !m.areas.contains_key(view) ==> m.apply_effects(view, true) == m.hide_effects(),
{
    if m.areas.contains_key(view) {
        assert(m.apply_effects(view, true).drop_last() =~= m.hide_effects());
    }
}

/// A click is answered by a greyed-out view that it hits: the view is in the window, is shown,
/// and is not enabled.
pub proof fn only_visible_greyed_out_views_answer(c: HintCandidate, hit: Seq<usize>)
    ensures
        answers(c, hit) ==> c.in_window && !c.hidden && !c.enabled && hit.contains(c.view),
        !c.in_window ==> !answers(c, hit),
        c.in_window && !c.hidden && !c.enabled && hit.len() > 0 && hit[0] == c.view ==> answers(
            c,
            hit,
        ),
{
}

} // verus!
