//! The navigation sidebar: its frames, and the highlight that follows the pointer.
use vstd::prelude::*;

use crate::geometry::{ceil_points, half, max_len, rect_contains_point, Measure, Point, Rect, Size};
use crate::palette::{settings_text_color, SettingsTextRole, UiPalette};
#[allow(unused_imports)]
use crate::{geometry, palette};

verus! {

/// The pages of the settings window, each with an icon in the sidebar.
#[derive(Clone, Copy, Debug, PartialEq, Eq, Structural)]
pub enum SettingsSidebarIcon {
    General,
    Switcher,
    Mouse,
    Clipboard,
    WindowControl,
    QuickActions,
    About,
}

/// The name of the symbol of a page.
pub open spec fn icon_symbol(icon: SettingsSidebarIcon) -> Seq<char> {
    match icon {
        SettingsSidebarIcon::General => "gearshape"@,
        SettingsSidebarIcon::Switcher => "rectangle.on.rectangle"@,
        SettingsSidebarIcon::Mouse => "computermouse"@,
        SettingsSidebarIcon::Clipboard => "doc.text"@,
        SettingsSidebarIcon::WindowControl => "rectangle.split.2x2"@,
        SettingsSidebarIcon::QuickActions => "bolt.circle"@,
        SettingsSidebarIcon::About => "info.circle"@,
    }
}

/// The key of the title of a page.
pub open spec fn icon_title_key(icon: SettingsSidebarIcon) -> Seq<char> {
    match icon {
        SettingsSidebarIcon::General => "settings.sidebar_general"@,
        SettingsSidebarIcon::Switcher => "settings.sidebar_switcher"@,
        SettingsSidebarIcon::Mouse => "settings.sidebar_mouse"@,
        SettingsSidebarIcon::Clipboard => "settings.sidebar_clipboard"@,
        SettingsSidebarIcon::WindowControl => "settings.sidebar_window_control"@,
        SettingsSidebarIcon::QuickActions => "settings.sidebar_quick_actions"@,
        SettingsSidebarIcon::About => "settings.sidebar_about"@,
    }
}

/// The page with the given number, from the top of the sidebar.
pub open spec fn page_icon(i: int) -> SettingsSidebarIcon {
    if i == 0 {
        SettingsSidebarIcon::General
    } else if i == 1 {
        SettingsSidebarIcon::Switcher
    } else if i == 2 {
        SettingsSidebarIcon::Mouse
    } else if i == 3 {
        SettingsSidebarIcon::Clipboard
    } else if i == 4 {
        SettingsSidebarIcon::WindowControl
    } else if i == 5 {
        SettingsSidebarIcon::QuickActions
    } else {
        SettingsSidebarIcon::About
    }
}

impl SettingsSidebarIcon {
    /// The name of the symbol of a page.
    pub fn symbol_name(self) -> (r: &'static str)
        ensures
            r@ == icon_symbol(self),
    {
        match self {
            SettingsSidebarIcon::General => "gearshape",
            SettingsSidebarIcon::Switcher => "rectangle.on.rectangle",
            SettingsSidebarIcon::Mouse => "computermouse",
            SettingsSidebarIcon::Clipboard => "doc.text",
            SettingsSidebarIcon::WindowControl => "rectangle.split.2x2",
            SettingsSidebarIcon::QuickActions => "bolt.circle",
            SettingsSidebarIcon::About => "info.circle",
        }
    }

    /// The key of the title of a page.
    pub fn title_key(self) -> (r: &'static str)
        ensures
            r@ == icon_title_key(self),
    {
        match self {
            SettingsSidebarIcon::General => "settings.sidebar_general",
            SettingsSidebarIcon::Switcher => "settings.sidebar_switcher",
            SettingsSidebarIcon::Mouse => "settings.sidebar_mouse",
            SettingsSidebarIcon::Clipboard => "settings.sidebar_clipboard",
            SettingsSidebarIcon::WindowControl => "settings.sidebar_window_control",
            SettingsSidebarIcon::QuickActions => "settings.sidebar_quick_actions",
            SettingsSidebarIcon::About => "settings.sidebar_about",
        }
    }
}

/// Height of a sidebar row with one line of text.
pub const SIDEBAR_ROW_H: i64 = 38_000;

/// Distance from one sidebar row to the next.
pub const SIDEBAR_ROW_STEP: i64 = 42_000;

/// The icon and the label of a sidebar row of the given width.
pub fn sidebar_item_frames(w: i64) -> (r: (Rect, Rect))
    requires
        geometry::in_range(w as int),
    ensures
        r.0 == (Rect { x: 16_000, y: 10_000, w: 18_000, h: 18_000 }),
        r.1 == (Rect {
            x: 46_000,
            y: 0,
            w: geometry::max_of(w - 54_000, 1_000) as i64,
            h: SIDEBAR_ROW_H,
        }),
        r.0.twice_mid_y() == r.1.twice_mid_y(),
{
    let icon_size: i64 = 18_000;
    let label_x: i64 = 46_000;
    (
        Rect::new(16_000, half(SIDEBAR_ROW_H - icon_size), icon_size, icon_size),
        Rect::new(label_x, 0, max_len(w - label_x - 8_000, 1_000), SIDEBAR_ROW_H),
    )
}

/// One row of the sidebar.
#[derive(Clone, Copy, Debug, PartialEq, Eq, Structural)]
pub struct SidebarRow {
    pub icon: SettingsSidebarIcon,
    pub frame: Rect,
}

pub open spec fn sidebar_row(x: int, y0: int, w: int, row_h: int, i: int) -> SidebarRow {
    SidebarRow {
        icon: page_icon(i),
        frame: Rect {
            x: x as i64,
            y: (y0 - i * SIDEBAR_ROW_STEP) as i64,
            w: w as i64,
            h: row_h as i64,
        },
    }
}

/// The sidebar as a component.
pub struct SettingsSidebar;

impl SettingsSidebar {
    /// The rows of the sidebar, first to last, downwards from the first one.
    pub fn build(x: i64, y0: i64, w: i64, row_h: i64) -> (r: Vec<SidebarRow>)
        requires
            geometry::near(y0 as int),
        ensures
            r@ == Seq::new(
                7,
                |i: int| sidebar_row(x as int, y0 as int, w as int, row_h as int, i),
            ),
    {
        let icons = [
            SettingsSidebarIcon::General,
            SettingsSidebarIcon::Switcher,
            SettingsSidebarIcon::Mouse,
            SettingsSidebarIcon::Clipboard,
            SettingsSidebarIcon::WindowControl,
            SettingsSidebarIcon::QuickActions,
            SettingsSidebarIcon::About,
        ];
        let mut rows: Vec<SidebarRow> = Vec::new();
        let mut i: usize = 0;
        while i < 7
            invariant
                i <= 7,
                geometry::near(y0 as int),
                icons@.len() == 7,
                forall|k: int| 0 <= k < 7 ==> #[trigger] icons@[k] == page_icon(k),
                rows@ =~= Seq::new(
                    i as nat,
                    |k: int| sidebar_row(x as int, y0 as int, w as int, row_h as int, k),
                ),
            decreases 7 - i,
        {
            rows.push(
                SidebarRow {
                    icon: icons[i],
                    frame: Rect::new(x, y0 - (i as i64) * SIDEBAR_ROW_STEP, w, row_h),
                },
            );
            i += 1;
        }
        rows
    }
}

/// Rows that are not higher than the step between them do not overlap.
pub proof fn sidebar_rows_are_disjoint(x: int, y0: int, w: int, row_h: int, i: int, j: int)
    requires
        geometry::near(y0),
        0 <= row_h <= SIDEBAR_ROW_STEP,
        0 <= i < j < 7,
    ensures
        sidebar_row(x, y0, w, row_h, j).frame.top() <= sidebar_row(x, y0, w, row_h, i).frame.y,
{
}

/// The area in which the pointer counts as being in the sidebar, from the bottom of the
/// last row to the top of the first.
pub open spec fn tracking_area(x: int, y0: int, w: int, row_h: int) -> Rect {
    let last = sidebar_row(x, y0, w, row_h, 6).frame;
    Rect { h: (6 * SIDEBAR_ROW_STEP + row_h) as i64, ..last }
}

/// The area in which the pointer counts as being in the sidebar.
pub fn sidebar_tracking_rect(x: i64, y0: i64, w: i64, row_h: i64) -> (r: Rect)
    requires
        geometry::near(y0 as int),
        geometry::in_range(row_h as int),
    ensures
        r == tracking_area(x as int, y0 as int, w as int, row_h as int),
{
    let rise = 6 * SIDEBAR_ROW_STEP;
    Rect::new(x, y0 - rise, w, rise + row_h)
}

/// No row of the sidebar lies outside the area in which the pointer is followed.
pub proof fn every_row_is_tracked(x: i64, y0: int, w: i64, row_h: int, i: int)
    requires
        geometry::near(y0),
        geometry::in_range(row_h),
        row_h >= 0,
        0 <= i < 7,
    ensures
        ({
            let area = tracking_area(x as int, y0, w as int, row_h);
            let row = sidebar_row(x as int, y0, w as int, row_h, i).frame;
            &&& area.x == row.x && area.w == row.w
            &&& area.y <= row.y && row.top() <= area.top()
        }),
{
}

/// The number that a sidebar row hands on names the page of its icon, and no other.
pub proof fn page_icons_are_distinct(i: int, j: int)
    requires
        0 <= i < 7,
        0 <= j < 7,
        page_icon(i) == page_icon(j),
    ensures
        i == j,
{
}

/// Size of the sidebar within the window.
#[derive(Clone, Copy, Debug, PartialEq, Eq, Structural)]
pub struct SettingsSidebarGeometry {
    pub content_h: i64,
    pub view_w: i64,
    pub card_margin: i64,
    pub card_w: i64,
}

/// Frames of the parts of the sidebar and of the pane beside it.
#[derive(Debug)]
pub struct SidebarPlan {
    pub card: Rect,
    pub divider: Rect,
    pub background: Rect,
    pub title: Rect,
    pub subtitle: Rect,
    /// The mark of the selected row.
    pub highlight: Rect,
    pub rows: Vec<SidebarRow>,
    /// Whether the last row carries a mark for updates.
    pub update_mark: bool,
}

/// Lays out the sidebar for rows of the given height.
pub fn build_settings_sidebar(
    geometry: SettingsSidebarGeometry,
    row_h: i64,
    update_available: bool,
    restart_required: bool,
) -> (r: SidebarPlan)
    requires
        geometry::in_range(geometry.content_h as int),
        geometry::in_range(geometry.view_w as int),
        geometry::in_range(geometry.card_margin as int),
        geometry::in_range(geometry.card_w as int),
        geometry::in_range(row_h as int),
    ensures
        ({
            let g = geometry;
            let row_w = g.card_w - 28_000;
            let y0 = g.content_h - g.card_margin - 112_000 - row_h;
            &&& r.card.x == g.card_margin && r.card.y == g.card_margin && r.card.w == g.card_w
            &&& r.card.h == g.content_h - 2 * g.card_margin
            &&& r.divider.x == g.card_w - 1_000
            &&& r.divider.y == 0 && r.divider.w == 1_000 && r.divider.h == g.content_h
            &&& r.background == (Rect { x: 0, y: 0, w: g.view_w, h: g.content_h })
            &&& r.title.x == 24_000 && r.title.y == g.content_h - 78_000
            &&& r.title.w == g.card_w - 48_000 && r.title.h == 26_000
            &&& r.subtitle.x == 24_000 && r.subtitle.y == g.content_h - 102_000
            &&& r.subtitle.w == g.card_w - 48_000 && r.subtitle.h == 18_000
            &&& r.highlight == sidebar_row(14_000, y0, row_w, row_h as int, 0).frame
            &&& r.rows@ == Seq::new(
                7,
                |i: int| sidebar_row(14_000, y0, row_w, row_h as int, i),
            )
            &&& r.update_mark == (update_available || restart_required)
        }),
{
    let g = geometry;
    let row_w = g.card_w - 28_000;
    let y0 = g.content_h - g.card_margin - 112_000 - row_h;
    SidebarPlan {
        card: Rect::new(g.card_margin, g.card_margin, g.card_w, g.content_h - g.card_margin * 2),
        divider: Rect::new(g.card_w - 1_000, 0, 1_000, g.content_h),
        background: Rect::new(0, 0, g.view_w, g.content_h),
        title: Rect::new(24_000, g.content_h - 78_000, g.card_w - 48_000, 26_000),
        subtitle: Rect::new(24_000, g.content_h - 102_000, g.card_w - 48_000, 18_000),
        highlight: Rect::new(14_000, y0, row_w, row_h),
        rows: SettingsSidebar::build(14_000, y0, row_w, row_h),
        update_mark: update_available || restart_required,
    }
}

/// The largest of the height of one line and the measured titles with their padding.
pub open spec fn tallest_title(measured: Seq<Measure>) -> int
    decreases measured.len(),
{
    if measured.len() == 0 {
        SIDEBAR_ROW_H as int
    } else {
        let rest = tallest_title(measured.drop_last());
        match measured.last() {
            Measure::Finite(m) if m > 0 => geometry::max_of(
                rest,
                geometry::ceil_points_of(m + 8_000),
            ),
            _ => rest,
        }
    }
}

/// The row height at which every title of the sidebar fits, from the measured heights
/// of the titles in both weights.
pub fn settings_sidebar_required_row_height(measured: &Vec<Measure>) -> (r: i64)
    requires
        forall|i: int| 0 <= i < measured@.len() ==> (#[trigger] measured@[i]).valid(),
    ensures
        r == tallest_title(measured@),
        r >= SIDEBAR_ROW_H,
{
    let mut required = SIDEBAR_ROW_H;
    let mut i: usize = 0;
    while i < measured.len()
        invariant
            i <= measured@.len(),
            forall|k: int| 0 <= k < measured@.len() ==> (#[trigger] measured@[k]).valid(),
            required == tallest_title(measured@.take(i as int)),
            required >= SIDEBAR_ROW_H,
        decreases measured@.len() - i,
    {
        assert(measured@.take(i + 1).drop_last() =~= measured@.take(i as int));
        assert(measured@[i as int].valid());
        if let Measure::Finite(m) = measured[i] {
            if m > 0 {
                required = max_len(required, ceil_points(m + 8_000));
            }
        }
        i += 1;
    }
    assert(measured@.take(measured@.len() as int) =~= measured@);
    required
}

/// Centres the label of a sidebar row by its measured height.
pub fn center_sidebar_label(frame: Rect, measured: Measure, row_h: i64) -> (r: Rect)
    requires
        measured.valid(),
        geometry::in_range(row_h as int),
    ensures
        r == match measured {
            Measure::Finite(m) if m > 0 => Rect {
                y: (geometry::max_of(row_h - m, 0) / 2) as i64,
                h: m,
                ..frame
            },
            _ => frame,
        },
{
    match measured {
        Measure::Finite(m) => if m > 0 {
            Rect::new(frame.x, half(max_len(row_h - m, 0)), frame.w, m)
        } else {
            frame
        },
        _ => frame,
    }
}

/// The colour and the weight of the title of a row.
pub fn set_sidebar_title(palette: UiPalette, selected: bool) -> (r: (u32, bool))
    ensures
        r.0 == palette::text_color(
            palette,
            if selected { SettingsTextRole::Accent } else { SettingsTextRole::Sidebar },
        ),
        r.1 == selected,
{
    let role = if selected { SettingsTextRole::Accent } else { SettingsTextRole::Sidebar };
    (settings_text_color(palette, role), selected)
}

/// What becomes of the mark for updates.
#[derive(Clone, Copy, Debug, PartialEq, Eq, Structural)]
pub enum UpdateMark {
    Nothing,
    SetHidden(bool),
    Create(Rect),
}

/// Shows or hides the mark for updates, which is made when it is first needed: at
/// the upper right of the icon, or of the row where it has no icon.
pub fn set_sidebar_update_indicator(
    button: usize,
    visible: bool,
    has_mark: bool,
    icon: Option<Size>,
    row: Size,
) -> (r: UpdateMark)
    requires
        icon matches Some(s) ==> s.valid(),
        row.valid(),
    ensures
        r == if button == 0 {
            UpdateMark::Nothing
        } else if has_mark {
            UpdateMark::SetHidden(!visible)
        } else if !visible {
            UpdateMark::Nothing
        } else {
            UpdateMark::Create(
                match icon {
                    Some(s) => Rect {
                        x: (s.w - 4_200) as i64,
                        y: (s.h - 4_200) as i64,
                        w: 6_000,
                        h: 6_000,
                    },
                    None => Rect {
                        x: (row.w - 12_000) as i64,
                        y: (row.h - 12_000) as i64,
                        w: 6_000,
                        h: 6_000,
                    },
                },
            )
        },
{
    if button == 0 {
        return UpdateMark::Nothing;
    }
    if has_mark {
        return UpdateMark::SetHidden(!visible);
    }
    if !visible {
        return UpdateMark::Nothing;
    }
    UpdateMark::Create(
        match icon {
            Some(s) => Rect::new(s.w - 4_200, s.h - 4_200, 6_000, 6_000),
            None => Rect::new(row.w - 12_000, row.h - 12_000, 6_000, 6_000),
        },
    )
}

/// A sidebar row as the search for the row under the pointer sees it.
#[derive(Clone, Copy, Debug, PartialEq, Eq, Structural)]
pub struct SidebarCandidate {
    pub button: usize,
    /// The row is in a window that is visible, and not hidden itself.
    pub visible: bool,
    /// The pointer in the coordinates of the row.
    pub pointer: Point,
    pub bounds: Rect,
}

pub open spec fn under_pointer(c: SidebarCandidate) -> bool {
    c.visible && c.bounds.holds(c.pointer)
}

/// The first visible row that the pointer is over.
pub fn sidebar_button_under_pointer(candidates: &Vec<SidebarCandidate>) -> (r: Option<usize>)
    requires
        forall|i: int| 0 <= i < candidates@.len() ==> (#[trigger] candidates@[i]).bounds.valid(),
    ensures
        match r {
            Some(b) => exists|i: int|
                0 <= i < candidates@.len() && under_pointer(#[trigger] candidates@[i])
                    && candidates@[i].button == b && forall|j: int|
                    0 <= j < i ==> !under_pointer(#[trigger] candidates@[j]),
            None => forall|i: int|
                0 <= i < candidates@.len() ==> !under_pointer(#[trigger] candidates@[i]),
        },
{
    let mut i: usize = 0;
    while i < candidates.len()
        invariant
            i <= candidates@.len(),
            forall|k: int|
                0 <= k < candidates@.len() ==> (#[trigger] candidates@[k]).bounds.valid(),
            forall|k: int| 0 <= k < i ==> !under_pointer(#[trigger] candidates@[k]),
        decreases candidates@.len() - i,
    {
        let c = candidates[i];
        assert(candidates@[i as int].bounds.valid());
        if c.visible && rect_contains_point(c.bounds, c.pointer) {
            assert(under_pointer(candidates@[i as int]));
            return Some(c.button);
        }
        i += 1;
    }
    None
}

/// The highlight that follows the pointer over the sidebar.
#[derive(Clone, Copy, Debug, PartialEq, Eq, Structural)]
pub struct SidebarHover {
    /// The number of the selected page.
    pub selected: usize,
    /// The row under the pointer, zero where there is none.
    pub hovered: usize,
    /// The highlight is shown, or about to glide.
    pub visible: bool,
    /// The highlight waits unseen at the row that was just selected.
    pub primed: bool,
    /// The view of the highlight, zero before it is made.
    pub highlight: usize,
}

/// What the highlight does.
#[derive(Clone, Copy, Debug, PartialEq, Eq, Structural)]
pub enum HoverEffect {
    /// Glide to a row.
    Spring { frame: Rect, stiffness: u32, damping: u32 },
    /// Jump to a row.
    Place { frame: Rect },
    FadeIn,
    FadeOut,
    /// Stop every movement, and wait unseen at a row.
    Prime { frame: Rect },
    /// Disappear at once.
    HideNow,
    /// Colour the text of a row as hovered or not.
    Tint { button: usize, hovered: bool },
}

impl SidebarHover {
    /// Whether a row belongs to the selected page.
    pub open spec fn is_selected(self, tag: int) -> bool {
        tag >= 0 && tag == self.selected
    }

    pub open spec fn hidden(self) -> SidebarHover {
        SidebarHover { visible: if self.highlight == 0 { self.visible } else { false }, ..self }
    }

    pub open spec fn hide_effects(self) -> Seq<HoverEffect> {
        if self.highlight != 0 && self.visible { seq![HoverEffect::FadeOut] } else { seq![] }
    }

    /// The highlight when the pointer is over a row. Over the selected row it goes
    /// away.
    pub open spec fn over(self, button: usize, tag: int) -> SidebarHover {
        if button == 0 {
            self
        } else if self.is_selected(tag) {
            SidebarHover { hovered: 0, primed: false, ..self.hidden() }
        } else if self.highlight == 0 {
            SidebarHover { hovered: button, ..self }
        } else {
            SidebarHover {
                hovered: button,
                primed: false,
                visible: if self.primed { self.visible } else { true },
                ..self
            }
        }
    }

    /// How it gets there: from the row just selected it glides and fades in; one that
    /// is visible glides, faster when the pointer comes back to the sidebar; another
    /// one appears in place.
    pub open spec fn over_effects(
        self,
        button: usize,
        tag: int,
        frame: Rect,
        reentering: bool,
    ) -> Seq<HoverEffect> {
        let tint = HoverEffect::Tint { button, hovered: true };
        if button == 0 {
            seq![]
        } else if self.is_selected(tag) {
            self.hide_effects()
        } else if self.highlight == 0 {
            seq![tint]
        } else if self.primed {
            seq![
                HoverEffect::Spring { frame, stiffness: 360, damping: 32 },
                HoverEffect::FadeIn,
                tint,
            ]
        } else if self.visible {
            seq![
                if reentering {
                    HoverEffect::Spring { frame, stiffness: 500, damping: 30 }
                } else {
                    HoverEffect::Spring { frame, stiffness: 360, damping: 32 }
                },
                tint,
            ]
        } else {
            seq![HoverEffect::Place { frame }, HoverEffect::FadeIn, tint]
        }
    }

    /// Whether a row carries the highlight.
    pub fn sidebar_button_is_hovered(&self, button: usize) -> (r: bool)
        ensures
            r == (button != 0 && self.hovered == button),
    {
        button != 0 && self.hovered == button
    }

    /// A new highlight, out of sight.
    pub fn make_sidebar_hover_highlight(&mut self, highlight: usize)
        ensures
            *final(self) == (SidebarHover { hovered: 0, visible: false, highlight, ..*old(self) }),
    {
        self.highlight = highlight;
        self.hovered = 0;
        self.visible = false;
    }

    fn hide_hover_highlight(&mut self, effects: &mut Vec<HoverEffect>)
        ensures
            *final(self) == old(self).hidden(),
            final(effects)@ == old(effects)@ + old(self).hide_effects(),
    {
        let ghost before = effects@;
        if self.highlight != 0 {
            if self.visible {
                effects.push(HoverEffect::FadeOut);
            }
            self.visible = false;
        }
        assert(effects@ =~= before + old(self).hide_effects());
    }

    /// Brings the highlight to a row under the pointer.
    pub fn apply_sidebar_hover(
        &mut self,
        button: usize,
        tag: i64,
        frame: Rect,
        reentering_sidebar: bool,
    ) -> (r: Vec<HoverEffect>)
        ensures
            *final(self) == old(self).over(button, tag as int),
            r@ == old(self).over_effects(button, tag as int, frame, reentering_sidebar),
    {
        let mut effects: Vec<HoverEffect> = Vec::new();
        if button == 0 {
            return effects;
        }
        if tag >= 0 && tag as u64 == self.selected as u64 {
            self.hovered = 0;
            self.primed = false;
            self.hide_hover_highlight(&mut effects);
            assert(effects@ =~= old(self).hide_effects());
            return effects;
        }
        self.hovered = button;
        if self.highlight != 0 {
            if self.primed {
                self.primed = false;
                effects.push(HoverEffect::Spring { frame, stiffness: 360, damping: 32 });
                effects.push(HoverEffect::FadeIn);
            } else if self.visible {
                if reentering_sidebar {
                    effects.push(HoverEffect::Spring { frame, stiffness: 500, damping: 30 });
                } else {
                    effects.push(HoverEffect::Spring { frame, stiffness: 360, damping: 32 });
                }
            } else {
                self.visible = true;
                effects.push(HoverEffect::Place { frame });
                effects.push(HoverEffect::FadeIn);
            }
        }
        effects.push(HoverEffect::Tint { button, hovered: true });
        effects
    }

    /// The pointer enters the sidebar, over a row or beside all of them. A row is
    /// given by its view, its number and its frame.
    pub fn sidebar_hover_tracker_mouse_entered(&mut self, under: Option<(usize, i64, Rect)>) -> (r:
        Vec<HoverEffect>)
        ensures
            match under {
                Some((button, tag, frame)) => {
                    &&& *final(self) == old(self).over(button, tag as int)
                    &&& r@ == old(self).over_effects(button, tag as int, frame, true)
                },
                None => {
                    &&& *final(self) == (SidebarHover { hovered: 0, ..old(self).hidden() })
                    &&& r@ == old(self).hide_effects()
                },
            },
    {
        match under {
            Some((button, tag, frame)) => self.apply_sidebar_hover(button, tag, frame, true),
            None => {
                let mut effects: Vec<HoverEffect> = Vec::new();
                self.hovered = 0;
                self.hide_hover_highlight(&mut effects);
                assert(effects@ =~= old(self).hide_effects());
                effects
            },
        }
    }

    /// The pointer leaves the sidebar.
    pub fn sidebar_hover_tracker_mouse_exited(&mut self) -> (r: Vec<HoverEffect>)
        ensures
            *final(self) == (SidebarHover { hovered: 0, primed: false, ..old(self).hidden() }),
            r@ == old(self).hide_effects(),
    {
        let mut effects: Vec<HoverEffect> = Vec::new();
        self.hovered = 0;
        self.primed = false;
        self.hide_hover_highlight(&mut effects);
        assert(effects@ =~= old(self).hide_effects());
        effects
    }

    /// The pointer enters a row. The message may come late, so the row that is under
    /// the pointer by now counts, if there is one.
    pub fn sidebar_button_mouse_entered(&mut self, under: Option<(usize, i64, Rect)>) -> (r: Vec<
        HoverEffect,
    >)
        ensures
            match under {
                Some((button, tag, frame)) => {
                    &&& *final(self) == old(self).over(button, tag as int)
                    &&& r@ == old(self).over_effects(button, tag as int, frame, false)
                },
                None => {
                    &&& *final(self) == (SidebarHover { hovered: 0, ..old(self).hidden() })
                    &&& r@ == old(self).hide_effects()
                },
            },
    {
        match under {
            Some((button, tag, frame)) => self.apply_sidebar_hover(button, tag, frame, false),
            None => {
                let mut effects: Vec<HoverEffect> = Vec::new();
                self.hovered = 0;
                self.hide_hover_highlight(&mut effects);
                assert(effects@ =~= old(self).hide_effects());
                effects
            },
        }
    }

    /// The pointer leaves a row. The selected row keeps its look.
    pub fn sidebar_button_mouse_exited(&mut self, button: usize, tag: i64) -> (r: Option<
        HoverEffect,
    >)
        ensures
            old(self).is_selected(tag as int) ==> *final(self) == *old(self) && r is None,
            !old(self).is_selected(tag as int) ==> {
                &&& *final(self) == (SidebarHover {
                    hovered: if old(self).hovered == button { 0 } else { old(self).hovered },
                    ..*old(self)
                })
                &&& r == if button == 0 {
                    None
                } else {
                    Some(HoverEffect::Tint { button, hovered: false })
                }
            },
    {
        if tag >= 0 && tag as u64 == self.selected as u64 {
            return None;
        }
        if self.hovered == button {
            self.hovered = 0;
        }
        if button == 0 {
            None
        } else {
            Some(HoverEffect::Tint { button, hovered: false })
        }
    }

    /// Keeps the highlight, unseen, at a row that was just selected, so that it can
    /// glide from there.
    pub fn prime_sidebar_hover_after_selection(&mut self, button: usize, frame: Rect) -> (r: Option<
        HoverEffect,
    >)
        ensures
            ({
                let possible = old(self).highlight != 0 && button != 0;
                &&& *final(self) == (SidebarHover {
                    hovered: 0,
                    primed: possible,
                    visible: possible || old(self).visible,
                    ..*old(self)
                })
                &&& r == if possible {
                    Some(HoverEffect::Prime { frame })
                } else {
                    None
                }
            }),
    {
        self.hovered = 0;
        if self.highlight == 0 || button == 0 {
            self.primed = false;
            return None;
        }
        self.primed = true;
        self.visible = true;
        Some(HoverEffect::Prime { frame })
    }

    /// Forgets the row under the pointer, and hides the highlight at once.
    pub fn clear_sidebar_hover(&mut self) -> (r: Option<HoverEffect>)
        ensures
            *final(self) == (SidebarHover { hovered: 0, primed: false, ..old(self).hidden() }),
            r == if old(self).highlight != 0 {
                Some(HoverEffect::HideNow)
            } else {
                None
            },
    {
        self.hovered = 0;
        self.primed = false;
        if self.highlight == 0 {
            return None;
        }
        self.visible = false;
        Some(HoverEffect::HideNow)
    }
}

/// The highlight never rests on the row of the selected page, and leaves nothing
/// behind there.
pub proof fn selected_row_is_never_hovered(h: SidebarHover, button: usize, tag: int)
    requires
        button != 0,
        h.is_selected(tag),
    ensures
        h.over(button, tag).hovered == 0,
        !h.over(button, tag).primed,
        h.highlight != 0 ==> !h.over(button, tag).visible,
{
}

/// After the first move from a row that was just selected, the highlight is no longer
/// waiting, and stays in sight.
pub proof fn priming_lasts_for_one_move(h: SidebarHover, button: usize, tag: int)
    requires
        h.highlight != 0,
        h.primed,
        h.visible,
        button != 0,
        !h.is_selected(tag),
    ensures
        !h.over(button, tag).primed,
        h.over(button, tag).visible,
        h.over(button, tag).hovered == button,
{
}

/// Text colour of a row that the pointer enters or leaves; the selected row keeps its
/// own.
pub fn set_sidebar_hovered(
    palette: UiPalette,
    hover: &SidebarHover,
    button: usize,
    tag: i64,
    hovered: bool,
) -> (r: Option<u32>)
    ensures
        r == if button == 0 || hover.is_selected(tag as int) {
            None
        } else {
            Some(
                palette::text_color(
                    palette,
                    if hovered { SettingsTextRole::Primary } else { SettingsTextRole::Sidebar },
                ),
            )
        },
{
    if button == 0 || (tag >= 0 && tag as u64 == hover.selected as u64) {
        return None;
    }
    let role = if hovered { SettingsTextRole::Primary } else { SettingsTextRole::Sidebar };
    Some(settings_text_color(palette, role))
}

/// The colour of the highlight under the pointer.
pub fn hover_pill_color(palette: UiPalette) -> (r: u32)
    ensures
        r == if palette.dark { 0xFFFFFF22u32 } else { 0x0000000Bu32 },
{
    if palette.dark {
        0xFFFFFF22
    } else {
        0x0000000B
    }
}

/// The sidebar lists the pages in their order, and each row has the title and the symbol of
/// its page.
pub proof fn rows_name_their_pages(i: int)
    requires
        0 <= i < 7,
    ensures
        icon_title_key(page_icon(i)) == "settings.sidebar_"@ + crate::pages::page_name_of(i),
        page_icon(0) == SettingsSidebarIcon::General,
        page_icon(1) == SettingsSidebarIcon::Switcher,
        page_icon(2) == SettingsSidebarIcon::Mouse,
        page_icon(3) == SettingsSidebarIcon::Clipboard,
        page_icon(4) == SettingsSidebarIcon::WindowControl,
        page_icon(5) == SettingsSidebarIcon::QuickActions,
        page_icon(6) == SettingsSidebarIcon::About,
        icon_symbol(page_icon(0)) == "gearshape"@,
        icon_symbol(page_icon(1)) == "rectangle.on.rectangle"@,
        icon_symbol(page_icon(2)) == "computermouse"@,
        icon_symbol(page_icon(3)) == "doc.text"@,
        icon_symbol(page_icon(4)) == "rectangle.split.2x2"@,
        icon_symbol(page_icon(5)) == "bolt.circle"@,
        icon_symbol(page_icon(6)) == "info.circle"@,
{
    reveal_strlit("settings.sidebar_");
    reveal_strlit("general");
    reveal_strlit("switcher");
    reveal_strlit("mouse");
    reveal_strlit("clipboard");
    reveal_strlit("window_control");
    reveal_strlit("quick_actions");
    reveal_strlit("about");
    reveal_strlit("settings.sidebar_general");
    reveal_strlit("settings.sidebar_switcher");
    reveal_strlit("settings.sidebar_mouse");
    reveal_strlit("settings.sidebar_clipboard");
    reveal_strlit("settings.sidebar_window_control");
    reveal_strlit("settings.sidebar_quick_actions");
    reveal_strlit("settings.sidebar_about");
    assert("settings.sidebar_general"@ =~= "settings.sidebar_"@ + "general"@);
    assert("settings.sidebar_switcher"@ =~= "settings.sidebar_"@ + "switcher"@);
    assert("settings.sidebar_mouse"@ =~= "settings.sidebar_"@ + "mouse"@);
    assert("settings.sidebar_clipboard"@ =~= "settings.sidebar_"@ + "clipboard"@);
    assert("settings.sidebar_window_control"@ =~= "settings.sidebar_"@ + "window_control"@);
    assert("settings.sidebar_quick_actions"@ =~= "settings.sidebar_"@ + "quick_actions"@);
    assert("settings.sidebar_about"@ =~= "settings.sidebar_"@ + "about"@);
}

/// No two pages share a symbol.
pub proof fn page_symbols_are_distinct(a: SettingsSidebarIcon, b: SettingsSidebarIcon)
    requires
        icon_symbol(a) == icon_symbol(b),
    ensures
        a == b,
{
    reveal_strlit("gearshape");
    reveal_strlit("rectangle.on.rectangle");
    reveal_strlit("computermouse");
    reveal_strlit("doc.text");
    reveal_strlit("rectangle.split.2x2");
    reveal_strlit("bolt.circle");
    reveal_strlit("info.circle");
    assert("gearshape"@.len() == 9 && "rectangle.on.rectangle"@.len() == 22);
    assert("computermouse"@.len() == 13 && "doc.text"@.len() == 8);
    assert("rectangle.split.2x2"@.len() == 19);
    assert("bolt.circle"@[0] == 'b' && "info.circle"@[0] == 'i');
    assert("bolt.circle"@.len() == 11 && "info.circle"@.len() == 11);
}

/// The rows of the sidebar go down by 42 points each, all of one size and in one column, and
/// the pointer is followed from the lowest row to the highest.
pub proof fn rows_go_down_in_steps(x: i64, y0: int, w: i64, row_h: int, i: int)
    requires
        geometry::near(y0),
        geometry::in_range(row_h),
        0 <= i < 7,
    ensures
        ({
            let row = sidebar_row(x as int, y0, w as int, row_h, i);
            &&& row.icon == page_icon(i)
            &&& row.frame.x == x && row.frame.w == w && row.frame.h == row_h
            &&& row.frame.y == y0 - 42_000 * i
        }),
        tracking_area(x as int, y0, w as int, row_h).top() == sidebar_row(
            x as int,
            y0,
            w as int,
            row_h,
            0,
        ).frame.top(),
        tracking_area(x as int, y0, w as int, row_h).y == sidebar_row(
            x as int,
            y0,
            w as int,
            row_h,
            6,
        ).frame.y,
{
}

/// A row is high enough for one line and for every title with 8 points round it, and not
/// higher than one of these needs.
pub proof fn sidebar_rows_fit_their_titles(measured: Seq<Measure>, i: int)
    ensures
        tallest_title(measured) >= 38_000,
        0 <= i < measured.len() ==> (measured[i] matches Measure::Finite(m) ==> m > 0
            ==> tallest_title(measured) >= m + 8_000),
        tallest_title(measured) == 38_000 || exists|k: int|
            0 <= k < measured.len() && (#[trigger] measured[k] matches Measure::Finite(m) && m > 0
                && tallest_title(measured) < m + 9_000),
    decreases measured.len(),
{
    if measured.len() > 0 {
        let rest = measured.drop_last();
        sidebar_rows_fit_their_titles(rest, i);
        if tallest_title(rest) != 38_000 {
            let k = choose|k: int|
                0 <= k < rest.len() && (#[trigger] rest[k] matches Measure::Finite(m) && m > 0
                    && tallest_title(rest) < m + 9_000);
            assert(measured[k] == rest[k]);
        }
        if 0 <= i < rest.len() {
            assert(rest[i] == measured[i]);
        }
        assert(measured[measured.len() - 1] == measured.last());
    }
}

/// The pointer is over a row that is visible and holds it.
pub proof fn hidden_rows_are_not_pointed_at(c: SidebarCandidate)
    ensures
        !c.visible ==> !under_pointer(c),
        c.visible ==> (under_pointer(c) <==> c.bounds.x <= c.pointer.x <= c.bounds.x + c.bounds.w
            && c.bounds.y <= c.pointer.y <= c.bounds.y + c.bounds.h),
{
}

/// Over a row of another page the highlight comes to that row, and colours its text last: it
/// glides there if it is in sight, faster when the pointer comes back into the sidebar, and
/// appears there if it is not. From a row that was just selected it glides and fades in.
pub proof fn highlight_comes_to_the_row(
    h: SidebarHover,
    button: usize,
    tag: int,
    frame: Rect,
    reentering: bool,
)
    requires
        button != 0,
        tag < 0 || tag != h.selected,
    ensures
        ({
            let after = h.over(button, tag);
            let effects = h.over_effects(button, tag, frame, reentering);
            let usual = HoverEffect::Spring { frame, stiffness: 360, damping: 32 };
            let quick = HoverEffect::Spring { frame, stiffness: 500, damping: 30 };
            &&& after.hovered == button
            &&& after.selected == h.selected && after.highlight == h.highlight
            &&& effects.last() == (HoverEffect::Tint { button, hovered: true })
            &&& h.highlight == 0 ==> effects.len() == 1 && after.visible == h.visible
            &&& h.highlight != 0 ==> !after.primed
            &&& h.highlight != 0 && h.primed ==> effects.len() == 3 && effects[0] == usual
                && effects[1] == HoverEffect::FadeIn
            &&& h.highlight != 0 && !h.primed ==> after.visible
            &&& h.highlight != 0 && !h.primed && h.visible ==> effects.len() == 2 && effects[0]
                == if reentering { quick } else { usual }
            &&& h.highlight != 0 && !h.primed && !h.visible ==> effects.len() == 3 && effects[0]
                == (HoverEffect::Place { frame }) && effects[1] == HoverEffect::FadeIn
        }),
{
}

/// A highlight that is hidden fades out where it was in sight, and nothing else about it
/// changes; one that was not made yet has nothing to hide. No row at all changes nothing.
pub proof fn hiding_fades_the_highlight(h: SidebarHover, tag: int, frame: Rect, reentering: bool)
    ensures
        h.highlight != 0 ==> !h.hidden().visible,
        h.hidden().hovered == h.hovered && h.hidden().primed == h.primed,
        h.hidden().selected == h.selected && h.hidden().highlight == h.highlight,
        h.highlight == 0 ==> h.hidden() == h && h.hide_effects().len() == 0,
        h.highlight != 0 && h.visible ==> h.hide_effects() == seq![HoverEffect::FadeOut],
        h.highlight != 0 && !h.visible ==> h.hide_effects().len() == 0,
        h.over(0, tag) == h,
        h.over_effects(0, tag, frame, reentering).len() == 0,
        tag >= 0 && tag == h.selected ==> forall|button: usize|
            button != 0 ==> #[trigger] h.over_effects(button, tag, frame, reentering)
                == h.hide_effects(),
{
}

} // verus!
