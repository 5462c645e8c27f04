//! The column layout that all settings pages share, and the placement of rows in it.
//!
//! A page is laid out from the top down with a cursor; the origin of a view is its
//! lower left corner.
use vstd::prelude::*;

use crate::geometry::{half, max_len, min_len, Measure, Point, Rect, Size};
#[allow(unused_imports)]
use crate::geometry;

verus! {

/// Space between the heading of a section and its card.
pub const SETTINGS_SECTION_CARD_GAP: i64 = 4_000;

/// Space above the heading of a section.
pub const SETTINGS_SECTION_HEADER_GAP: i64 = 24_000;

/// Height of the box that the heading of a section is drawn in.
pub const SECTION_HEADER_H: i64 = 20_000;

/// Space that a card leaves below its last row in addition to the row inset.
pub const EXTRA_BOTTOM_INSET: i64 = 6_000;

/// Space between a label and the control beside it.
pub const LABEL_GAP: i64 = 18_000;

/// Space round a card for its shadow.
pub const SETTINGS_CARD_SHADOW_INSET: i64 = 36_000;

/// Metrics of the two columns and of the vertical rhythm of a page.
#[derive(Clone, Copy, Debug, PartialEq, Eq, Structural)]
pub struct SettingsLayout {
    pub label_x: i64,
    pub label_w: i64,
    pub control_x: i64,
    pub control_w: i64,
    pub row_h: i64,
    pub described_row_h: i64,
    pub section_step: i64,
    pub row_gap: i64,
    pub card_bottom_inset: i64,
    pub card_header_gap: i64,
    pub card_padding: i64,
}

/// Height of a row with one line of text.
pub const SINGLE_LINE_ROW_H: i64 = 54_000;

/// Height of a control.
pub const CONTROL_H: i64 = 34_000;

/// The layout for a page of the given width whose controls end at the given
/// distance from its right edge.
pub open spec fn page_layout(content_w: int, trailing_inset: int) -> SettingsLayout {
    SettingsLayout {
        label_x: 12_000,
        label_w: 220_000,
        control_x: (content_w - 200_000 - trailing_inset) as i64,
        control_w: 200_000,
        row_h: CONTROL_H,
        described_row_h: SINGLE_LINE_ROW_H,
        section_step: 48_000,
        row_gap: 8_000,
        card_bottom_inset: 10_000,
        card_header_gap: SETTINGS_SECTION_CARD_GAP,
        card_padding: 4_000,
    }
}

impl SettingsLayout {
    /// Every metric is within the range that layouts work in.
    pub open spec fn valid(self) -> bool {
        &&& geometry::in_range(self.label_x as int)
        &&& geometry::in_range(self.label_w as int)
        &&& geometry::in_range(self.control_x as int)
        &&& geometry::in_range(self.control_w as int)
        &&& geometry::in_range(self.row_h as int)
        &&& geometry::in_range(self.described_row_h as int)
        &&& geometry::in_range(self.section_step as int)
        &&& geometry::in_range(self.row_gap as int)
        &&& geometry::in_range(self.card_bottom_inset as int)
        &&& geometry::in_range(self.card_header_gap as int)
        &&& geometry::in_range(self.card_padding as int)
    }

    pub fn new(content_w: i64, trailing_inset: i64) -> (r: SettingsLayout)
        requires
            geometry::in_range(content_w as int),
            geometry::in_range(trailing_inset as int),
        ensures
            r == page_layout(content_w as int, trailing_inset as int),
            r.control_x + r.control_w == content_w - trailing_inset,
    {
        let control_w: i64 = 200_000;
        SettingsLayout {
            label_x: 12_000,
            label_w: 220_000,
            control_x: content_w - control_w - trailing_inset,
            control_w,
            row_h: CONTROL_H,
            described_row_h: SINGLE_LINE_ROW_H,
            section_step: SETTINGS_SECTION_HEADER_GAP + 24_000,
            row_gap: 8_000,
            card_bottom_inset: 10_000,
            card_header_gap: SETTINGS_SECTION_CARD_GAP,
            card_padding: 4_000,
        }
    }

    /// The cursor of the next section.
    pub fn next_section_cursor(self, cursor: i64) -> (r: i64)
        requires
            self.valid(),
            geometry::near(cursor as int),
        ensures
            r == cursor - self.section_step,
    {
        cursor - self.section_step
    }

    /// The lower edge of the next row.
    pub fn next_row_cursor(self, cursor: i64, row_h: i64) -> (r: i64)
        requires
            self.valid(),
            geometry::near(cursor as int),
            geometry::in_range(row_h as int),
        ensures
            r == cursor - self.row_gap - row_h,
    {
        cursor - self.row_gap - row_h
    }

    /// The lower edge of the next row after some additional space.
    pub fn next_row_cursor_with_extra(self, cursor: i64, row_h: i64, extra_gap: i64) -> (r: i64)
        requires
            self.valid(),
            geometry::near(cursor as int),
            geometry::in_range(row_h as int),
            geometry::in_range(extra_gap as int),
        ensures
            r == cursor - extra_gap - self.row_gap - row_h,
    {
        cursor - extra_gap - self.row_gap - row_h
    }

    /// The lower edge of a card below its last row.
    pub fn card_bottom(self, row_y: i64) -> (r: i64)
        requires
            self.valid(),
            geometry::near(row_y as int),
        ensures
            r == row_y - self.card_bottom_inset,
    {
        row_y - self.card_bottom_inset
    }

    /// The upper edge of a card below its heading.
    pub fn card_top(self, header_y: i64) -> (r: i64)
        requires
            self.valid(),
            geometry::near(header_y as int),
        ensures
            r == header_y - self.card_header_gap,
    {
        header_y - self.card_header_gap
    }
}

/// The heading and the card of a section.
#[derive(Clone, Copy, Debug, PartialEq, Eq, Structural)]
pub struct SectionFrames {
    pub header: Rect,
    pub card: Rect,
}

/// The frames of a section that covers `frame`: the heading stands above it, and the
/// card ends a little higher at its bottom.
pub open spec fn section_frames(frame: Rect) -> SectionFrames {
    SectionFrames {
        header: Rect {
            x: 6_000,
            y: (frame.top() + SETTINGS_SECTION_CARD_GAP) as i64,
            w: frame.w,
            h: SECTION_HEADER_H,
        },
        card: Rect {
            x: frame.x,
            y: (frame.y + EXTRA_BOTTOM_INSET) as i64,
            w: frame.w,
            h: geometry::max_of(frame.h - EXTRA_BOTTOM_INSET, 1_000) as i64,
        },
    }
}

/// A titled card.
pub struct SettingsSection;

impl SettingsSection {
    /// Places the heading and the card of a section.
    pub fn attach(frame: Rect) -> (r: SectionFrames)
        requires
            frame.near(),
        ensures
            r == section_frames(frame),
    {
        SectionFrames {
            header: Rect::new(
                6_000,
                frame.y + frame.h + SETTINGS_SECTION_CARD_GAP,
                frame.w,
                SECTION_HEADER_H,
            ),
            card: Rect::new(
                frame.x,
                frame.y + EXTRA_BOTTOM_INSET,
                frame.w,
                max_len(frame.h - EXTRA_BOTTOM_INSET, 1_000),
            ),
        }
    }
}

/// The shadow of a card; a card without area has neither surface nor shadow.
pub open spec fn card_shadow(frame: Rect) -> Option<Rect> {
    if frame.w <= 0 || frame.h <= 0 {
        None
    } else {
        Some(
            Rect {
                x: (frame.x - SETTINGS_CARD_SHADOW_INSET) as i64,
                y: (frame.y - SETTINGS_CARD_SHADOW_INSET) as i64,
                w: (frame.w + 2 * SETTINGS_CARD_SHADOW_INSET) as i64,
                h: (frame.h + 2 * SETTINGS_CARD_SHADOW_INSET) as i64,
            },
        )
    }
}

/// The frame of the view that draws the shadow of a card.
pub fn add_settings_card(frame: Rect) -> (r: Option<Rect>)
    requires
        frame.near(),
    ensures
        r == card_shadow(frame),
{
    if frame.w <= 0 || frame.h <= 0 {
        return None;
    }
    Some(
        Rect::new(
            frame.x - SETTINGS_CARD_SHADOW_INSET,
            frame.y - SETTINGS_CARD_SHADOW_INSET,
            frame.w + 2 * SETTINGS_CARD_SHADOW_INSET,
            frame.h + 2 * SETTINGS_CARD_SHADOW_INSET,
        ),
    )
}

/// The part of a shadow view that the card covers.
pub fn settings_card_shadow_rect(bounds: Rect) -> (r: Rect)
    requires
        bounds.near(),
    ensures
        r.x == SETTINGS_CARD_SHADOW_INSET,
        r.y == SETTINGS_CARD_SHADOW_INSET,
        r.w == geometry::max_of(bounds.w - 2 * SETTINGS_CARD_SHADOW_INSET, 1_000),
        r.h == geometry::max_of(bounds.h - 2 * SETTINGS_CARD_SHADOW_INSET, 1_000),
{
    Rect::new(
        SETTINGS_CARD_SHADOW_INSET,
        SETTINGS_CARD_SHADOW_INSET,
        max_len(bounds.w - 2 * SETTINGS_CARD_SHADOW_INSET, 1_000),
        max_len(bounds.h - 2 * SETTINGS_CARD_SHADOW_INSET, 1_000),
    )
}

/// One layer of the shadow of a card: how far down it falls, how far it is blurred, and
/// its colour.
#[derive(Clone, Copy, Debug, PartialEq, Eq, Structural)]
pub struct ShadowLayer {
    pub drop: i64,
    pub blur: i64,
    pub color: u32,
}

/// The layers of the shadow of a card: a faint one all round, and one in the colour of
/// the theme.
pub fn card_shadow_layers(theme_shadow: u32) -> (r: (ShadowLayer, ShadowLayer))
    ensures
        r.0 == (ShadowLayer { drop: 1_000, blur: 2_000, color: 0x00000006 }),
        r.1 == (ShadowLayer { drop: 8_000, blur: 24_000, color: theme_shadow }),
{
    (
        ShadowLayer { drop: 1_000, blur: 2_000, color: 0x00000006 },
        ShadowLayer { drop: 8_000, blur: 24_000, color: theme_shadow },
    )
}

/// The light in the upper right of the detail pane: it fades out round its centre.
#[derive(Clone, Copy, Debug, PartialEq, Eq, Structural)]
pub struct PaneHighlight {
    pub center: Point,
    /// How opaque the centre is, in hundredths.
    pub opacity: u32,
    /// The share of the distance from the centre to the farthest corner, which is the
    /// lower left one, at which it has faded out, in hundredths.
    pub reach: u32,
}

/// The light of a pane of the given size; a pane without extent has none. In a dark theme
/// it is faint.
pub fn settings_pane_highlight_draw_rect(bounds: Size, dark: bool) -> (r: Option<PaneHighlight>)
    requires
        bounds.valid(),
    ensures
        match r {
            Some(h) => {
                &&& bounds.w > 0 && bounds.h > 0
                &&& h.center.x == bounds.w * 82 / 100
                &&& h.center.y == bounds.h
                &&& h.opacity == if dark { 5u32 } else { 96u32 }
                &&& h.reach == 34
            },
            None => bounds.w <= 0 || bounds.h <= 0,
        },
{
    if bounds.w <= 0 || bounds.h <= 0 {
        return None;
    }
    let center = Point { x: bounds.w * 82 / 100, y: bounds.h };
    Some(PaneHighlight { center, opacity: if dark { 5 } else { 96 }, reach: 34 })
}

/// The line between two rows of a card.
pub open spec fn separator_line(x: int, y: int, w: int) -> Rect {
    Rect {
        x: (x + 6_000) as i64,
        y: y as i64,
        w: geometry::max_of(w - 12_000, 1_000) as i64,
        h: 1_000,
    }
}

/// Places the line between two rows of a card.
pub fn add_row_separator(x: i64, y: i64, w: i64) -> (r: Rect)
    requires
        geometry::in_range(x as int),
        geometry::in_range(w as int),
    ensures
        r == separator_line(x as int, y as int, w as int),
{
    Rect::new(x + 6_000, y, max_len(w - 12_000, 1_000), 1_000)
}

/// The width of a label that ends before a control.
pub fn derived_label_width(control_x: i64, label_x: i64, gap: i64) -> (r: i64)
    requires
        geometry::in_range(control_x as int),
        geometry::in_range(label_x as int),
        geometry::in_range(gap as int),
    ensures
        r == geometry::max_of(control_x - label_x - gap, 1_000),
{
    max_len(control_x - label_x - gap, 1_000)
}

/// The vertical origin of something that is centred in a row; what is higher than
/// the row starts at its bottom.
pub open spec fn centered_y(y: int, row_h: int, h: int) -> int {
    y + geometry::max_of(row_h - h, 0) / 2
}

/// How the parts of a row are placed before they are centred.
#[derive(Clone, Copy, Debug, PartialEq, Eq, Structural)]
pub enum RowKind {
    /// A title with a fixed width.
    Described,
    /// A label with a fixed width, one line high.
    Tall,
    /// A label that ends before its control.
    Plain,
}

/// The frame of the label of a row before it is centred.
pub open spec fn raw_label(
    kind: RowKind,
    label_x: int,
    y: int,
    label_w: int,
    h: int,
    control_x: int,
) -> Rect {
    match kind {
        RowKind::Described => Rect {
            x: label_x as i64,
            y: (y + 4_000) as i64,
            w: label_w as i64,
            h: geometry::max_of(h - 8_000, 1_000) as i64,
        },
        RowKind::Tall => Rect {
            x: label_x as i64,
            y: (y + 4_000) as i64,
            w: label_w as i64,
            h: (h - 8_000) as i64,
        },
        RowKind::Plain => Rect {
            x: label_x as i64,
            y: y as i64,
            w: geometry::max_of(control_x - label_x - LABEL_GAP, 1_000) as i64,
            h: geometry::max_of(h - 8_000, 1_000) as i64,
        },
    }
}

/// A label centred by its measured height, or left alone where there is none.
pub open spec fn centered_label(frame: Rect, measured: Measure, y: int, row_h: int) -> Rect {
    match measured {
        Measure::Finite(m) if m > 0 => Rect {
            y: centered_y(y, row_h, m as int) as i64,
            h: m,
            ..frame
        },
        _ => frame,
    }
}

/// A control centred in its row.
pub open spec fn centered_control(frame: Rect, y: int, row_h: int) -> Rect {
    Rect { y: centered_y(y, row_h, frame.h as int) as i64, ..frame }
}

/// Centres a control in its row.
pub fn center_control(frame: Rect, y: i64, row_h: i64) -> (r: Rect)
    requires
        geometry::near(frame.h as int),
        geometry::near(y as int),
        geometry::in_range(row_h as int),
    ensures
        r == centered_control(frame, y as int, row_h as int),
{
    Rect::new(frame.x, y + half(max_len(row_h - frame.h, 0)), frame.w, frame.h)
}

/// Centres a label in its row by its measured height.
pub fn center_label(frame: Rect, measured: Measure, y: i64, row_h: i64) -> (r: Rect)
    requires
        measured.valid(),
        geometry::near(y as int),
        geometry::in_range(row_h as int),
    ensures
        r == centered_label(frame, measured, y as int, row_h as int),
{
    match measured {
        Measure::Finite(m) => if m > 0 {
            Rect::new(frame.x, y + half(max_len(row_h - m, 0)), frame.w, m)
        } else {
            frame
        },
        _ => frame,
    }
}

/// What placing the control of a row needs to know about it.
#[derive(Clone, Copy, Debug, PartialEq, Eq, Structural)]
pub struct ControlFacts {
    pub frame: Rect,
    pub is_text_field: bool,
    pub is_editable: bool,
    /// The height of its text, for a text field.
    pub measured: Measure,
}

/// A text that cannot be edited is centred by its own height; other controls keep
/// theirs.
pub fn center_readonly_text_control(control: ControlFacts, y: i64, row_h: i64) -> (r: Rect)
    requires
        control.measured.valid(),
        geometry::near(y as int),
        geometry::in_range(row_h as int),
    ensures
        r == if control.is_text_field && !control.is_editable {
            centered_label(control.frame, control.measured, y as int, row_h as int)
        } else {
            control.frame
        },
{
    if control.is_text_field && !control.is_editable {
        center_label(control.frame, control.measured, y, row_h)
    } else {
        control.frame
    }
}

/// Frames of the parts of a row.
#[derive(Clone, Copy, Debug, PartialEq, Eq, Structural)]
pub struct RowFrames {
    pub label: Rect,
    pub control: Rect,
}

/// The frames of a row. In a plain row a text that cannot be edited takes its own
/// height before it is centred.
pub open spec fn row_frames(
    kind: RowKind,
    label_x: int,
    y: int,
    label_w: int,
    h: int,
    label_text: Measure,
    control: ControlFacts,
) -> RowFrames {
    let fitted = if kind == RowKind::Plain && control.is_text_field && !control.is_editable {
        centered_label(control.frame, control.measured, y, h)
    } else {
        control.frame
    };
    RowFrames {
        label: centered_label(
            raw_label(kind, label_x, y, label_w, h, control.frame.x as int),
            label_text,
            y,
            h,
        ),
        control: centered_control(fitted, y, h),
    }
}

/// Places the label and the control of a row.
pub fn place_row(
    kind: RowKind,
    label_x: i64,
    y: i64,
    label_w: i64,
    h: i64,
    label_text: Measure,
    control: ControlFacts,
) -> (r: RowFrames)
    requires
        geometry::in_range(label_x as int),
        geometry::near(y as int),
        geometry::in_range(label_w as int),
        geometry::in_range(h as int),
        label_text.valid(),
        control.frame.near(),
        control.measured.valid(),
    ensures
        r == row_frames(
            kind,
            label_x as int,
            y as int,
            label_w as int,
            h as int,
            label_text,
            control,
        ),
{
    let raw = match kind {
        RowKind::Described => Rect::new(label_x, y + 4_000, label_w, max_len(h - 8_000, 1_000)),
        RowKind::Tall => Rect::new(label_x, y + 4_000, label_w, h - 8_000),
        RowKind::Plain => Rect::new(
            label_x,
            y,
            max_len(control.frame.x - label_x - LABEL_GAP, 1_000),
            max_len(h - 8_000, 1_000),
        ),
    };
    let fitted = match kind {
        RowKind::Plain => center_readonly_text_control(control, y, h),
        _ => control.frame,
    };
    RowFrames {
        label: center_label(raw, label_text, y, h),
        control: center_control(fitted, y, h),
    }
}

/// In every row whose parts fit its height, label and control share the centre line
/// of the row, up to the rounding of half a thousandth each.
pub proof fn row_parts_share_the_center(
    kind: RowKind,
    label_x: int,
    y: int,
    label_w: int,
    h: int,
    text_h: i64,
    control: ControlFacts,
)
    requires
        geometry::near(y),
        geometry::in_range(h),
        control.frame.near(),
        0 < text_h <= h,
        0 <= control.frame.h <= h,
        !control.is_text_field,
    ensures
        ({
            let r = row_frames(kind, label_x, y, label_w, h, Measure::Finite(text_h), control);
            &&& -1 <= r.label.twice_mid_y() - (2 * y + h) <= 0
            &&& -1 <= r.control.twice_mid_y() - (2 * y + h) <= 0
        }),
{
}

/// The text cell of an input: at most 22 points high, inset from both sides, two
/// points above the centre where the input is higher.
pub open spec fn input_text_frame(bounds: Rect) -> Rect {
    let text_h = geometry::min_of(bounds.h as int, 22_000);
    let inset = geometry::min_of(bounds.w as int, 8_000);
    Rect {
        x: (bounds.x + inset) as i64,
        y: (bounds.y + (bounds.h - text_h) / 2 + if bounds.h > text_h { 2_000int } else { 0 }) as i64,
        w: geometry::max_of(bounds.w - 2 * inset, 1_000) as i64,
        h: text_h as i64,
    }
}

/// The frame that the text of an input is drawn in.
pub fn centered_text_field_cell_frame(bounds: Rect) -> (r: Rect)
    requires
        bounds.valid(),
    ensures
        r == input_text_frame(bounds),
{
    let text_h = min_len(bounds.h, 22_000);
    let baseline_offset: i64 = if bounds.h > text_h { 2_000 } else { 0 };
    let inset = min_len(bounds.w, 8_000);
    Rect::new(
        bounds.x + inset,
        bounds.y + half(bounds.h - text_h) + baseline_offset,
        max_len(bounds.w - inset * 2, 1_000),
        text_h,
    )
}

/// Where an input is high and wide enough, its text stays inside it.
pub proof fn input_text_stays_inside(bounds: Rect)
    requires
        bounds.valid(),
        26_000 <= bounds.h,
        17_000 <= bounds.w,
    ensures
        ({
            let t = input_text_frame(bounds);
            &&& bounds.x <= t.x
            &&& t.right() <= bounds.right()
            &&& bounds.y <= t.y
            &&& t.top() <= bounds.top()
        }),
{
}

/// The height of a page title, from its measured height.
pub open spec fn page_title_height(measured: Measure) -> int {
    match measured {
        Measure::Finite(m) if m > 0 => geometry::max_of(geometry::ceil_points_of(m as int), 44_000),
        _ => 44_000,
    }
}

/// Places the title of a page and tells its height. The title keeps its upper edge
/// and grows downwards.
pub fn add_page_title(x: i64, top_cursor: i64, w: i64, measured: Measure) -> (r: (Rect, i64))
    requires
        measured.valid(),
        geometry::near(top_cursor as int),
    ensures
        r.1 == page_title_height(measured),
        r.0.x == x,
        r.0.w == w,
        r.0.h == r.1,
        r.0.top() == top_cursor + 10_000,
{
    let h = match measured {
        Measure::Finite(m) => if m > 0 {
            max_len(crate::geometry::ceil_points(m), 44_000)
        } else {
            44_000
        },
        _ => 44_000,
    };
    (Rect::new(x, top_cursor + 10_000 - h, w, h), h)
}

/// On every page the labels start 12 points from the left, the controls are 200 points wide
/// and end at the inset from the right, and rows of one line are 54 points high, 8 points
/// apart, with controls of 34 points in them.
pub proof fn pages_share_their_columns(content_w: int, trailing_inset: int)
    requires
        geometry::in_range(content_w),
        geometry::in_range(trailing_inset),
    ensures
        ({
            let l = page_layout(content_w, trailing_inset);
            &&& l.label_x == 12_000 && l.label_w == 220_000
            &&& l.control_w == 200_000
            &&& content_w - (l.control_x + l.control_w) == trailing_inset
            &&& l.described_row_h == 54_000 && l.row_h == 34_000
            &&& l.row_gap == 8_000 && l.section_step == 48_000
            &&& l.card_bottom_inset == 10_000 && l.card_header_gap == 4_000
            &&& l.card_padding == 4_000
        }),
{
}

/// The heading of a section stands 4 points above what it covers, 20 points high; the card
/// keeps its upper edge and ends 6 points above the lower one.
pub proof fn sections_have_their_heading_above(frame: Rect)
    requires
        frame.near(),
        frame.h >= 7_000,
    ensures
        ({
            let s = section_frames(frame);
            &&& s.header.x == 6_000 && s.header.y == frame.top() + 4_000
            &&& s.header.w == frame.w && s.header.h == 20_000
            &&& s.card.x == frame.x && s.card.w == frame.w
            &&& s.card.top() == frame.top()
            &&& s.card.y == frame.y + 6_000
        }),
{
}

/// The shadow of a card reaches 36 points beyond it on all sides; a card without area has
/// none.
pub proof fn shadows_surround_their_cards(frame: Rect)
    requires
        frame.near(),
    ensures
        card_shadow(frame) is None <==> frame.w <= 0 || frame.h <= 0,
        card_shadow(frame) matches Some(s) ==> {
            &&& frame.x - s.x == 36_000 && s.right() - frame.right() == 36_000
            &&& frame.y - s.y == 36_000 && s.top() - frame.top() == 36_000
        },
{
}

/// A line between rows is one point high and inset by 6 points on both sides.
pub proof fn lines_are_inset(x: int, y: i64, w: int)
    requires
        geometry::in_range(x),
        13_000 <= w <= geometry::LIMIT,
    ensures
        ({
            let l = separator_line(x, y as int, w);
            &&& l.x == x + 6_000 && l.right() == x + w - 6_000
            &&& l.y == y && l.h == 1_000
        }),
{
}

/// What is centred has as much room below as above it, but for half a thousandth; what is
/// higher than its row starts at its bottom.
pub proof fn centring_halves_the_room(y: int, row_h: int, h: int)
    ensures
        h <= row_h ==> 0 <= (y + row_h - (centered_y(y, row_h, h) + h)) - (centered_y(y, row_h, h)
            - y) <= 1,
        h > row_h ==> centered_y(y, row_h, h) == y,
{
}

/// Before it is centred, the label of a row starts at the column of labels. It has the width
/// that it is given, or ends 18 points before its control in a plain row, and leaves 8 points
/// of the height of the row.
pub proof fn labels_have_their_width(
    kind: RowKind,
    label_x: i64,
    y: int,
    label_w: i64,
    h: int,
    control_x: int,
)
    requires
        geometry::in_range(label_x as int),
        geometry::near(y),
        9_000 <= h <= geometry::LIMIT,
        label_x + 19_000 <= control_x <= geometry::LIMIT,
    ensures
        ({
            let r = raw_label(kind, label_x as int, y, label_w as int, h, control_x);
            &&& r.x == label_x && r.h == h - 8_000
            &&& kind == RowKind::Plain ==> r.right() == control_x - 18_000 && r.y == y
            &&& kind != RowKind::Plain ==> r.w == label_w && r.y == y + 4_000
        }),
{
}

/// Centring a label gives it the height of its text and moves it up or down only; a text
/// without a measured height is left where it is. A control keeps its size.
pub proof fn centring_moves_only_up_or_down(frame: Rect, m: i64, y: int, row_h: int)
    requires
        geometry::near(y),
        geometry::in_range(row_h),
        0 <= frame.h <= geometry::LIMIT,
        geometry::in_range(m as int),
    ensures
        ({
            let l = centered_label(frame, Measure::Finite(m), y, row_h);
            let c = centered_control(frame, y, row_h);
            &&& l.x == frame.x && l.w == frame.w
            &&& m > 0 ==> l.h == m && l.y == centered_y(y, row_h, m as int)
            &&& m <= 0 ==> l == frame
            &&& centered_label(frame, Measure::Absent, y, row_h) == frame
            &&& c.x == frame.x && c.w == frame.w && c.h == frame.h
            &&& c.y == centered_y(y, row_h, frame.h as int)
        }),
{
}

/// A text that cannot be edited is centred by its own height in a plain row, and every other
/// control by the height that it has.
pub proof fn only_fixed_texts_take_their_own_height(
    kind: RowKind,
    label_x: int,
    y: int,
    label_w: int,
    h: int,
    label_text: Measure,
    control: ControlFacts,
)
    requires
        geometry::near(y),
        geometry::in_range(h),
        control.frame.valid(),
    ensures
        ({
            let r = row_frames(kind, label_x, y, label_w, h, label_text, control);
            &&& r.control.x == control.frame.x && r.control.w == control.frame.w
            &&& kind != RowKind::Plain || !control.is_text_field || control.is_editable
                ==> r.control.h == control.frame.h
            &&& kind == RowKind::Plain && control.is_text_field && !control.is_editable ==> (
            control.measured matches Measure::Finite(m) ==> m > 0 ==> r.control.h == m)
        }),
{
}

/// The text of an input is 22 points high, 8 points from both sides, and 2 points above the
/// centre; in a lower input it fills the height.
pub proof fn input_texts_sit_above_the_centre(bounds: Rect)
    requires
        bounds.valid(),
        17_000 <= bounds.w,
        0 <= bounds.h,
    ensures
        ({
            let t = input_text_frame(bounds);
            &&& t.x - bounds.x == 8_000 && bounds.right() - t.right() == 8_000
            &&& bounds.h > 22_000 ==> t.h == 22_000 && 3_999 <= t.twice_mid_y()
                - bounds.twice_mid_y() <= 4_000
            &&& bounds.h <= 22_000 ==> t.h == bounds.h && t.y == bounds.y
        }),
{
}

/// A page title is at least 44 points high, and as high as its text in whole points.
pub proof fn page_titles_fit_their_text(m: i64)
    requires
        geometry::in_range(m as int),
    ensures
        page_title_height(Measure::Finite(m)) >= 44_000,
        m > 0 ==> page_title_height(Measure::Finite(m)) >= m,
        m <= 44_000 ==> page_title_height(Measure::Finite(m)) == 44_000,
        m > 44_000 ==> page_title_height(Measure::Finite(m)) < m + 1_000,
        page_title_height(Measure::Absent) == 44_000,
        page_title_height(Measure::Unbounded) == 44_000,
{
}

/// In a plain row the label ends 18 points before the control that stands there, and in every
/// row it starts at the column of labels.
pub proof fn plain_labels_end_before_the_control(
    kind: RowKind,
    label_x: i64,
    y: int,
    label_w: i64,
    h: int,
    label_text: Measure,
    control: ControlFacts,
)
    requires
        geometry::in_range(label_x as int),
        geometry::near(y),
        geometry::in_range(h),
        control.frame.valid(),
        label_x + 19_000 <= control.frame.x,
    ensures
        ({
            let r = row_frames(kind, label_x as int, y, label_w as int, h, label_text, control);
            &&& r.label.x == label_x
            &&& kind == RowKind::Plain ==> control.frame.x - r.label.right() == 18_000
            &&& kind != RowKind::Plain ==> r.label.w == label_w
        }),
{
}

} // verus!
