//! Geometry of a pop-up select: its trigger, its options panel and the rows in it.
use vstd::prelude::*;

use crate::geometry::{
    ceil_points, clamp_len, half, max_len, min_len, Measure, Point, Rect, Size,
};
#[allow(unused_imports)]
use crate::geometry;

verus! {

/// Distance of the trigger's text from the left edge.
pub const TITLE_LEADING: i64 = 12_000;

/// Width and height of the trigger's arrow.
pub const ARROW_SIZE: i64 = 16_000;

/// Distance of the arrow from the right edge.
pub const ARROW_TRAILING: i64 = 12_000;

/// What the leading inset, the arrow, the gap before it and its trailing inset take
/// from the width of a trigger.
pub const TITLE_CHROME: i64 = 48_000;

/// Smallest distance between the options panel and the edge of the screen.
pub const PANEL_MARGIN: i64 = 4_000;

/// Distance between the trigger and the options panel.
pub const PANEL_GAP: i64 = 8_000;

/// Padding above and below the rows of the panel, taken together.
pub const PANEL_PADDING: i64 = 8_000;

/// Space that the floating window leaves round the panel for its shadow.
pub const SELECT_POPUP_SHADOW_PAD: i64 = 12_000;

/// The narrowest panel.
pub const PANEL_MIN_WIDTH: i64 = 120_000;

/// The lowest option row.
pub const OPTION_ROW_MIN_HEIGHT: i64 = 32_000;

pub open spec fn needs_wrap(natural: Measure, available: int, newline: bool) -> bool {
    newline || (natural matches Measure::Finite(n) && n > geometry::max_of(available, 1_000) + 500)
}

/// Whether a title has to be broken into several lines: it holds a line break, or
/// it is more than half a point wider than the space there is.
pub fn settings_select_needs_wrap(
    natural_width: Measure,
    available_width: i64,
    has_explicit_newline: bool,
) -> (r: bool)
    requires
        geometry::in_range(available_width as int),
    ensures
        r == needs_wrap(natural_width, available_width as int, has_explicit_newline),
{
    if has_explicit_newline {
        return true;
    }
    match natural_width {
        Measure::Finite(n) => n > max_len(available_width, 1_000) + 500,
        _ => false,
    }
}

/// Height of a text in a control: what was measured, between one point and the
/// control's height, or the whole height where nothing usable was measured.
pub open spec fn text_height(control: int, measured: Measure) -> int {
    let c = geometry::max_of(control, 1_000);
    match measured {
        Measure::Finite(m) => geometry::min_of(geometry::max_of(m as int, 1_000), c),
        _ => c,
    }
}

/// The vertical origin and the height of a text that is centred in a control.
pub fn settings_select_centered_text_geometry(control_height: i64, measured_height: Measure) -> (r:
    (i64, i64))
    requires
        geometry::in_range(control_height as int),
    ensures
        r.1 == text_height(control_height as int, measured_height),
        r.0 == (geometry::max_of(control_height as int, 1_000) - r.1) / 2,
        0 <= r.0,
        1_000 <= r.1,
        r.0 + r.1 <= geometry::max_of(control_height as int, 1_000),
{
    let control = max_len(control_height, 1_000);
    let text = match measured_height {
        Measure::Finite(m) => min_len(max_len(m, 1_000), control),
        _ => control,
    };
    (half(max_len(control - text, 0)), text)
}

/// Width that a trigger of a given width leaves for its title.
pub fn select_label_width(width: i64) -> (r: i64)
    requires
        geometry::in_range(width as int),
    ensures
        r == geometry::max_of(width - TITLE_CHROME, 1_000),
{
    max_len(width - TITLE_CHROME, 1_000)
}

/// What laying out the title of a trigger needs to know about the text.
#[derive(Clone, Copy, Debug, PartialEq, Eq, Structural)]
pub struct TitleMeasure {
    /// Width of the text on one line.
    pub natural_width: Measure,
    /// Height of the text on one line.
    pub natural_height: Measure,
    /// Height of the text when it is broken at the width of the label.
    pub wrapped_height: Measure,
    /// Whether the text holds a line break of its own.
    pub has_explicit_newline: bool,
}

/// Placement of a trigger's title.
#[derive(Clone, Copy, Debug, PartialEq, Eq, Structural)]
pub struct TitleLayout {
    pub frame: Rect,
    /// Whether the label shows one line only.
    pub single_line: bool,
}

/// The placement of the title in a trigger with the given bounds: left of the
/// arrow, centred, on one line where it fits.
pub open spec fn title_layout(bounds: Size, text: TitleMeasure) -> TitleLayout {
    let width = geometry::max_of(bounds.w - TITLE_CHROME, 1_000);
    let wraps = needs_wrap(text.natural_width, width, text.has_explicit_newline);
    let measured = if wraps {
        text.wrapped_height.larger(text.natural_height)
    } else {
        text.natural_height
    };
    let height = text_height(bounds.h as int, measured);
    TitleLayout {
        frame: Rect {
            x: TITLE_LEADING,
            y: ((geometry::max_of(bounds.h as int, 1_000) - height) / 2) as i64,
            w: width as i64,
            h: height as i64,
        },
        single_line: !wraps,
    }
}

/// Places the title of a trigger.
pub fn settings_select_set_title(bounds: Size, text: TitleMeasure) -> (r: TitleLayout)
    requires
        bounds.valid(),
    ensures
        r == title_layout(bounds, text),
{
    let width = select_label_width(bounds.w);
    let wraps = settings_select_needs_wrap(text.natural_width, width, text.has_explicit_newline);
    let measured = if wraps {
        text.wrapped_height.max(text.natural_height)
    } else {
        text.natural_height
    };
    let (y, h) = settings_select_centered_text_geometry(bounds.h, measured);
    TitleLayout { frame: Rect::new(TITLE_LEADING, y, width, h), single_line: !wraps }
}

/// The arrow of a trigger: at the right edge, centred.
pub open spec fn arrow_frame(bounds: Rect) -> Rect {
    Rect {
        x: (bounds.x + geometry::max_of(bounds.w - ARROW_SIZE - ARROW_TRAILING, 0)) as i64,
        y: (bounds.y + geometry::max_of(bounds.h - ARROW_SIZE, 0) / 2) as i64,
        w: ARROW_SIZE,
        h: ARROW_SIZE,
    }
}

/// Places the arrow of a trigger, and the centre that it turns about.
pub fn select_arrow(bounds: Rect) -> (r: (Rect, Point))
    requires
        bounds.valid(),
    ensures
        r.0 == arrow_frame(bounds),
        r.1.x == r.0.x + 8_000,
        r.1.y == r.0.y + 8_000,
{
    let frame = Rect::new(
        bounds.x + max_len(bounds.w - ARROW_SIZE - ARROW_TRAILING, 0),
        bounds.y + half(max_len(bounds.h - ARROW_SIZE, 0)),
        ARROW_SIZE,
        ARROW_SIZE,
    );
    (frame, Point { x: frame.x + half(frame.w), y: frame.y + half(frame.h) })
}

/// The largest of a floor and the usable measurements, each rounded up to whole
/// points.
pub open spec fn tallest(measured: Seq<Measure>, floor: int) -> int
    decreases measured.len(),
{
    if measured.len() == 0 {
        floor
    } else {
        let rest = tallest(measured.drop_last(), floor);
        match measured.last() {
            Measure::Finite(m) if m > 0 => geometry::max_of(
                rest,
                geometry::ceil_points_of(m as int),
            ),
            _ => rest,
        }
    }
}

/// The height at which every candidate title fits a trigger, from the measured
/// heights of the titles.
pub fn settings_select_required_control_height(
    measured: &Vec<Measure>,
    minimum_height: i64,
) -> (r: i64)
    requires
        geometry::in_range(minimum_height as int),
        forall|i: int| 0 <= i < measured@.len() ==> (#[trigger] measured@[i]).valid(),
    ensures
        r == tallest(measured@, geometry::max_of(minimum_height as int, 1_000)),
        r >= geometry::max_of(minimum_height as int, 1_000),
        r <= geometry::LIMIT + 1_000,
        forall|i: int|
            0 <= i < measured@.len() ==> (#[trigger] measured@[i] matches Measure::Finite(m)
                ==> m <= r),
{
    let mut required = max_len(minimum_height, 1_000);
    let mut i: usize = 0;
    while i < measured.len()
        invariant
            i <= measured@.len(),
            geometry::in_range(minimum_height as int),
            forall|k: int| 0 <= k < measured@.len() ==> (#[trigger] measured@[k]).valid(),
            required == tallest(
                measured@.take(i as int),
                geometry::max_of(minimum_height as int, 1_000),
            ),
            required >= geometry::max_of(minimum_height as int, 1_000),
            required <= geometry::LIMIT + 1_000,
            forall|k: int|
                0 <= k < i ==> (#[trigger] measured@[k] matches Measure::Finite(m)
                    ==> m <= required),
        decreases measured@.len() - i,
    {
        proof {
            assert(measured@.take(i + 1).drop_last() =~= measured@.take(i as int));
            assert(measured@[i as int].valid());
        }
        match measured[i] {
            Measure::Finite(m) => {
                if m > 0 {
                    required = max_len(required, ceil_points(m));
                }
            },
            _ => {},
        }
        i += 1;
    }
    proof {
        assert(measured@.take(measured@.len() as int) =~= measured@);
    }
    required
}

/// The height shared by all option rows, from the measured heights of the titles.
pub fn settings_select_required_option_row_height(measured: &Vec<Measure>) -> (r: i64)
    requires
        forall|i: int| 0 <= i < measured@.len() ==> (#[trigger] measured@[i]).valid(),
    ensures
        r == geometry::max_of(
            geometry::ceil_points_of(tallest(measured@, 1_000) + PANEL_PADDING),
            OPTION_ROW_MIN_HEIGHT as int,
        ),
        r >= OPTION_ROW_MIN_HEIGHT,
{
    let text = settings_select_required_control_height(measured, 1_000);
    max_len(ceil_points(text + PANEL_PADDING), OPTION_ROW_MIN_HEIGHT)
}

/// Where an options panel goes.
#[derive(Clone, Copy, Debug, PartialEq, Eq, Structural)]
pub struct SettingsSelectPanel {
    /// The height that all rows together need.
    pub natural_h: i64,
    /// The height of the panel.
    pub panel_h: i64,
    /// The bottom edge of the panel, in screen coordinates.
    pub panel_y: i64,
    /// Whether the panel opens upwards.
    pub opens_above: bool,
    /// Whether the rows need a scroll view.
    pub scrolls: bool,
}

pub open spec fn natural_height(items: int, row_h: int) -> int {
    items * row_h + PANEL_PADDING
}

/// Room for the panel between the trigger and the lower edge of the screen.
pub open spec fn room_below(trigger: Rect, bounds: Rect) -> int {
    geometry::max_of(trigger.y - bounds.y - PANEL_GAP - PANEL_MARGIN, 0)
}

/// Room for the panel between the trigger and the upper edge of the screen.
pub open spec fn room_above(trigger: Rect, bounds: Rect) -> int {
    geometry::max_of(bounds.top() - trigger.top() - PANEL_GAP - PANEL_MARGIN, 0)
}

/// The panel opens downwards unless it does not fit there and there is more room
/// above.
pub open spec fn panel_above(trigger: Rect, bounds: Rect, items: int, row_h: int) -> bool {
    &&& room_below(trigger, bounds) < natural_height(items, row_h)
    &&& room_above(trigger, bounds) > room_below(trigger, bounds)
}

/// The panel is as high as its rows, or as the room on its side where that is less,
/// but shows one row in any case.
pub open spec fn panel_height(trigger: Rect, bounds: Rect, items: int, row_h: int) -> int {
    let room = if panel_above(trigger, bounds, items, row_h) {
        room_above(trigger, bounds)
    } else {
        room_below(trigger, bounds)
    };
    geometry::max_of(geometry::min_of(natural_height(items, row_h), room), row_h + PANEL_PADDING)
}

/// The bottom edge of the panel before it is moved onto the screen.
pub open spec fn wished_y(trigger: Rect, bounds: Rect, items: int, row_h: int) -> int {
    if panel_above(trigger, bounds, items, row_h) {
        trigger.top() + PANEL_GAP
    } else {
        trigger.y - PANEL_GAP - panel_height(trigger, bounds, items, row_h)
    }
}

pub open spec fn panel_geometry(
    trigger: Rect,
    bounds: Rect,
    items: int,
    row_h: int,
) -> SettingsSelectPanel {
    let natural = natural_height(items, row_h);
    let height = panel_height(trigger, bounds, items, row_h);
    let lowest = bounds.y + PANEL_MARGIN;
    SettingsSelectPanel {
        natural_h: natural as i64,
        panel_h: height as i64,
        panel_y: geometry::clamp_of(
            wished_y(trigger, bounds, items, row_h),
            lowest,
            geometry::max_of(bounds.top() - height - PANEL_MARGIN, lowest),
        ) as i64,
        opens_above: panel_above(trigger, bounds, items, row_h),
        scrolls: height + 500 < natural,
    }
}

/// Resolves size, side and position of an options panel within the visible part of
/// the screen.
pub fn settings_select_panel_geometry(
    trigger: Rect,
    bounds: Rect,
    item_count: usize,
    row_h: i64,
) -> (r: SettingsSelectPanel)
    requires
        trigger.valid(),
        bounds.valid(),
        geometry::in_range(row_h as int),
        geometry::in_range(item_count as int * row_h as int),
        item_count <= i64::MAX,
    ensures
        r == panel_geometry(trigger, bounds, item_count as int, row_h as int),
        r.natural_h == natural_height(item_count as int, row_h as int),
        r.panel_h == panel_height(trigger, bounds, item_count as int, row_h as int),
{
    let natural_h = item_count as i64 * row_h + PANEL_PADDING;
    let bounds_top = bounds.y + bounds.h;
    let below = trigger.y - bounds.y;
    let above = bounds_top - (trigger.y + trigger.h);
    let below_room = max_len(below - PANEL_GAP - PANEL_MARGIN, 0);
    let above_room = max_len(above - PANEL_GAP - PANEL_MARGIN, 0);
    let opens_above = below_room < natural_h && above_room > below_room;
    let room = if opens_above { above_room } else { below_room };
    let panel_h = max_len(min_len(natural_h, room), row_h + PANEL_PADDING);
    let wished = if opens_above {
        trigger.y + trigger.h + PANEL_GAP
    } else {
        trigger.y - PANEL_GAP - panel_h
    };
    let lowest = bounds.y + PANEL_MARGIN;
    let panel_y = clamp_len(wished, lowest, max_len(bounds_top - panel_h - PANEL_MARGIN, lowest));
    SettingsSelectPanel {
        natural_h,
        panel_h,
        panel_y,
        opens_above,
        scrolls: panel_h + 500 < natural_h,
    }
}

/// On a screen that is high enough for one row, the panel of a trigger on that
/// screen keeps the margin to both the lower and the upper edge.
pub proof fn panel_stays_on_screen(trigger: Rect, bounds: Rect, items: int, row_h: int)
    requires
        trigger.valid(),
        bounds.valid(),
        0 <= items,
        0 <= row_h,
        geometry::in_range(items * row_h),
        geometry::in_range(row_h),
        bounds.y <= trigger.y,
        trigger.h >= 0,
        trigger.top() <= bounds.top(),
        row_h + PANEL_PADDING + 2 * PANEL_MARGIN <= bounds.h,
    ensures
        ({
            let p = panel_geometry(trigger, bounds, items, row_h);
            &&& bounds.y + PANEL_MARGIN <= p.panel_y
            &&& p.panel_y + p.panel_h <= bounds.top() - PANEL_MARGIN
        }),
{
}

/// The panel is never lower than one row with its padding, and never higher than
/// its rows need once there is a row.
pub proof fn panel_shows_a_row(trigger: Rect, bounds: Rect, items: int, row_h: int)
    requires
        trigger.valid(),
        bounds.valid(),
        1 <= items,
        0 <= row_h,
        geometry::in_range(items * row_h),
        geometry::in_range(row_h),
    ensures
        ({
            let p = panel_geometry(trigger, bounds, items, row_h);
            &&& row_h + PANEL_PADDING <= p.panel_h
            &&& p.panel_h <= p.natural_h
        }),
{
    assert(row_h <= items * row_h) by (nonlinear_arith)
        requires
            1 <= items,
            0 <= row_h,
    ;
}

/// Where all rows fit on one side of the trigger the panel shows them all, without
/// scrolling.
pub proof fn panel_keeps_full_height_when_it_fits(
    trigger: Rect,
    bounds: Rect,
    items: int,
    row_h: int,
)
    requires
        trigger.valid(),
        bounds.valid(),
        1 <= items,
        0 <= row_h,
        geometry::in_range(items * row_h),
        geometry::in_range(row_h),
        natural_height(items, row_h) <= geometry::max_of(
            room_below(trigger, bounds),
            room_above(trigger, bounds),
        ),
    ensures
        ({
            let p = panel_geometry(trigger, bounds, items, row_h);
            &&& p.panel_h == p.natural_h
            &&& !p.scrolls
        }),
{
    panel_shows_a_row(trigger, bounds, items, row_h);
}

/// A panel that is not moved onto the screen leaves exactly the gap to its trigger,
/// and does not cover it.
pub proof fn panel_clears_its_trigger(trigger: Rect, bounds: Rect, items: int, row_h: int)
    requires
        trigger.valid(),
        bounds.valid(),
        1 <= items,
        0 <= row_h,
        geometry::in_range(items * row_h),
        geometry::in_range(row_h),
        bounds.y <= trigger.y,
        trigger.h >= 0,
        trigger.top() <= bounds.top(),
        row_h + PANEL_PADDING <= if panel_above(trigger, bounds, items, row_h) {
            room_above(trigger, bounds)
        } else {
            room_below(trigger, bounds)
        },
    ensures
        ({
            let p = panel_geometry(trigger, bounds, items, row_h);
            if p.opens_above {
                p.panel_y == trigger.top() + PANEL_GAP
            } else {
                p.panel_y + p.panel_h == trigger.y - PANEL_GAP
            }
        }),
{
    panel_shows_a_row(trigger, bounds, items, row_h);
}

/// Everything about an opening panel that follows from where its trigger is.
pub struct SelectOpenLayout {
    pub geometry: SettingsSelectPanel,
    /// The panel within its window.
    pub panel: Rect,
    /// The window, in screen coordinates.
    pub window: Rect,
    /// Size of the scrolled document, of which the panel shows a part where it
    /// scrolls.
    pub document: Size,
    /// Scroll position at which the first row is visible.
    pub top_origin: i64,
    /// Vertical distance that the panel slides in from.
    pub slide_from: i64,
    /// The rows, first to last, in the coordinates of the panel or its document.
    pub rows: Vec<Rect>,
}

/// The width of the panel of a trigger.
pub open spec fn panel_width(trigger: Rect) -> int {
    geometry::max_of(trigger.w as int, PANEL_MIN_WIDTH as int)
}

/// The row with the given number: rows follow each other downwards from the upper
/// padding.
pub open spec fn option_row(width: int, items: int, row_h: int, index: int) -> Rect {
    Rect {
        x: 4_000,
        y: (natural_height(items, row_h) - 4_000 - (index + 1) * row_h) as i64,
        w: geometry::max_of(width - 8_000, 1_000) as i64,
        h: row_h as i64,
    }
}

/// Lays out the panel of a select that is being opened. Without a screen the
/// trigger itself stands in for the visible area.
pub fn settings_select_open_layout(
    trigger: Rect,
    screen_visible: Option<Rect>,
    item_count: usize,
    row_h: i64,
) -> (r: SelectOpenLayout)
    requires
        trigger.valid(),
        screen_visible matches Some(s) ==> s.valid(),
        0 <= row_h,
        geometry::in_range(row_h as int),
        geometry::in_range(item_count as int * row_h as int),
        item_count < i64::MAX,
    ensures
        ({
            let visible = match screen_visible {
                Some(s) => s,
                None => trigger,
            };
            let pad = SELECT_POPUP_SHADOW_PAD;
            let width = panel_width(trigger);
            let g = panel_geometry(trigger, visible, item_count as int, row_h as int);
            &&& r.geometry == g
            &&& r.panel == (Rect { x: pad, y: pad, w: width as i64, h: g.panel_h })
            &&& r.window.x == trigger.x - pad
            &&& r.window.y == g.panel_y - pad
            &&& r.window.w == width + 2 * pad
            &&& r.window.h == g.panel_h + 2 * pad
            &&& r.document == (Size { w: width as i64, h: g.natural_h })
            &&& r.top_origin == geometry::max_of(g.natural_h - g.panel_h, 0)
            &&& r.slide_from == if g.opens_above { -8_000int } else { 8_000 }
            &&& r.rows@ == Seq::new(
                item_count as nat,
                |i: int| option_row(width, item_count as int, row_h as int, i),
            )
        }),
{
    let visible = match screen_visible {
        Some(s) => s,
        None => trigger,
    };
    let width = max_len(trigger.w, PANEL_MIN_WIDTH);
    let g = settings_select_panel_geometry(trigger, visible, item_count, row_h);
    let pad = SELECT_POPUP_SHADOW_PAD;
    let mut rows: Vec<Rect> = Vec::new();
    let mut i: usize = 0;
    while i < item_count
        invariant
            i <= item_count,
            item_count < i64::MAX,
            0 <= row_h,
            geometry::in_range(row_h as int),
            geometry::in_range(item_count as int * row_h as int),
            geometry::in_range(width as int),
            g.natural_h == natural_height(item_count as int, row_h as int),
            rows@ =~= Seq::new(
                i as nat,
                |k: int| option_row(width as int, item_count as int, row_h as int, k),
            ),
        decreases item_count - i,
    {
        proof {
            assert(0 <= (i + 1) * row_h <= item_count * row_h) by (nonlinear_arith)
                requires
                    0 <= i < item_count,
                    0 <= row_h,
            ;
        }
        rows.push(
            Rect::new(
                4_000,
                g.natural_h - 4_000 - (i as i64 + 1) * row_h,
                max_len(width - 8_000, 1_000),
                row_h,
            ),
        );
        i += 1;
    }
    SelectOpenLayout {
        geometry: g,
        panel: Rect::new(pad, pad, width, g.panel_h),
        window: Rect::new(trigger.x - pad, g.panel_y - pad, width + 2 * pad, g.panel_h + 2 * pad),
        document: Size { w: width, h: g.natural_h },
        top_origin: max_len(g.natural_h - g.panel_h, 0),
        slide_from: if g.opens_above { -8_000 } else { 8_000 },
        rows,
    }
}

/// The rows of a panel follow each other without gap or overlap, and the first and
/// the last leave half of the padding to the edges.
pub proof fn rows_tile_the_panel(width: int, items: int, row_h: int, i: int)
    requires
        0 <= i < items,
        0 <= row_h,
        geometry::in_range(row_h),
        geometry::in_range(items * row_h),
    ensures
        option_row(width, items, row_h, 0).top() == natural_height(items, row_h) - 4_000,
        option_row(width, items, row_h, items - 1).y == 4_000,
        i + 1 < items ==> option_row(width, items, row_h, i + 1).top() == option_row(
            width,
            items,
            row_h,
            i,
        ).y,
{
    assert((i + 1) * row_h == i * row_h + row_h) by (nonlinear_arith);
    assert((i + 2) * row_h == i * row_h + 2 * row_h) by (nonlinear_arith);
    assert(0 <= i * row_h && (i + 1) * row_h <= items * row_h) by (nonlinear_arith)
        requires
            0 <= i < items,
            0 <= row_h,
    ;
    assert(i + 2 <= items ==> (i + 2) * row_h <= items * row_h) by (nonlinear_arith)
        requires
            0 <= row_h,
    ;
    assert(row_h <= items * row_h) by (nonlinear_arith)
        requires
            0 <= i < items,
            0 <= row_h,
    ;
}

/// Placement of the parts of one option row.
#[derive(Clone, Copy, Debug, PartialEq, Eq, Structural)]
pub struct OptionRowLayout {
    pub label: Rect,
    /// The mark of the chosen option.
    pub check: Rect,
    /// The area that follows the pointer.
    pub tracking: Rect,
    /// Milliseconds until the row appears.
    pub reveal_delay_ms: u64,
}

/// The text of an option row begins right of its symbol where it has one, and ends
/// before the check mark; text and mark are centred.
pub open spec fn option_row_layout(
    width: int,
    row_h: int,
    has_symbol: bool,
    wrapped: Measure,
    index: int,
) -> OptionRowLayout {
    let item_w = geometry::max_of(width - 8_000, 1_000);
    let label_x: int = if has_symbol { 28_000 } else { 8_000 };
    let text_h = match wrapped {
        Measure::Finite(h) if h > 0 => geometry::max_of(geometry::min_of(h as int, row_h), 1_000),
        _ => geometry::max_of(row_h, 1_000),
    };
    OptionRowLayout {
        label: Rect {
            x: label_x as i64,
            y: (geometry::max_of(row_h - text_h, 0) / 2) as i64,
            w: geometry::max_of(item_w - label_x - 30_000, 1_000) as i64,
            h: text_h as i64,
        },
        check: Rect {
            x: geometry::max_of(item_w - 24_000, 0) as i64,
            y: (geometry::max_of(row_h - 14_000, 0) / 2) as i64,
            w: 14_000,
            h: 14_000,
        },
        tracking: Rect { x: 0, y: 0, w: item_w as i64, h: row_h as i64 },
        reveal_delay_ms: (50 + 35 * index) as u64,
    }
}

/// The width at which the title of an option row is broken into lines.
pub fn option_label_width(width: i64, has_symbol: bool) -> (r: i64)
    requires
        geometry::in_range(width as int),
    ensures
        r == option_row_layout(width as int, 0, has_symbol, Measure::Absent, 0).label.w,
{
    let item_w = max_len(width - 8_000, 1_000);
    let label_x: i64 = if has_symbol { 28_000 } else { 8_000 };
    max_len(item_w - label_x - 30_000, 1_000)
}

/// Lays out one option row of a panel.
pub fn settings_select_make_item(
    width: i64,
    row_h: i64,
    has_symbol: bool,
    wrapped_height: Measure,
    index: usize,
) -> (r: OptionRowLayout)
    requires
        geometry::in_range(width as int),
        geometry::in_range(row_h as int),
        index <= 1_000_000_000,
    ensures
        r == option_row_layout(
            width as int,
            row_h as int,
            has_symbol,
            wrapped_height,
            index as int,
        ),
{
    let item_w = max_len(width - 8_000, 1_000);
    let label_x: i64 = if has_symbol { 28_000 } else { 8_000 };
    let text_h = match wrapped_height {
        Measure::Finite(h) => if h > 0 {
            max_len(min_len(h, row_h), 1_000)
        } else {
            max_len(row_h, 1_000)
        },
        _ => max_len(row_h, 1_000),
    };
    OptionRowLayout {
        label: Rect::new(
            label_x,
            half(max_len(row_h - text_h, 0)),
            option_label_width(width, has_symbol),
            text_h,
        ),
        check: Rect::new(
            max_len(item_w - 24_000, 0),
            half(max_len(row_h - 14_000, 0)),
            14_000,
            14_000,
        ),
        tracking: Rect::new(0, 0, item_w, row_h),
        reveal_delay_ms: 50 + 35 * (index as u64),
    }
}

/// In every panel the text of a row ends left of the check mark, and the mark ends
/// inside the row.
pub proof fn option_text_clears_the_check_mark(
    trigger: Rect,
    row_h: int,
    has_symbol: bool,
    wrapped: Measure,
    index: int,
)
    requires
        trigger.valid(),
        geometry::in_range(row_h),
    ensures
        ({
            let row = option_row_layout(panel_width(trigger), row_h, has_symbol, wrapped, index);
            &&& row.label.right() <= row.check.x
            &&& row.check.right() <= row.tracking.w
        }),
{
}

/// A title is broken only where it must be: by a line break of its own, or because it is more
/// than half a point too wide. A width that is not known never breaks it.
pub proof fn titles_wrap_only_where_they_must(n: i64, available: int)
    requires
        available >= 1_000,
    ensures
        needs_wrap(Measure::Finite(n), available, true),
        n <= available + 500 ==> !needs_wrap(Measure::Finite(n), available, false),
        n > available + 500 ==> needs_wrap(Measure::Finite(n), available, false),
        !needs_wrap(Measure::Absent, available, false),
        !needs_wrap(Measure::Unbounded, available, false),
        needs_wrap(Measure::Absent, available, true),
{
}

/// A text is as high as it was measured, but not higher than its control and not lower than
/// a point; without a measurement it takes the whole control.
pub proof fn texts_fit_their_control(control: int, m: i64)
    requires
        control >= 1_000,
    ensures
        1_000 <= m <= control ==> text_height(control, Measure::Finite(m)) == m,
        m > control ==> text_height(control, Measure::Finite(m)) == control,
        m < 1_000 ==> text_height(control, Measure::Finite(m)) == 1_000,
        text_height(control, Measure::Absent) == control,
        text_height(control, Measure::Unbounded) == control,
{
}

/// The title of a trigger starts 12 points from its left edge, leaves 36 points at its right
/// end for the arrow, and is centred. A broken title is given the height that it needs then.
pub proof fn titles_leave_room_for_the_arrow(bounds: Size, text: TitleMeasure)
    requires
        bounds.valid(),
        49_000 <= bounds.w,
        1_000 <= bounds.h,
    ensures
        ({
            let t = title_layout(bounds, text);
            &&& t.frame.x == 12_000
            &&& bounds.w - t.frame.right() == 36_000
            &&& 1_000 <= t.frame.h <= bounds.h
            &&& -1 <= t.frame.twice_mid_y() - bounds.h <= 0
            &&& text.has_explicit_newline ==> !t.single_line
            &&& !text.has_explicit_newline ==> (t.single_line <==> !(text.natural_width matches
                Measure::Finite(n) && n > t.frame.w + 500))
            &&& t.single_line ==> t.frame.h == text_height(bounds.h as int, text.natural_height)
            &&& !t.single_line ==> t.frame.h == text_height(
                bounds.h as int,
                text.wrapped_height.larger(text.natural_height),
            )
        }),
{
}

/// The arrow of a trigger is a square of 16 points, centred, 12 points from the right edge;
/// it does not touch the title.
pub proof fn arrows_stand_at_the_right(bounds: Rect, text: TitleMeasure)
    requires
        bounds.valid(),
        49_000 <= bounds.w,
        16_000 <= bounds.h,
    ensures
        ({
            let a = arrow_frame(bounds);
            &&& a.w == 16_000 && a.h == 16_000
            &&& bounds.right() - a.right() == 12_000
            &&& -1 <= a.twice_mid_y() - bounds.twice_mid_y() <= 0
            &&& a.x - bounds.x - title_layout(Size { w: bounds.w, h: bounds.h }, text).frame.right()
                == 8_000
        }),
{
}

/// The height that fits all titles is at least the one asked for and that of every title,
/// and no higher than one of them needs.
pub proof fn tallest_fits_every_title(measured: Seq<Measure>, floor: int, i: int)
    ensures
        tallest(measured, floor) >= floor,
        0 <= i < measured.len() ==> (measured[i] matches Measure::Finite(m) ==> m > 0 ==> tallest(
            measured,
            floor,
        ) >= m),
        tallest(measured, floor) == floor || exists|k: int|
            0 <= k < measured.len() && (#[trigger] measured[k] matches Measure::Finite(m) && m > 0
                && tallest(measured, floor) < m + 1_000),
    decreases measured.len(),
{
    if measured.len() > 0 {
        let rest = measured.drop_last();
        tallest_fits_every_title(rest, floor, i);
        if tallest(rest, floor) != floor {
            let k = choose|k: int|
                0 <= k < rest.len() && (#[trigger] rest[k] matches Measure::Finite(m) && m > 0
                    && tallest(rest, floor) < m + 1_000);
            assert(measured[k] == rest[k]);
        }
        if 0 <= i < rest.len() {
            assert(rest[i] == measured[i]);
        }
        let last = measured[measured.len() - 1];
        assert(last == measured.last());
    }
}

/// The rows of a panel and 4 points above and below them make its natural height. Between the
/// trigger and the edge of the screen 8 points are left beside the trigger and 4 at the edge.
pub proof fn panels_leave_their_gaps(trigger: Rect, bounds: Rect, items: int, row_h: int)
    requires
        0 <= items,
    ensures
        natural_height(items, row_h) - items * row_h == 8_000,
        natural_height(items + 1, row_h) - natural_height(items, row_h) == row_h,
        trigger.y - bounds.y >= 12_000 ==> room_below(trigger, bounds) == trigger.y - bounds.y
            - 12_000,
        bounds.top() - trigger.top() >= 12_000 ==> room_above(trigger, bounds) == bounds.top()
            - trigger.top() - 12_000,
        trigger.y - bounds.y <= 12_000 ==> room_below(trigger, bounds) == 0,
        bounds.top() - trigger.top() <= 12_000 ==> room_above(trigger, bounds) == 0,
{
    assert((items + 1) * row_h == items * row_h + row_h) by (nonlinear_arith);
}

/// A panel that fits below its trigger opens downwards, and so does one for which there is no
/// more room above; it opens upwards only for more room.
pub proof fn panels_prefer_to_open_downwards(trigger: Rect, bounds: Rect, items: int, row_h: int)
    ensures
        natural_height(items, row_h) <= room_below(trigger, bounds) ==> !panel_above(
            trigger,
            bounds,
            items,
            row_h,
        ),
        room_above(trigger, bounds) <= room_below(trigger, bounds) ==> !panel_above(
            trigger,
            bounds,
            items,
            row_h,
        ),
        room_below(trigger, bounds) < natural_height(items, row_h) && room_below(trigger, bounds)
            < room_above(trigger, bounds) ==> panel_above(trigger, bounds, items, row_h),
        !panel_above(trigger, bounds, items, row_h) && row_h + 8_000 <= room_below(trigger, bounds)
            ==> panel_height(trigger, bounds, items, row_h) <= geometry::max_of(
            room_below(trigger, bounds),
            row_h + 8_000,
        ),
        panel_above(trigger, bounds, items, row_h) && row_h + 8_000 <= room_above(trigger, bounds)
            ==> panel_height(trigger, bounds, items, row_h) <= room_above(trigger, bounds),
{
}

/// A panel scrolls where it is more than half a point lower than its rows, and only there.
pub proof fn low_panels_scroll(trigger: Rect, bounds: Rect, items: int, row_h: int)
    requires
        trigger.valid(),
        bounds.valid(),
        geometry::in_range(row_h),
        geometry::in_range(items * row_h),
    ensures
        ({
            let p = panel_geometry(trigger, bounds, items, row_h);
            &&& p.scrolls <==> p.natural_h - p.panel_h > 500
            &&& p.natural_h == items * row_h + 8_000
            &&& p.opens_above == panel_above(trigger, bounds, items, row_h)
            &&& p.panel_h == panel_height(trigger, bounds, items, row_h)
        }),
{
}

/// A panel is as wide as its trigger, but at least 120 points; its rows are inset by 4 points
/// on both sides, and all of one height.
pub proof fn panels_are_as_wide_as_their_triggers(trigger: Rect, items: int, row_h: int, i: int)
    requires
        trigger.valid(),
        0 <= i < items,
        0 <= row_h,
        geometry::in_range(row_h),
        geometry::in_range(items * row_h),
    ensures
        trigger.w >= 120_000 ==> panel_width(trigger) == trigger.w,
        trigger.w < 120_000 ==> panel_width(trigger) == 120_000,
        ({
            let row = option_row(panel_width(trigger), items, row_h, i);
            &&& row.x == 4_000
            &&& panel_width(trigger) - row.right() == 4_000
            &&& row.h == row_h
        }),
{
}

/// An option row has its text 8 points from the left, or 28 beside a symbol, and its check mark
/// 10 points from the right, both centred. It reacts to the pointer over its whole width, and
/// appears 35 milliseconds after the one before it, the first after 50.
pub proof fn option_rows_have_their_parts(
    width: int,
    row_h: int,
    has_symbol: bool,
    wrapped: Measure,
    index: int,
)
    requires
        120_000 <= width <= geometry::LIMIT,
        14_000 <= row_h <= geometry::LIMIT,
        0 <= index <= 1_000_000_000,
    ensures
        ({
            let r = option_row_layout(width, row_h, has_symbol, wrapped, index);
            &&& r.label.x == if has_symbol { 28_000int } else { 8_000 }
            &&& r.tracking.x == 0 && r.tracking.y == 0
            &&& r.tracking.w == width - 8_000 && r.tracking.h == row_h
            &&& r.label.right() == r.tracking.w - 30_000
            &&& r.check.w == 14_000 && r.check.h == 14_000
            &&& r.check.right() == r.tracking.w - 10_000
            &&& -1 <= r.check.twice_mid_y() - row_h <= 0
            &&& -1 <= r.label.twice_mid_y() - row_h <= 0
            &&& r.label.h <= row_h
            &&& wrapped matches Measure::Finite(h) ==> 1_000 <= h <= row_h ==> r.label.h == h
            &&& !(wrapped is Finite) ==> r.label.h == row_h
            &&& r.reveal_delay_ms == 50 + 35 * index
        }),
{
}

/// The window of a panel leaves 12 points round it for the shadow, and an option row is at
/// least 32 points high.
pub proof fn panels_have_room_for_their_shadow()
    ensures
        SELECT_POPUP_SHADOW_PAD == 12_000,
        OPTION_ROW_MIN_HEIGHT == 32_000,
{
}

} // verus!
