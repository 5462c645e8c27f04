//! The glass tint: colour notation, the colour panel beside the window, and the
//! preview tiles.
use vstd::prelude::*;

use crate::config::Config;
use crate::geometry::{clamp_len, half, max_len, min_len, Measure, Point, Rect};
use crate::text::{push_hex_byte, same_text};
#[allow(unused_imports)]
use crate::config::AppearanceConfig;
#[allow(unused_imports)]
use crate::{geometry, text};

verus! {

/// The byte of a colour component given in millionths: kept between nothing and all,
/// rounded to the nearest byte.
pub open spec fn component_byte(component: Measure) -> int {
    match component {
        Measure::Finite(c) => (geometry::clamp_of(c as int, 0, 1_000_000) * 255 + 500_000)
            / 1_000_000,
        Measure::Unbounded => 255,
        Measure::Absent => 0,
    }
}

/// The byte of a colour component given in millionths.
pub fn color_component_to_byte(component: Measure) -> (r: u8)
    ensures
        r == component_byte(component),
{
    match component {
        Measure::Finite(c) => ((clamp_len(c, 0, 1_000_000) * 255 + 500_000) / 1_000_000) as u8,
        Measure::Unbounded => 255,
        Measure::Absent => 0,
    }
}

/// A byte survives being written as a component and read back.
pub proof fn component_round_trip(byte: u8)
    ensures
        component_byte(Measure::Finite(((byte * 1_000_000 + 127) / 255) as i64)) == byte,
{
}

/// A colour as eight lower-case hexadecimal digits: red, green, blue and alpha.
pub fn rgba_hex_from_components(
    red: Measure,
    green: Measure,
    blue: Measure,
    alpha: Measure,
) -> (r: String)
    ensures
        r@ == text::hex_byte(component_byte(red) as u8) + text::hex_byte(
            component_byte(green) as u8,
        ) + text::hex_byte(component_byte(blue) as u8) + text::hex_byte(
            component_byte(alpha) as u8,
        ),
        r@.len() == 8,
{
    let mut out = String::new();
    push_hex_byte(&mut out, color_component_to_byte(red));
    push_hex_byte(&mut out, color_component_to_byte(green));
    push_hex_byte(&mut out, color_component_to_byte(blue));
    push_hex_byte(&mut out, color_component_to_byte(alpha));
    assert(out@ =~= text::hex_byte(component_byte(red) as u8) + text::hex_byte(
        component_byte(green) as u8,
    ) + text::hex_byte(component_byte(blue) as u8) + text::hex_byte(component_byte(alpha) as u8));
    out
}

/// Places the colour well at the right end of the control column.
pub fn make_color_well(x: i64, y: i64, w: i64, h: i64) -> (r: Rect)
    requires
        geometry::near(x as int),
        geometry::near(w as int),
    ensures
        r.right() == x + w,
        r.w == 52_000,
        r.y == y,
        r.h == h,
{
    Rect::new(x + w - 52_000, y, 52_000, h)
}

/// Distances of the window and the colour panel from each other and from the edge of
/// the screen.
#[derive(Clone, Copy, Debug, PartialEq, Eq, Structural)]
pub struct GroupSpacing {
    pub gap: i64,
    pub margin: i64,
}

/// Width of window, gap and colour panel.
pub open spec fn group_width(settings: Rect, panel: Rect, spacing: GroupSpacing) -> int {
    settings.w + spacing.gap + panel.w
}

/// Whether the group fits the width of the screen with a margin on both sides.
pub open spec fn group_fits(
    settings: Rect,
    panel: Rect,
    screen: Rect,
    spacing: GroupSpacing,
) -> bool {
    group_width(settings, panel, spacing) + 2 * spacing.margin <= screen.w
}

/// The left edge of the group: centred on the screen where it fits, else at the left
/// margin.
pub open spec fn group_x(
    settings: Rect,
    panel: Rect,
    screen: Rect,
    spacing: GroupSpacing,
) -> int {
    let w = group_width(settings, panel, spacing);
    if group_fits(settings, panel, screen, spacing) {
        geometry::min_of(
            geometry::max_of(screen.x + (screen.w - w) / 2, screen.x + spacing.margin),
            screen.right() - spacing.margin - w,
        )
    } else {
        screen.x + spacing.margin
    }
}

/// The lower edge of the panel: centred against the window, kept on the screen.
pub open spec fn panel_y(
    settings: Rect,
    panel: Rect,
    screen: Rect,
    spacing: GroupSpacing,
) -> int {
    let min_y = screen.y + spacing.margin;
    let max_y = screen.top() - spacing.margin - panel.h;
    if max_y >= min_y {
        geometry::min_of(
            geometry::max_of(settings.y + (settings.h - panel.h) / 2, min_y),
            max_y,
        )
    } else {
        min_y
    }
}

/// Places the window and the colour panel beside each other, as one group.
pub fn glass_tint_group_frames(
    settings: Rect,
    panel: Rect,
    screen: Rect,
    spacing: GroupSpacing,
) -> (r: (Rect, Rect))
    requires
        settings.valid(),
        panel.valid(),
        screen.valid(),
        geometry::in_range(spacing.gap as int),
        geometry::in_range(spacing.margin as int),
    ensures
        r.0.x == group_x(settings, panel, screen, spacing),
        r.0 == (Rect { x: r.0.x, ..settings }),
        r.1.x == group_x(settings, panel, screen, spacing) + settings.w + spacing.gap,
        r.1.y == panel_y(settings, panel, screen, spacing),
        r.1 == (Rect { x: r.1.x, y: r.1.y, ..panel }),
{
    let group_w = settings.w + spacing.gap + panel.w;
    let min_x = screen.x + spacing.margin;
    let max_x = screen.x + screen.w - spacing.margin;
    let left = if group_w + 2 * spacing.margin <= screen.w {
        min_len(max_len(screen.x + half(screen.w - group_w), min_x), max_x - group_w)
    } else {
        min_x
    };
    let min_y = screen.y + spacing.margin;
    let max_y = screen.y + screen.h - spacing.margin - panel.h;
    let centered_y = settings.y + half(settings.h - panel.h);
    let bottom = if max_y >= min_y {
        min_len(max_len(centered_y, min_y), max_y)
    } else {
        min_y
    };
    (
        Rect::new(left, settings.y, settings.w, settings.h),
        Rect::new(left + settings.w + spacing.gap, bottom, panel.w, panel.h),
    )
}

/// Where the group fits the screen, both windows keep the margin to its sides, and
/// where the panel fits it, to its upper and lower edge.
pub proof fn group_stays_on_screen(
    settings: Rect,
    panel: Rect,
    screen: Rect,
    spacing: GroupSpacing,
)
    requires
        settings.valid(),
        panel.valid(),
        screen.valid(),
        geometry::in_range(spacing.gap as int),
        geometry::in_range(spacing.margin as int),
    ensures
        group_fits(settings, panel, screen, spacing) ==> {
            let x = group_x(settings, panel, screen, spacing);
            &&& screen.x + spacing.margin <= x
            &&& x + group_width(settings, panel, spacing) <= screen.right() - spacing.margin
        },
        panel.h + 2 * spacing.margin <= screen.h ==> {
            let y = panel_y(settings, panel, screen, spacing);
            &&& screen.y + spacing.margin <= y
            &&& y + panel.h <= screen.top() - spacing.margin
        },
{
}

/// Where the group fits the screen, it is as far from one side as from the other, and a
/// panel that stays on the screen that way is as high above the lower edge of the window
/// as its upper edge is below that of the window. An odd difference leaves one thousandth
/// more on the far side.
pub proof fn group_is_centred(settings: Rect, panel: Rect, screen: Rect, spacing: GroupSpacing)
    ensures
        group_fits(settings, panel, screen, spacing) ==> {
            let w = group_width(settings, panel, spacing);
            let left = group_x(settings, panel, screen, spacing) - screen.x;
            let right = screen.w - left - w;
            right == left + (screen.w - w) % 2
        },
        ({
            let min_y = screen.y + spacing.margin;
            let max_y = screen.top() - spacing.margin - panel.h;
            let below = panel_y(settings, panel, screen, spacing) - settings.y;
            let above = settings.h - below - panel.h;
            min_y <= settings.y + (settings.h - panel.h) / 2 <= max_y ==> above == below + (
            settings.h - panel.h) % 2
        }),
{
}

/// Where the window was before the colour panel opened.
#[derive(Clone, Copy, Debug, PartialEq, Eq, Structural)]
pub struct GroupOrigin {
    pub original: Option<Point>,
}

impl GroupOrigin {
    /// Remembers where the window is, unless that is remembered already.
    pub fn position_glass_tint_group(&mut self, window: Point, save_original: bool)
        ensures
            final(self).original == if save_original && old(self).original is None {
                Some(window)
            } else {
                old(self).original
            },
    {
        if save_original && self.original.is_none() {
            self.original = Some(window);
        }
    }

    /// The place to bring the window back to; a second call has nothing to do.
    pub fn restore_glass_tint_group(&mut self) -> (r: Option<Point>)
        ensures
            r == old(self).original,
            final(self).original is None,
    {
        self.original.take()
    }
}

/// What is done to close the colour panel.
#[derive(Clone, Copy, Debug, PartialEq, Eq, Structural)]
pub struct TintPanelClose {
    /// The colour well is told that it is no longer in use.
    pub deactivate_well: bool,
    /// The panel is hidden.
    pub hide_panel: bool,
    /// Where the window goes back to.
    pub window: Option<Point>,
}

impl GroupOrigin {
    /// Closes the colour panel. A panel is hidden even where its well does not say that
    /// it is in use, and the window goes back to where it was.
    pub fn close_glass_tint_panel(&mut self, well: usize, well_active: bool, has_panel: bool) -> (r:
        TintPanelClose)
        ensures
            r == (TintPanelClose {
                deactivate_well: well != 0 && well_active,
                hide_panel: has_panel,
                window: old(self).original,
            }),
            final(self).original is None,
    {
        let window = self.restore_glass_tint_group();
        TintPanelClose { deactivate_well: well != 0 && well_active, hide_panel: has_panel, window }
    }
}

/// Width of the accessory below the colour panel, and the frame of its button. The
/// button has the width of its title, within limits.
pub fn configure_glass_tint_panel(panel_w: i64, fitting_w: i64) -> (r: (i64, Rect))
    requires
        geometry::in_range(panel_w as int),
        geometry::in_range(fitting_w as int),
    ensures
        ({
            let accessory = geometry::max_of(panel_w as int, 250_000);
            let widest = accessory - 16_000;
            let w = if fitting_w > 0 {
                geometry::clamp_of(fitting_w as int, 80_000, widest)
            } else {
                geometry::min_of(widest, 140_000)
            };
            &&& r.0 == accessory
            &&& r.1.w == w
            &&& r.1.x == (accessory - w) / 2
            &&& r.1.y == 3_000
            &&& r.1.h == 28_000
        }),
{
    let accessory_w = max_len(panel_w, 250_000);
    let widest = accessory_w - 16_000;
    let w = if fitting_w > 0 {
        clamp_len(fitting_w, 80_000, widest)
    } else {
        min_len(widest, 140_000)
    };
    (accessory_w, Rect::new(half(accessory_w - w), 3_000, w, 28_000))
}

/// One tile of a preview.
#[derive(Clone, Copy, Debug, PartialEq, Eq, Structural)]
pub struct PreviewTile {
    pub frame: Rect,
    pub color: u32,
    pub radius: i64,
}

/// Width of the two tiles of the switcher preview.
pub open spec fn preview_tile_width(w: int) -> int {
    geometry::max_of((w - 42_000) / 2, 56_000)
}

/// The tiles of a preview: two windows for the switcher, three lines for the
/// clipboard.
pub fn make_glass_preview(w: i64, h: i64, switcher: bool) -> (r: Vec<PreviewTile>)
    requires
        geometry::in_range(w as int),
        geometry::in_range(h as int),
    ensures
        switcher ==> r@ == seq![
            PreviewTile {
                frame: Rect { x: 14_000, y: 19_000, w: preview_tile_width(w as int) as i64, h: 52_000 },
                color: 0xFFFFFF78,
                radius: 10_000,
            },
            PreviewTile {
                frame: Rect {
                    x: (w - 14_000 - preview_tile_width(w as int)) as i64,
                    y: 19_000,
                    w: preview_tile_width(w as int) as i64,
                    h: 52_000,
                },
                color: 0xFFFFFF90,
                radius: 10_000,
            },
        ],
        !switcher ==> r@ == seq![
            PreviewTile {
                frame: Rect { x: 12_000, y: (h - 22_000) as i64, w: (w - 24_000) as i64, h: 10_000 },
                color: 0xFFFFFF70,
                radius: 5_000,
            },
            PreviewTile {
                frame: Rect { x: 12_000, y: 25_000, w: (w - 24_000) as i64, h: 12_000 },
                color: 0xFFFFFF62,
                radius: 5_000,
            },
            PreviewTile {
                frame: Rect { x: 12_000, y: 9_000, w: (w - 42_000) as i64, h: 8_000 },
                color: 0xFFFFFF48,
                radius: 4_000,
            },
        ],
{
    let mut tiles: Vec<PreviewTile> = Vec::new();
    if switcher {
        let tile_w = max_len(half(w - 42_000), 56_000);
        tiles.push(
            PreviewTile {
                frame: Rect::new(14_000, 19_000, tile_w, 52_000),
                color: 0xFFFFFF78,
                radius: 10_000,
            },
        );
        tiles.push(
            PreviewTile {
                frame: Rect::new(w - 14_000 - tile_w, 19_000, tile_w, 52_000),
                color: 0xFFFFFF90,
                radius: 10_000,
            },
        );
    } else {
        tiles.push(
            PreviewTile {
                frame: Rect::new(12_000, h - 22_000, w - 24_000, 10_000),
                color: 0xFFFFFF70,
                radius: 5_000,
            },
        );
        tiles.push(
            PreviewTile {
                frame: Rect::new(12_000, 25_000, w - 24_000, 12_000),
                color: 0xFFFFFF62,
                radius: 5_000,
            },
        );
        tiles.push(
            PreviewTile {
                frame: Rect::new(12_000, 9_000, w - 42_000, 8_000),
                color: 0xFFFFFF48,
                radius: 4_000,
            },
        );
    }
    tiles
}

/// The two tiles of the switcher preview do not overlap in a preview that is wide
/// enough.
pub proof fn preview_tiles_are_disjoint(w: int)
    requires
        140_000 <= w,
    ensures
        14_000 + preview_tile_width(w) <= w - 14_000 - preview_tile_width(w),
{
}

/// The number that the system has for a glass style.
pub fn glass_style_number(style: &str) -> (r: i64)
    ensures
        r == if style@ == "clear"@ {
            1int
        } else {
            0
        },
{
    if same_text(style, "clear") {
        1
    } else {
        0
    }
}

/// Takes a new tint over from the colour well or the colour panel. Nothing happens
/// while the colours are being set from here, or for a colour that cannot be written
/// down. Tells whether the tint is saved and the previews are repainted.
pub fn update_glass_tint_from_color(cfg: &mut Config, updating: bool, hex: Option<String>) -> (r:
    bool)
    ensures
        r == (!updating && hex is Some),
        !r ==> *final(cfg) == *old(cfg),
        r ==> {
            &&& *final(cfg) == (Config {
                appearance: AppearanceConfig {
                    glass_tint: final(cfg).appearance.glass_tint,
                    ..old(cfg).appearance
                },
                ..*old(cfg)
            })
            &&& final(cfg).appearance.glass_tint@ == hex->0@
        },
{
    if updating {
        return false;
    }
    match hex {
        Some(hex) => {
            cfg.appearance.glass_tint = hex;
            true
        },
        None => false,
    }
}

/// Sets the tint back to its default.
pub fn on_glass_tint_reset(cfg: &mut Config, default_tint: String)
    ensures
        *final(cfg) == (Config {
            appearance: AppearanceConfig {
                glass_tint: default_tint,
                ..old(cfg).appearance
            },
            ..*old(cfg)
        }),
{
    cfg.appearance.glass_tint = default_tint;
}

/// A colour component is rounded to the nearest byte: nothing is 0, everything is 255, and in
/// between it is off by half a byte at most. What is out of range counts as the nearer end.
pub proof fn components_are_rounded_to_bytes(c: i64)
    ensures
        0 <= component_byte(Measure::Finite(c)) <= 255,
        c <= 0 ==> component_byte(Measure::Finite(c)) == 0,
        c >= 1_000_000 ==> component_byte(Measure::Finite(c)) == 255,
        0 <= c <= 1_000_000 ==> -500_000 <= 1_000_000 * component_byte(Measure::Finite(c)) - 255 * c
            <= 500_000,
        component_byte(Measure::Unbounded) == 255,
        component_byte(Measure::Absent) == 0,
{
}

/// The window and the colour panel stand beside each other with the gap between them: their
/// group is as wide as both and the gap. It fits where the screen has room for it and a margin
/// on both sides; a group that does not fit starts at the left margin.
pub proof fn groups_are_as_wide_as_their_parts(
    settings: Rect,
    panel: Rect,
    screen: Rect,
    spacing: GroupSpacing,
)
    ensures
        group_width(settings, panel, spacing) - settings.w - panel.w == spacing.gap,
        group_fits(settings, panel, screen, spacing) <==> screen.w - (settings.w + spacing.gap
            + panel.w) >= 2 * spacing.margin,
        !group_fits(settings, panel, screen, spacing) ==> group_x(
            settings,
            panel,
            screen,
            spacing,
        ) - screen.x == spacing.margin,
        screen.h < panel.h + 2 * spacing.margin ==> panel_y(settings, panel, screen, spacing)
            - screen.y == spacing.margin,
{
}

/// The two tiles of the switcher preview share what its margins of 14 points leave, but are
/// not narrower than 56 points.
pub proof fn preview_tiles_share_the_width(w: int)
    ensures
        preview_tile_width(w) >= 56_000,
        w >= 154_000 ==> 0 <= (w - 28_000) - 2 * preview_tile_width(w) - 14_000 <= 1,
        w < 154_000 ==> preview_tile_width(w) == 56_000,
{
}

} // verus!
