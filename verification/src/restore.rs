//! Restoring defaults: the confirmation cards and what each of them resets.
use vstd::prelude::*;

use crate::button_map::ButtonMap;
use crate::config::{Config, MouseProfile, StartupConfig};
use crate::geometry::Rect;
use crate::profiles::{selected_device_profile_index, DeviceKey};
#[allow(unused_imports)]
use crate::config::{AppearanceConfig, MouseConfig, ProfileView};
#[allow(unused_imports)]
use crate::{geometry, profiles};

verus! {

/// How far the line above the card of the sidebar moves.
pub const SEPARATOR_SHIFT: i64 = 51_000;

/// The views of a restore control, and whether its confirmation is open. Only the
/// control of the sidebar has a line above it.
#[derive(Clone, Copy, Debug, PartialEq, Eq, Structural)]
pub struct RestoreDefaultsControl {
    pub trigger: usize,
    pub confirm: usize,
    pub cancel: usize,
    pub surface: usize,
    pub container: usize,
    pub separator: usize,
    pub confirm_y: i64,
    pub collapsed_h: i64,
    pub expanded_h: i64,
    pub expanded: bool,
}

/// The views of a restore control.
#[derive(Clone, Copy, Debug, PartialEq, Eq, Structural)]
pub struct RestoreViews {
    pub trigger: usize,
    pub confirm: usize,
    pub cancel: usize,
    pub surface: usize,
    pub container: usize,
    pub separator: usize,
}

/// Where the views of a restore control start.
#[derive(Clone, Copy, Debug, PartialEq, Eq, Structural)]
pub struct RestoreLayout {
    /// In the container.
    pub trigger: Rect,
    /// In the container.
    pub confirm: Rect,
    /// In the container.
    pub cancel: Rect,
    pub surface: Rect,
    pub container: Rect,
    pub separator: Option<Rect>,
}

/// Where the views of a restore control are when it is toggled.
#[derive(Clone, Copy, Debug, PartialEq, Eq, Structural)]
pub struct RestoreFrames {
    pub trigger: Rect,
    pub container: Rect,
    pub separator: Rect,
}

impl RestoreFrames {
    pub open spec fn valid(self) -> bool {
        self.trigger.valid() && self.container.valid() && self.separator.valid()
    }
}

/// How a value gets to its target.
#[derive(Clone, Copy, Debug, PartialEq, Eq, Structural)]
pub enum Motion {
    AtOnce,
    Ease { milliseconds: u32 },
    Spring { milliseconds: u32, stiffness: u32, damping: u32 },
}

/// A target in hundredths and the way there.
#[derive(Clone, Copy, Debug, PartialEq, Eq, Structural)]
pub struct Change {
    pub to: u32,
    pub motion: Motion,
}

/// The look of the confirm button: opacity and scale in hundredths, and how far it is
/// moved up.
#[derive(Clone, Copy, Debug, PartialEq, Eq, Structural)]
pub struct ContentLook {
    pub opacity: u32,
    pub offset: i64,
    pub scale: u32,
}

/// How the confirm button appears or goes.
#[derive(Clone, Copy, Debug, PartialEq, Eq, Structural)]
pub struct ContentChange {
    /// Where it starts; nothing where it starts from what it shows.
    pub from: Option<ContentLook>,
    pub to: ContentLook,
    pub motion: Motion,
}

/// The two buttons that share the lower row.
#[derive(Clone, Copy, Debug, PartialEq, Eq, Structural)]
pub enum LowerRow {
    Trigger,
    Cancel,
}

/// Everything that toggling a confirmation changes. The trigger and both buttons of
/// the confirmation are made visible in any case.
#[derive(Clone, Copy, Debug, PartialEq, Eq)]
pub struct RestorePlan {
    /// The frames of confirm and cancel, where they are set.
    pub rows: Option<(Rect, Rect)>,
    /// The button that is brought to the front.
    pub front: LowerRow,
    /// Whether the card is hidden, where that is set.
    pub surface_hidden: Option<bool>,
    pub trigger_alpha: Change,
    pub cancel_alpha: Change,
    pub surface_alpha: Change,
    pub confirm: ContentChange,
    pub surface: Rect,
    pub container: Rect,
    pub separator: Option<Rect>,
    pub shadow: Change,
    /// How the frames of card, container and line get there.
    pub frame_motion: Motion,
}

/// The spring of the card.
pub open spec fn card_spring() -> Motion {
    Motion::Spring { milliseconds: 580, stiffness: 160, damping: 24 }
}

/// The spring of a button that appears.
pub open spec fn button_spring() -> Motion {
    Motion::Spring { milliseconds: 380, stiffness: 350, damping: 36 }
}

/// An easing, or no motion at all.
pub open spec fn ease(animated: bool, milliseconds: u32) -> Motion {
    if animated { Motion::Ease { milliseconds } } else { Motion::AtOnce }
}

impl RestoreDefaultsControl {
    /// All views but the line are there.
    pub open spec fn ready(self) -> bool {
        self.trigger != 0 && self.confirm != 0 && self.cancel != 0 && self.surface != 0
            && self.container != 0
    }

    /// The heights fit, and only a control with views can be open.
    pub open spec fn inv(self) -> bool {
        &&& geometry::in_range(self.confirm_y as int)
        &&& geometry::in_range(self.collapsed_h as int)
        &&& geometry::in_range(self.expanded_h as int)
        &&& self.expanded ==> self.ready()
    }

    /// Whether asking for a state changes anything.
    pub open spec fn changes(self, expanded: bool) -> bool {
        self.ready() && self.expanded != expanded
    }

    /// The control after asking for a state.
    pub open spec fn toggled(self, expanded: bool) -> RestoreDefaultsControl {
        if self.changes(expanded) {
            RestoreDefaultsControl { expanded, ..self }
        } else {
            self
        }
    }

    /// The card, the container and the line once the control has reached a state. The
    /// open card covers the container, whose bottom stays; the closed one hides behind
    /// the trigger.
    pub open spec fn target_container(self, frames: RestoreFrames, expanded: bool) -> Rect {
        Rect { h: if expanded { self.expanded_h } else { self.collapsed_h }, ..frames.container }
    }

    pub open spec fn target_surface(self, frames: RestoreFrames, expanded: bool) -> Rect {
        if expanded {
            self.target_container(frames, true)
        } else {
            Rect {
                x: (frames.container.x + frames.trigger.x) as i64,
                y: (frames.container.y + frames.trigger.y) as i64,
                ..frames.trigger
            }
        }
    }

    pub open spec fn target_separator(self, frames: RestoreFrames, expanded: bool) -> Option<Rect> {
        if self.separator == 0 {
            None
        } else {
            Some(
                Rect {
                    y: (frames.separator.y + if expanded {
                        SEPARATOR_SHIFT as int
                    } else {
                        -SEPARATOR_SHIFT
                    }) as i64,
                    ..frames.separator
                },
            )
        }
    }

    /// What opening the confirmation changes.
    pub open spec fn opening(self, frames: RestoreFrames, animated: bool) -> RestorePlan {
        RestorePlan {
            rows: Some((Rect { y: self.confirm_y, ..frames.trigger }, frames.trigger)),
            front: LowerRow::Cancel,
            surface_hidden: Some(false),
            trigger_alpha: Change { to: 0, motion: ease(animated, 160) },
            cancel_alpha: Change {
                to: 100,
                motion: if animated { button_spring() } else { Motion::AtOnce },
            },
            surface_alpha: Change { to: 100, motion: ease(animated, 250) },
            confirm: ContentChange {
                from: if animated {
                    Some(ContentLook { opacity: 0, offset: 8_000, scale: 98 })
                } else {
                    None
                },
                to: ContentLook { opacity: 100, offset: 0, scale: 100 },
                motion: if animated {
                    Motion::Spring { milliseconds: 460, stiffness: 266, damping: 30 }
                } else {
                    Motion::AtOnce
                },
            },
            surface: self.target_surface(frames, true),
            container: self.target_container(frames, true),
            separator: self.target_separator(frames, true),
            shadow: Change { to: 12, motion: if animated { card_spring() } else { Motion::AtOnce } },
            frame_motion: if animated { card_spring() } else { Motion::AtOnce },
        }
    }

    /// What closing the confirmation changes.
    pub open spec fn closing(self, frames: RestoreFrames, animated: bool) -> RestorePlan {
        RestorePlan {
            rows: None,
            front: LowerRow::Trigger,
            surface_hidden: if animated { None } else { Some(true) },
            trigger_alpha: Change {
                to: 100,
                motion: if animated { button_spring() } else { Motion::AtOnce },
            },
            cancel_alpha: Change { to: 0, motion: ease(animated, 160) },
            surface_alpha: Change { to: 0, motion: ease(animated, 450) },
            confirm: ContentChange {
                from: None,
                to: ContentLook { opacity: 0, offset: 6_000, scale: 98 },
                motion: ease(animated, 80),
            },
            surface: self.target_surface(frames, false),
            container: self.target_container(frames, false),
            separator: self.target_separator(frames, false),
            shadow: Change { to: 0, motion: if animated { card_spring() } else { Motion::AtOnce } },
            frame_motion: if animated { card_spring() } else { Motion::AtOnce },
        }
    }

    /// What asking for a state changes; nothing where the control is in it already or
    /// is not built. Reduced motion switches animations off.
    pub open spec fn plan(
        self,
        frames: RestoreFrames,
        expanded: bool,
        animated: bool,
        reduce_motion: bool,
    ) -> Option<RestorePlan> {
        if !self.changes(expanded) {
            None
        } else if expanded {
            Some(self.opening(frames, animated && !reduce_motion))
        } else {
            Some(self.closing(frames, animated && !reduce_motion))
        }
    }

    /// A control without views.
    pub fn empty() -> (r: RestoreDefaultsControl)
        ensures
            r.inv(),
            !r.ready(),
            r == (RestoreDefaultsControl {
                trigger: 0,
                confirm: 0,
                cancel: 0,
                surface: 0,
                container: 0,
                separator: 0,
                confirm_y: 0,
                collapsed_h: 0,
                expanded_h: 0,
                expanded: false,
            }),
    {
        RestoreDefaultsControl {
            trigger: 0,
            confirm: 0,
            cancel: 0,
            surface: 0,
            container: 0,
            separator: 0,
            confirm_y: 0,
            collapsed_h: 0,
            expanded_h: 0,
            expanded: false,
        }
    }

    /// Where the control of the sidebar starts.
    pub fn build(sidebar_width: i64) -> (r: RestoreLayout)
        requires
            geometry::in_range(sidebar_width as int),
        ensures
            ({
                let row = Rect { x: 8_000, y: 6_000, w: (sidebar_width - 44_000) as i64, h: 30_000 };
                &&& r.trigger == row
                &&& r.confirm == row
                &&& r.cancel == row
            }),
            r.surface == (Rect {
                x: 22_000,
                y: 20_000,
                w: (sidebar_width - 44_000) as i64,
                h: 30_000,
            }),
            r.container == (Rect {
                x: 14_000,
                y: 14_000,
                w: (sidebar_width - 28_000) as i64,
                h: 42_000,
            }),
            r.separator == Some(
                Rect { x: 26_000, y: 61_000, w: (sidebar_width - 52_000) as i64, h: 1_000 },
            ),
    {
        let row = Rect::new(8_000, 6_000, sidebar_width - 44_000, 30_000);
        RestoreLayout {
            trigger: row,
            confirm: row,
            cancel: row,
            surface: Rect::new(22_000, 20_000, sidebar_width - 44_000, 30_000),
            container: Rect::new(14_000, 14_000, sidebar_width - 28_000, 42_000),
            separator: Some(Rect::new(26_000, 61_000, sidebar_width - 52_000, 1_000)),
        }
    }

    /// Where the control at the end of a page starts. It has the width of the cards.
    pub fn build_for_page(x: i64, y_bottom: i64, width: i64) -> (r: RestoreLayout)
        requires
            geometry::near(x as int),
            -3_000 * geometry::LIMIT <= y_bottom <= 3_000 * geometry::LIMIT,
            geometry::near(width as int),
        ensures
            ({
                let row = Rect { x: 8_000, y: 6_000, w: (width - 16_000) as i64, h: 30_000 };
                &&& r.trigger == row
                &&& r.confirm == (Rect { y: 54_000, ..row })
                &&& r.cancel == row
            }),
            r.surface == (Rect {
                x: (x + 8_000) as i64,
                y: (y_bottom + 6_000) as i64,
                w: (width - 16_000) as i64,
                h: 30_000,
            }),
            r.container == (Rect { x, y: y_bottom, w: width, h: 42_000 }),
            r.separator is None,
    {
        let row = Rect::new(8_000, 6_000, width - 16_000, 30_000);
        RestoreLayout {
            trigger: row,
            confirm: Rect::new(8_000, 54_000, width - 16_000, 30_000),
            cancel: row,
            surface: Rect::new(x + 8_000, y_bottom + 6_000, width - 16_000, 30_000),
            container: Rect::new(x, y_bottom, width, 42_000),
            separator: None,
        }
    }

    /// The closed control over a set of views.
    pub fn with_views(views: RestoreViews) -> (r: RestoreDefaultsControl)
        ensures
            r.inv(),
            r == (RestoreDefaultsControl {
                trigger: views.trigger,
                confirm: views.confirm,
                cancel: views.cancel,
                surface: views.surface,
                container: views.container,
                separator: views.separator,
                confirm_y: 54_000,
                collapsed_h: 42_000,
                expanded_h: 110_000,
                expanded: false,
            }),
    {
        RestoreDefaultsControl {
            trigger: views.trigger,
            confirm: views.confirm,
            cancel: views.cancel,
            surface: views.surface,
            container: views.container,
            separator: views.separator,
            confirm_y: 54_000,
            collapsed_h: 42_000,
            expanded_h: 110_000,
            expanded: false,
        }
    }

    /// Whether all views but the line are there.
    pub fn is_ready(self) -> (r: bool)
        ensures
            r == self.ready(),
    {
        self.trigger != 0 && self.confirm != 0 && self.cancel != 0 && self.surface != 0
            && self.container != 0
    }

    /// Opens or closes the confirmation. The lower row stays where it is.
    pub fn set_expanded(
        &mut self,
        expanded: bool,
        animated: bool,
        reduce_motion: bool,
        frames: RestoreFrames,
    ) -> (r: Option<RestorePlan>)
        requires
            old(self).inv(),
            frames.valid(),
        ensures
            final(self).inv(),
            *final(self) == old(self).toggled(expanded),
            r == old(self).plan(frames, expanded, animated, reduce_motion),
    {
        if !self.is_ready() || self.expanded == expanded {
            return None;
        }
        self.expanded = expanded;
        let animated = animated && !reduce_motion;
        let trigger = frames.trigger;
        let separator = if self.separator == 0 {
            None
        } else {
            let y = if expanded {
                frames.separator.y + SEPARATOR_SHIFT
            } else {
                frames.separator.y - SEPARATOR_SHIFT
            };
            Some(Rect::new(frames.separator.x, y, frames.separator.w, frames.separator.h))
        };
        let container = Rect::new(
            frames.container.x,
            frames.container.y,
            frames.container.w,
            if expanded {
                self.expanded_h
            } else {
                self.collapsed_h
            },
        );
        let surface = if expanded {
            container
        } else {
            Rect::new(
                frames.container.x + trigger.x,
                frames.container.y + trigger.y,
                trigger.w,
                trigger.h,
            )
        };
        let frame_motion = if animated {
            Motion::Spring { milliseconds: 580, stiffness: 160, damping: 24 }
        } else {
            Motion::AtOnce
        };
        let button_motion = if animated {
            Motion::Spring { milliseconds: 380, stiffness: 350, damping: 36 }
        } else {
            Motion::AtOnce
        };
        let fade = if animated {
            Motion::Ease { milliseconds: 160 }
        } else {
            Motion::AtOnce
        };
        if expanded {
            Some(
                RestorePlan {
                    rows: Some(
                        (Rect::new(trigger.x, self.confirm_y, trigger.w, trigger.h), trigger),
                    ),
                    front: LowerRow::Cancel,
                    surface_hidden: Some(false),
                    trigger_alpha: Change { to: 0, motion: fade },
                    cancel_alpha: Change { to: 100, motion: button_motion },
                    surface_alpha: Change {
                        to: 100,
                        motion: if animated {
                            Motion::Ease { milliseconds: 250 }
                        } else {
                            Motion::AtOnce
                        },
                    },
                    confirm: ContentChange {
                        from: if animated {
                            Some(ContentLook { opacity: 0, offset: 8_000, scale: 98 })
                        } else {
                            None
                        },
                        to: ContentLook { opacity: 100, offset: 0, scale: 100 },
                        motion: if animated {
                            Motion::Spring { milliseconds: 460, stiffness: 266, damping: 30 }
                        } else {
                            Motion::AtOnce
                        },
                    },
                    surface,
                    container,
                    separator,
                    shadow: Change { to: 12, motion: frame_motion },
                    frame_motion,
                },
            )
        } else {
            Some(
                RestorePlan {
                    rows: None,
                    front: LowerRow::Trigger,
                    surface_hidden: if animated {
                        None
                    } else {
                        Some(true)
                    },
                    trigger_alpha: Change { to: 100, motion: button_motion },
                    cancel_alpha: Change { to: 0, motion: fade },
                    surface_alpha: Change {
                        to: 0,
                        motion: if animated {
                            Motion::Ease { milliseconds: 450 }
                        } else {
                            Motion::AtOnce
                        },
                    },
                    confirm: ContentChange {
                        from: None,
                        to: ContentLook { opacity: 0, offset: 6_000, scale: 98 },
                        motion: if animated {
                            Motion::Ease { milliseconds: 80 }
                        } else {
                            Motion::AtOnce
                        },
                    },
                    surface,
                    container,
                    separator,
                    shadow: Change { to: 0, motion: frame_motion },
                    frame_motion,
                },
            )
        }
    }
}

/// Opening a confirmation and closing it again brings every frame back, and the
/// control with it.
pub proof fn closing_undoes_opening(c: RestoreDefaultsControl, frames: RestoreFrames)
    requires
        c.inv(),
        c.ready(),
        !c.expanded,
        frames.valid(),
        frames.container.h == c.collapsed_h,
    ensures
        c.toggled(true).toggled(false) == c,
        ({
            let open = RestoreFrames {
                container: c.target_container(frames, true),
                separator: match c.target_separator(frames, true) {
                    Some(s) => s,
                    None => frames.separator,
                },
                ..frames
            };
            let back = c.toggled(true);
            &&& back.target_container(open, false) == frames.container
            &&& back.target_separator(open, false) matches Some(s) ==> s == frames.separator
            &&& back.target_surface(open, false) == c.target_surface(frames, false)
        }),
{
}

/// In an open card the cancel button has taken the place of the trigger, and the
/// confirm button stands above it, inside the card.
pub proof fn open_card_holds_both_rows(
    c: RestoreDefaultsControl,
    frames: RestoreFrames,
    animated: bool,
)
    requires
        c.confirm_y == 54_000,
        c.expanded_h == 110_000,
        frames.valid(),
        frames.trigger.y == 6_000,
        frames.trigger.h == 30_000,
    ensures
        c.opening(frames, animated).rows matches Some((confirm, cancel)) && {
            &&& cancel == frames.trigger
            &&& cancel.top() <= confirm.y
            &&& confirm.top() <= c.expanded_h
            &&& confirm.x == cancel.x && confirm.w == cancel.w
        },
{
}

/// The confirmation cards of a window: one in the sidebar for everything, one at the
/// end of each page.
#[derive(Debug)]
pub struct RestoreCards {
    pub all: RestoreDefaultsControl,
    pub pages: Vec<RestoreDefaultsControl>,
}

/// Where the views of all cards are.
#[derive(Debug)]
pub struct CardFrames {
    pub all: RestoreFrames,
    pub pages: Vec<RestoreFrames>,
}

/// What is to change on each card.
#[derive(Debug)]
pub struct CardPlans {
    pub all: Option<RestorePlan>,
    pub pages: Vec<Option<RestorePlan>>,
}

impl CardFrames {
    pub open spec fn fits(self, cards: RestoreCards) -> bool {
        &&& self.all.valid()
        &&& self.pages@.len() == cards.pages@.len()
        &&& forall|i: int| 0 <= i < self.pages@.len() ==> (#[trigger] self.pages@[i]).valid()
    }
}

/// The page whose card is to be open, where one is.
pub open spec fn page_to_open(selected: usize, expanded: bool) -> Option<int> {
    if expanded { Some(selected as int) } else { None }
}

/// Whether the page cards have moved from `old` to `new` by asking for the card of one
/// page, or of none, to be open and for all others to be closed.
pub open spec fn pages_toggled(
    old: Seq<RestoreDefaultsControl>,
    new: Seq<RestoreDefaultsControl>,
    open_page: Option<int>,
) -> bool {
    &&& new.len() == old.len()
    &&& forall|i: int|
        0 <= i < old.len() ==> #[trigger] new[i] == old[i].toggled(open_page == Some(i))
}

/// The plans of the page cards.
pub open spec fn page_plans(
    cards: Seq<RestoreDefaultsControl>,
    frames: Seq<RestoreFrames>,
    open_page: Option<int>,
    animated: bool,
    reduce_motion: bool,
) -> Seq<Option<RestorePlan>> {
    Seq::new(
        cards.len(),
        |i: int| cards[i].plan(frames[i], open_page == Some(i), animated, reduce_motion),
    )
}

impl RestoreCards {
    pub open spec fn inv(self) -> bool {
        &&& self.all.inv()
        &&& forall|i: int| 0 <= i < self.pages@.len() ==> (#[trigger] self.pages@[i]).inv()
    }

    pub open spec fn some_page_open(self) -> bool {
        exists|i: int| 0 <= i < self.pages@.len() && (#[trigger] self.pages@[i]).expanded
    }

    /// Of the card for everything and the cards of the pages at most one is open.
    pub open spec fn one_open(self) -> bool {
        &&& !(self.all.expanded && self.some_page_open())
        &&& forall|i: int, j: int|
            0 <= i < self.pages@.len() && 0 <= j < self.pages@.len() && (
            #[trigger] self.pages@[i]).expanded && (#[trigger] self.pages@[j]).expanded ==> i == j
    }

    /// Opens or closes the card of the selected page; the cards of all other pages are
    /// closed either way, so that none is left behind.
    pub fn set_page_restore_confirmation_expanded(
        &mut self,
        selected: usize,
        expanded: bool,
        animated: bool,
        reduce_motion: bool,
        frames: &CardFrames,
    ) -> (r: Vec<Option<RestorePlan>>)
        requires
            old(self).inv(),
            frames.fits(*old(self)),
        ensures
            final(self).inv(),
            final(self).all == old(self).all,
            final(self).pages@.len() == old(self).pages@.len(),
            forall|i: int|
                0 <= i < old(self).pages@.len() ==> #[trigger] final(self).pages@[i] == old(
                    self,
                ).pages@[i].toggled(expanded && i == selected),
            pages_toggled(
                old(self).pages@,
                final(self).pages@,
                page_to_open(selected, expanded),
            ),
            r@ == page_plans(
                old(self).pages@,
                frames.pages@,
                page_to_open(selected, expanded),
                animated,
                reduce_motion,
            ),
            !expanded ==> !final(self).some_page_open(),
            !(expanded && old(self).all.expanded) ==> final(self).one_open(),
    {
        let mut plans: Vec<Option<RestorePlan>> = Vec::new();
        let mut i: usize = 0;
        let ghost before = self.pages@;
        while i < self.pages.len()
            invariant
                self.inv(),
                self.all == old(self).all,
                before == old(self).pages@,
                self.pages@.len() == before.len(),
                frames.fits(*old(self)),
                i <= before.len(),
                plans@.len() == i,
                forall|k: int|
                    0 <= k < i ==> #[trigger] self.pages@[k] == before[k].toggled(
                        expanded && k == selected,
                    ),
                forall|k: int| i <= k < before.len() ==> #[trigger] self.pages@[k] == before[k],
                forall|k: int|
                    0 <= k < i ==> #[trigger] plans@[k] == before[k].plan(
                        frames.pages@[k],
                        expanded && k == selected,
                        animated,
                        reduce_motion,
                    ),
            decreases before.len() - i,
        {
            let ghost here = self.pages@;
            let mut control = self.pages[i];
            assert(control.inv());
            assert(frames.pages@[i as int].valid());
            let plan = control.set_expanded(
                expanded && i == selected,
                animated,
                reduce_motion,
                frames.pages[i],
            );
            self.pages.set(i, control);
            plans.push(plan);
            assert forall|k: int| 0 <= k < self.pages@.len() implies (
            #[trigger] self.pages@[k]).inv() by {
                if k != i {
                    assert(self.pages@[k] == here[k]);
                }
            }
            i += 1;
        }
        assert(plans@ =~= page_plans(
            before,
            frames.pages@,
            page_to_open(selected, expanded),
            animated,
            reduce_motion,
        ));
        assert forall|k: int|
            0 <= k < self.pages@.len() && (#[trigger] self.pages@[k]).expanded implies expanded
            && k == selected by {
            assert(self.pages@[k] == before[k].toggled(expanded && k == selected));
            assert(self.pages@[k].inv());
        }
        plans
    }

    /// Opens the card for everything; the cards of the pages are closed first.
    pub fn handle_restore_defaults(&mut self, reduce_motion: bool, frames: &CardFrames) -> (r:
        CardPlans)
        requires
            old(self).inv(),
            frames.fits(*old(self)),
        ensures
            final(self).inv(),
            final(self).one_open(),
            final(self).all == old(self).all.toggled(true),
            pages_toggled(old(self).pages@, final(self).pages@, None),
            r.all == old(self).all.plan(frames.all, true, true, reduce_motion),
            r.pages@ == page_plans(old(self).pages@, frames.pages@, None, true, reduce_motion),
    {
        let pages = self.set_page_restore_confirmation_expanded(
            0,
            false,
            true,
            reduce_motion,
            frames,
        );
        let all = self.all.set_expanded(true, true, reduce_motion, frames.all);
        CardPlans { all, pages }
    }

    /// Closes the card for everything and changes nothing else.
    pub fn handle_restore_defaults_cancel(&mut self, reduce_motion: bool, frames: &CardFrames) -> (r:
        Option<RestorePlan>)
        requires
            old(self).inv(),
            frames.fits(*old(self)),
        ensures
            final(self).inv(),
            final(self).all == old(self).all.toggled(false),
            !final(self).all.expanded,
            final(self).pages == old(self).pages,
            old(self).one_open() ==> final(self).one_open(),
            r == old(self).all.plan(frames.all, false, true, reduce_motion),
    {
        self.all.set_expanded(false, true, reduce_motion, frames.all)
    }

    /// Opens the card of the selected page; the card for everything is closed first.
    pub fn handle_page_restore_defaults(
        &mut self,
        selected: usize,
        reduce_motion: bool,
        frames: &CardFrames,
    ) -> (r: CardPlans)
        requires
            old(self).inv(),
            frames.fits(*old(self)),
        ensures
            final(self).inv(),
            final(self).one_open(),
            final(self).all == old(self).all.toggled(false),
            pages_toggled(old(self).pages@, final(self).pages@, Some(selected as int)),
            r.all == old(self).all.plan(frames.all, false, true, reduce_motion),
            r.pages@ == page_plans(
                old(self).pages@,
                frames.pages@,
                Some(selected as int),
                true,
                reduce_motion,
            ),
    {
        let all = self.all.set_expanded(false, true, reduce_motion, frames.all);
        let pages = self.set_page_restore_confirmation_expanded(
            selected,
            true,
            true,
            reduce_motion,
            frames,
        );
        CardPlans { all, pages }
    }
}

/// Closes every confirmation card, as when the page changes or the window goes away.
pub fn collapse_restore_confirmations(
    cards: &mut RestoreCards,
    animated: bool,
    reduce_motion: bool,
    frames: &CardFrames,
) -> (r: CardPlans)
    requires
        old(cards).inv(),
        frames.fits(*old(cards)),
    ensures
        final(cards).inv(),
        !final(cards).all.expanded,
        !final(cards).some_page_open(),
        final(cards).all == old(cards).all.toggled(false),
        pages_toggled(old(cards).pages@, final(cards).pages@, None),
        r.all == old(cards).all.plan(frames.all, false, animated, reduce_motion),
        r.pages@ == page_plans(old(cards).pages@, frames.pages@, None, animated, reduce_motion),
{
    let all = cards.all.set_expanded(false, animated, reduce_motion, frames.all);
    let pages = cards.set_page_restore_confirmation_expanded(
        0,
        false,
        animated,
        reduce_motion,
        frames,
    );
    CardPlans { all, pages }
}

/// What is known of a click in the window.
#[derive(Clone, Copy, Debug, PartialEq, Eq, Structural)]
pub struct WindowClick {
    pub has_window: bool,
    pub has_event: bool,
    pub has_content: bool,
    /// The click hit a view of some restore control.
    pub on_control: bool,
}

/// Whether a click closes the cards: it does where some card is open and no restore
/// control was hit.
pub fn collapse_restore_confirmations_on_external_click(
    cards: &RestoreCards,
    click: WindowClick,
) -> (r: bool)
    ensures
        r == (click.has_window && click.has_event && (cards.all.expanded || cards.some_page_open())
            && click.has_content && !click.on_control),
{
    if !click.has_window || !click.has_event {
        return false;
    }
    let mut open = cards.all.expanded;
    let mut i: usize = 0;
    while i < cards.pages.len()
        invariant
            i <= cards.pages@.len(),
            open == (cards.all.expanded || exists|k: int|
                0 <= k < i && (#[trigger] cards.pages@[k]).expanded),
        decreases cards.pages@.len() - i,
    {
        if cards.pages[i].expanded {
            assert(cards.pages@[i as int].expanded);
            open = true;
        }
        i += 1;
    }
    open && click.has_content && !click.on_control
}

/// Opening a card closes all others: whether the card of one page is asked for or the
/// card for everything, and whatever was open before, at most one is open afterwards.
pub proof fn cards_stay_exclusive(
    before: RestoreCards,
    after: RestoreCards,
    open_page: Option<int>,
)
    requires
        before.inv(),
        after.inv(),
        pages_toggled(before.pages@, after.pages@, open_page),
        after.all == before.all.toggled(open_page is None),
    ensures
        after.one_open(),
{
    assert forall|i: int|
        0 <= i < after.pages@.len() && (#[trigger] after.pages@[i]).expanded implies open_page
        == Some(i) by {
        assert(after.pages@[i] == before.pages@[i].toggled(open_page == Some(i)));
        assert(before.pages@[i].inv());
    }
    assert(before.all.inv());
}

/// Sets the whole configuration back to its defaults, except that starting at login
/// is left as it is. The device selection is cleared.
pub fn restore_all_defaults(
    cfg: &mut Config,
    selected: &mut Option<Option<DeviceKey>>,
    defaults: Config,
)
    ensures
        *final(cfg) == (Config {
            startup: StartupConfig { launch_at_login: old(cfg).startup.launch_at_login },
            ..defaults
        }),
        *final(selected) is None,
{
    let launch_at_login = cfg.startup.launch_at_login;
    *cfg = defaults;
    cfg.startup = StartupConfig { launch_at_login };
    *selected = None;
}

/// The general page without what belongs to other pages: look, language and log level.
pub open spec fn general_restored(cfg: Config, d: Config) -> Config {
    Config {
        appearance: AppearanceConfig {
            corner_radius: cfg.appearance.corner_radius,
            ..d.appearance
        },
        i18n: d.i18n,
        logging: d.logging,
        ..cfg
    }
}

/// The switcher page: windows, layout, fonts, keyboard and the corner radius.
pub open spec fn switcher_restored(cfg: Config, d: Config) -> Config {
    Config {
        windows: d.windows,
        layout: d.layout,
        fonts: d.fonts,
        keyboard: d.keyboard,
        appearance: AppearanceConfig {
            corner_radius: d.appearance.corner_radius,
            ..cfg.appearance
        },
        ..cfg
    }
}

/// The profile of the selected device with the values of the default profile and no
/// bindings.
pub open spec fn profile_restored(p: ProfileView, d: ProfileView) -> ProfileView {
    ProfileView { device: p.device, button_mappings: Map::empty(), ..d }
}

/// The mouse page: its switch and the profile of the selected device.
pub open spec fn mouse_restored(old: Config, new: Config, d: Config, dev: Option<DeviceKey>) -> bool {
    &&& new == (Config {
        mouse: MouseConfig { enabled: d.mouse.enabled, profiles: new.mouse.profiles },
        ..old
    })
    &&& profiles::only_profile_changed(
        old.mouse.profiles@,
        new.mouse.profiles@,
        dev,
        if d.mouse.profiles@.len() > 0 {
            profile_restored(
                profiles::profile_of(old.mouse.profiles@, dev),
                d.mouse.profiles@[0]@,
            )
        } else {
            profiles::profile_of(old.mouse.profiles@, dev)
        },
    )
}

/// Whether `new` is `old` after restoring the page with the given number.
pub open spec fn tab_restored(
    old: Config,
    new: Config,
    d: Config,
    tab: usize,
    dev: Option<DeviceKey>,
) -> bool {
    if tab == 0 {
        new == general_restored(old, d)
    } else if tab == 1 {
        new == switcher_restored(old, d)
    } else if tab == 2 {
        mouse_restored(old, new, d, dev)
    } else if tab == 3 {
        new == (Config { clipboard: d.clipboard, ..old })
    } else if tab == 4 {
        new == (Config { window_control: d.window_control, ..old })
    } else if tab == 5 {
        new == (Config { quick_actions: d.quick_actions, ..old })
    } else {
        new == (Config { updates: d.updates, ..old })
    }
}

/// Takes the first profile of the defaults.
fn first_profile(profiles: Vec<MouseProfile>) -> (r: Option<MouseProfile>)
    ensures
        match r {
            Some(p) => profiles@.len() > 0 && p == profiles@[0],
            None => profiles@.len() == 0,
        },
{
    let mut profiles = profiles;
    if profiles.len() == 0 {
        None
    } else {
        Some(profiles.remove(0))
    }
}

/// Restores the mouse page.
fn restore_mouse_page(cfg: &mut Config, defaults: Config, dev: Option<DeviceKey>)
    requires
        old(cfg).mouse.valid(),
    ensures
        final(cfg).mouse.valid(),
        mouse_restored(*old(cfg), *final(cfg), defaults, dev),
{
    cfg.mouse.enabled = defaults.mouse.enabled;
    let i = selected_device_profile_index(&mut cfg.mouse, dev);
    let ghost before = *cfg;
    if let Some(d) = first_profile(defaults.mouse.profiles) {
        let restored = MouseProfile {
            device: cfg.mouse.profiles[i].device,
            reverse_scroll: d.reverse_scroll,
            scroll_mode: d.scroll_mode,
            line_count: d.line_count,
            pointer: d.pointer,
            button_mappings: ButtonMap::new(),
            button_mappings_enabled: d.button_mappings_enabled,
        };
        assert(restored@ =~= profile_restored(before.mouse.profiles@[i as int]@, d@));
        cfg.mouse.profiles.set(i, restored);
        assert forall|j: int| 0 <= j < cfg.mouse.profiles@.len() implies (
        #[trigger] cfg.mouse.profiles@[j]).button_mappings.inv() by {
            if j != i {
                assert(cfg.mouse.profiles@[j] == before.mouse.profiles@[j]);
            }
        }
    }
}

/// Sets the values of one page back to their defaults and leaves those of all other
/// pages alone. Tells whether the controls are to be filled again; the general page
/// has the whole window rebuilt instead.
pub fn restore_tab_defaults(
    cfg: &mut Config,
    defaults: Config,
    tab: usize,
    dev: Option<DeviceKey>,
) -> (r: bool)
    requires
        old(cfg).mouse.valid(),
    ensures
        final(cfg).mouse.valid(),
        tab_restored(*old(cfg), *final(cfg), defaults, tab, dev),
        r == (tab != 0),
{
    if tab == 0 {
        let corner_radius = cfg.appearance.corner_radius;
        cfg.appearance = defaults.appearance;
        cfg.appearance.corner_radius = corner_radius;
        cfg.i18n = defaults.i18n;
        cfg.logging = defaults.logging;
    } else if tab == 1 {
        cfg.windows = defaults.windows;
        cfg.layout = defaults.layout;
        cfg.fonts = defaults.fonts;
        cfg.keyboard = defaults.keyboard;
        cfg.appearance.corner_radius = defaults.appearance.corner_radius;
    } else if tab == 2 {
        restore_mouse_page(cfg, defaults, dev);
    } else if tab == 3 {
        cfg.clipboard = defaults.clipboard;
    } else if tab == 4 {
        cfg.window_control = defaults.window_control;
    } else if tab == 5 {
        cfg.quick_actions = defaults.quick_actions;
    } else {
        cfg.updates = defaults.updates;
    }
    tab != 0
}

/// The message after restoring defaults.
pub fn restore_success_key(page_only: bool) -> (r: &'static str)
    ensures
        r@ == if page_only {
            "settings.toast_page_defaults_restored"@
        } else {
            "settings.toast_all_defaults_restored"@
        },
{
    if page_only {
        "settings.toast_page_defaults_restored"
    } else {
        "settings.toast_all_defaults_restored"
    }
}

/// Restoring one page changes nothing that belongs to another one. Starting at login
/// belongs to none of them, and the corner radius to the switcher page.
pub proof fn pages_keep_what_is_not_theirs(
    old: Config,
    new: Config,
    d: Config,
    tab: usize,
    dev: Option<DeviceKey>,
)
    requires
        tab_restored(old, new, d, tab, dev),
    ensures
        new.startup == old.startup,
        tab != 1 ==> new.appearance.corner_radius == old.appearance.corner_radius,
        tab != 0 ==> {
            &&& new.i18n == old.i18n
            &&& new.logging == old.logging
            &&& new.appearance.theme == old.appearance.theme
            &&& new.appearance.glass_style == old.appearance.glass_style
            &&& new.appearance.glass_tint == old.appearance.glass_tint
        },
        tab != 1 ==> {
            &&& new.windows == old.windows
            &&& new.layout == old.layout
            &&& new.fonts == old.fonts
            &&& new.keyboard == old.keyboard
        },
        tab != 2 ==> new.mouse == old.mouse,
        tab != 3 ==> new.clipboard == old.clipboard,
        tab != 4 ==> new.window_control == old.window_control,
        tab != 5 ==> new.quick_actions == old.quick_actions,
        tab < 6 ==> new.updates == old.updates,
{
}

/// Restoring the mouse page leaves the profiles of all other devices alone.
pub proof fn other_devices_keep_their_profiles(
    old: Config,
    new: Config,
    d: Config,
    dev: Option<DeviceKey>,
    other: Option<DeviceKey>,
)
    requires
        mouse_restored(old, new, d, dev),
        other != dev,
    ensures
        profiles::profile_of(new.mouse.profiles@, other) == profiles::profile_of(
            old.mouse.profiles@,
            other,
        ),
{
    let p = profiles::profile_of(old.mouse.profiles@, dev);
    profiles::profile_has_its_device(old.mouse.profiles@, dev);
    let target = if d.mouse.profiles@.len() > 0 {
        profile_restored(p, d.mouse.profiles@[0]@)
    } else {
        p
    };
    profiles::profile_writes_do_not_leak(
        old.mouse.profiles@,
        new.mouse.profiles@,
        dev,
        other,
        target,
    );
}

/// Restoring a page twice gives what restoring it once gives.
pub proof fn restoring_twice_changes_nothing(
    first: Config,
    second: Config,
    third: Config,
    d: Config,
    tab: usize,
    dev: Option<DeviceKey>,
)
    requires
        tab_restored(first, second, d, tab, dev),
        tab_restored(second, third, d, tab, dev),
    ensures
        tab != 2 ==> third == second,
        tab == 2 ==> profiles::profile_of(third.mouse.profiles@, dev) == profiles::profile_of(
            second.mouse.profiles@,
            dev,
        ),
{
    if tab == 2 {
        let p = profiles::profile_of(first.mouse.profiles@, dev);
        profiles::profile_has_its_device(first.mouse.profiles@, dev);
        let has_default = d.mouse.profiles@.len() > 0;
        let target = if has_default { profile_restored(p, d.mouse.profiles@[0]@) } else { p };
        profiles::profile_reads_back(first.mouse.profiles@, second.mouse.profiles@, dev, target);
        let again = if has_default { profile_restored(target, d.mouse.profiles@[0]@) } else { target };
        assert(again =~= target);
        profiles::profile_reads_back(second.mouse.profiles@, third.mouse.profiles@, dev, again);
    }
}

/// A restored page shows the defaults: every value that its controls show is the default
/// one afterwards, whatever it was before. On the mouse page these are the switch of the
/// page and the profile of the selected device, which keeps its device and loses its
/// bindings.
pub proof fn restored_pages_show_the_defaults(
    old: Config,
    new: Config,
    d: Config,
    tab: usize,
    dev: Option<DeviceKey>,
)
    requires
        tab_restored(old, new, d, tab, dev),
    ensures
        tab == 0 ==> {
            &&& new.appearance.theme == d.appearance.theme
            &&& new.appearance.glass_style == d.appearance.glass_style
            &&& new.appearance.glass_tint == d.appearance.glass_tint
            &&& new.i18n.locale == d.i18n.locale
            &&& new.logging.level == d.logging.level
        },
        tab == 1 ==> {
            &&& new.windows.enabled == d.windows.enabled
            &&& new.windows.show_minimized == d.windows.show_minimized
            &&& new.windows.overlay_position == d.windows.overlay_position
            &&& new.windows.activation_mode == d.windows.activation_mode
            &&& new.layout.thumbnails_enabled == d.layout.thumbnails_enabled
            &&& new.layout.focused_thumbnail_prewarm == d.layout.focused_thumbnail_prewarm
            &&& new.layout.show_app_name_in_cards == d.layout.show_app_name_in_cards
            &&& new.layout.card_text_size == d.layout.card_text_size
            &&& new.fonts.status_bar_size == d.fonts.status_bar_size
            &&& new.keyboard.modifier == d.keyboard.modifier
            &&& new.appearance.corner_radius == d.appearance.corner_radius
        },
        tab == 2 ==> new.mouse.enabled == d.mouse.enabled,
        tab == 2 && d.mouse.profiles@.len() > 0 ==> {
            let p = profiles::profile_of(new.mouse.profiles@, dev);
            let first = d.mouse.profiles@[0]@;
            &&& p.reverse_scroll == first.reverse_scroll
            &&& p.scroll_mode == first.scroll_mode
            &&& p.line_count == first.line_count
            &&& p.pointer == first.pointer
            &&& p.button_mappings_enabled == first.button_mappings_enabled
            &&& p.button_mappings == Map::<Seq<char>, Seq<char>>::empty()
            &&& p.device == profiles::matcher_of(dev)
        },
        tab == 2 && d.mouse.profiles@.len() == 0 ==> profiles::profile_of(
            new.mouse.profiles@,
            dev,
        ) == profiles::profile_of(old.mouse.profiles@, dev),
        tab == 3 ==> new.clipboard == d.clipboard,
        tab == 4 ==> new.window_control == d.window_control,
        tab == 5 ==> new.quick_actions == d.quick_actions,
        tab >= 6 ==> new.updates == d.updates,
{
    if tab == 2 {
        let p = profiles::profile_of(old.mouse.profiles@, dev);
        profiles::profile_has_its_device(old.mouse.profiles@, dev);
        let target = if d.mouse.profiles@.len() > 0 {
            profile_restored(p, d.mouse.profiles@[0]@)
        } else {
            p
        };
        profiles::profile_reads_back(old.mouse.profiles@, new.mouse.profiles@, dev, target);
    }
}

/// Two configurations that differ only in what a page holds are the same once that page
/// is restored: nothing of the earlier values survives.
pub proof fn restoring_forgets_the_page(
    first: Config,
    second: Config,
    first_after: Config,
    second_after: Config,
    d: Config,
    tab: usize,
    dev: Option<DeviceKey>,
)
    requires
        tab != 2,
        tab_restored(first, first_after, d, tab, dev),
        tab_restored(second, second_after, d, tab, dev),
        first.startup == second.startup,
        first.mouse == second.mouse,
        tab != 0 ==> first.i18n == second.i18n && first.logging == second.logging
            && first.appearance.theme == second.appearance.theme && first.appearance.glass_style
            == second.appearance.glass_style && first.appearance.glass_tint
            == second.appearance.glass_tint,
        tab != 1 ==> first.windows == second.windows && first.layout == second.layout
            && first.fonts == second.fonts && first.keyboard == second.keyboard
            && first.appearance.corner_radius == second.appearance.corner_radius,
        tab != 3 ==> first.clipboard == second.clipboard,
        tab != 4 ==> first.window_control == second.window_control,
        tab != 5 ==> first.quick_actions == second.quick_actions,
        tab < 6 ==> first.updates == second.updates,
    ensures
        first_after == second_after,
{
}

/// Asking for a state brings every control that has its views to that state, and leaves
/// one without views alone.
pub proof fn controls_do_what_they_are_asked(c: RestoreDefaultsControl, expanded: bool)
    ensures
        c.trigger != 0 && c.confirm != 0 && c.cancel != 0 && c.surface != 0 && c.container != 0
            ==> c.toggled(expanded).expanded == expanded,
        c.trigger == 0 || c.confirm == 0 || c.cancel == 0 || c.surface == 0 || c.container == 0
            ==> c.toggled(expanded) == c,
        (RestoreDefaultsControl { expanded: c.expanded, ..c.toggled(expanded) }) == c,
{
}

/// What is seen of a control fits its state. An open one shows the confirm button, the
/// cancel button in front, and the card over the whole container; a closed one shows the
/// trigger in front, and its card shrinks to the trigger. What is asked for twice is
/// done once.
pub proof fn looks_fit_the_state(
    c: RestoreDefaultsControl,
    frames: RestoreFrames,
    expanded: bool,
    animated: bool,
    reduce_motion: bool,
)
    requires
        c.inv(),
        frames.valid(),
    ensures
        c.toggled(expanded).plan(frames, expanded, animated, reduce_motion) is None,
        c.toggled(expanded) == c ==> c.plan(frames, expanded, animated, reduce_motion) is None,
        c.toggled(expanded) != c ==> {
            &&& c.plan(frames, expanded, animated, reduce_motion) matches Some(plan)
            &&& expanded ==> {
                &&& plan.front is Cancel
                &&& plan.trigger_alpha.to == 0
                &&& plan.cancel_alpha.to == 100
                &&& plan.surface_alpha.to == 100
                &&& plan.confirm.to.opacity == 100
                &&& plan.confirm.to.offset == 0
                &&& plan.confirm.to.scale == 100
                &&& plan.surface_hidden == Some(false)
                &&& plan.surface == plan.container
                &&& plan.container.h == c.expanded_h
                &&& plan.shadow.to > 0
            }
            &&& !expanded ==> {
                &&& plan.front is Trigger
                &&& plan.trigger_alpha.to == 100
                &&& plan.cancel_alpha.to == 0
                &&& plan.surface_alpha.to == 0
                &&& plan.confirm.to.opacity == 0
                &&& plan.surface_hidden != Some(false)
                &&& plan.surface.x == frames.container.x + frames.trigger.x
                &&& plan.surface.y == frames.container.y + frames.trigger.y
                &&& plan.surface.w == frames.trigger.w
                &&& plan.surface.h == frames.trigger.h
                &&& plan.container.h == c.collapsed_h
                &&& plan.shadow.to == 0
                &&& plan.rows is None
            }
            &&& plan.container.x == frames.container.x
            &&& plan.container.y == frames.container.y
            &&& plan.container.w == frames.container.w
            &&& plan.separator is Some <==> c.separator != 0
            &&& plan.separator matches Some(line) ==> {
                &&& line.y - frames.separator.y == if expanded { 51_000int } else { -51_000 }
                &&& line.x == frames.separator.x && line.w == frames.separator.w && line.h
                    == frames.separator.h
            }
        },
{
}

/// Without animation, or with reduced motion, everything jumps; else everything that
/// moves takes its time, and frames and shadow move together.
pub proof fn motion_is_all_or_nothing(
    c: RestoreDefaultsControl,
    frames: RestoreFrames,
    expanded: bool,
    animated: bool,
    reduce_motion: bool,
)
    requires
        c.toggled(expanded) != c,
    ensures
        c.plan(frames, expanded, animated, reduce_motion) matches Some(plan) && {
            let moves = animated && !reduce_motion;
            &&& (plan.trigger_alpha.motion is AtOnce) != moves
            &&& (plan.cancel_alpha.motion is AtOnce) != moves
            &&& (plan.surface_alpha.motion is AtOnce) != moves
            &&& (plan.confirm.motion is AtOnce) != moves
            &&& (plan.shadow.motion is AtOnce) != moves
            &&& plan.frame_motion == plan.shadow.motion
            &&& plan.confirm.from is Some ==> moves && expanded
            &&& moves && expanded ==> plan.confirm.from == Some(
                ContentLook { opacity: 0, offset: 8_000, scale: 98 },
            )
            &&& moves ==> plan.frame_motion == (Motion::Spring {
                milliseconds: 580,
                stiffness: 160,
                damping: 24,
            })
            &&& moves && expanded ==> {
                &&& plan.trigger_alpha.motion == (Motion::Ease { milliseconds: 160 })
                &&& plan.cancel_alpha.motion == (Motion::Spring {
                    milliseconds: 380,
                    stiffness: 350,
                    damping: 36,
                })
                &&& plan.surface_alpha.motion == (Motion::Ease { milliseconds: 250 })
                &&& plan.confirm.motion == (Motion::Spring {
                    milliseconds: 460,
                    stiffness: 266,
                    damping: 30,
                })
                &&& plan.shadow.to == 12
            }
            &&& moves && !expanded ==> {
                &&& plan.cancel_alpha.motion == (Motion::Ease { milliseconds: 160 })
                &&& plan.trigger_alpha.motion == (Motion::Spring {
                    milliseconds: 380,
                    stiffness: 350,
                    damping: 36,
                })
                &&& plan.surface_alpha.motion == (Motion::Ease { milliseconds: 450 })
                &&& plan.confirm.motion == (Motion::Ease { milliseconds: 80 })
                &&& plan.confirm.to.offset == 6_000
                &&& plan.confirm.to.scale == 98
            }
            &&& !expanded ==> plan.surface_hidden == if moves { None } else { Some(true) }
        },
{
}

/// The card of the page that is asked for is open afterwards, where it has its views, and
/// the cards of all other pages are closed, with a plan exactly where that is a change.
pub proof fn asked_page_is_the_open_one(
    before: Seq<RestoreDefaultsControl>,
    after: Seq<RestoreDefaultsControl>,
    frames: Seq<RestoreFrames>,
    selected: usize,
    expanded: bool,
    animated: bool,
    reduce_motion: bool,
    i: int,
)
    requires
        pages_toggled(before, after, page_to_open(selected, expanded)),
        0 <= i < before.len(),
        before[i].inv(),
    ensures
        after.len() == before.len(),
        after[i].expanded == (expanded && i == selected && before[i].ready()),
        ({
            let plans = page_plans(
                before,
                frames,
                page_to_open(selected, expanded),
                animated,
                reduce_motion,
            );
            &&& plans.len() == before.len()
            &&& plans[i] is Some <==> before[i].expanded != after[i].expanded
            &&& plans[i] == before[i].plan(frames[i], after[i].expanded, animated, reduce_motion)
        }),
{
    assert(after[i] == before[i].toggled(page_to_open(selected, expanded) == Some(i)));
}

/// Some page card is open exactly where one of them is, the first and the last included.
pub proof fn every_page_card_counts(cards: RestoreCards, i: int)
    ensures
        0 <= i < cards.pages@.len() && cards.pages@[i].expanded ==> cards.some_page_open(),
        (forall|k: int| 0 <= k < cards.pages@.len() ==> !(#[trigger] cards.pages@[k]).expanded)
            ==> !cards.some_page_open(),
        0 <= i < cards.pages@.len() && cards.pages@[i].expanded && cards.all.expanded
            ==> !cards.one_open(),
{
}

} // verus!
