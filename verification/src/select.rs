//! The pop-up selects of a settings window, as one state machine.
//!
//! A registry holds the state of every select. Each event takes the registry to its
//! next state and yields the work that is left for the code that owns the views, in
//! the order in which it has to be done.
use std::collections::HashMap;

use vstd::prelude::*;

use crate::geometry::{rect_contains_point, Point, Rect};
use crate::palette::UiPalette;

verus! {

/// One select: its options, what is chosen, and the views of its open panel.
pub struct SettingsSelectState {
    pub items: Vec<String>,
    /// A symbol for each option that has one.
    pub item_symbols: Vec<Option<String>>,
    /// The chosen option; negative where there is none.
    pub selected: i64,
    /// The options panel, zero while there is none.
    pub panel: usize,
    /// The floating window that hosts the panel, zero while there is none.
    pub popup: usize,
    pub open: bool,
}

/// What a select is, apart from how its lists are stored.
#[verifier::ext_equal]
pub struct SelectView {
    pub items: Seq<Seq<char>>,
    pub item_symbols: Seq<Option<Seq<char>>>,
    pub selected: int,
    pub panel: usize,
    pub popup: usize,
    pub open: bool,
}

pub open spec fn text_of(s: String) -> Seq<char> {
    s@
}

pub open spec fn symbol_of(s: Option<String>) -> Option<Seq<char>> {
    match s {
        Some(t) => Some(t@),
        None => None,
    }
}

impl View for SettingsSelectState {
    type V = SelectView;

    open spec fn view(&self) -> SelectView {
        SelectView {
            items: self.items@.map_values(|s: String| text_of(s)),
            item_symbols: self.item_symbols@.map_values(|s: Option<String>| symbol_of(s)),
            selected: self.selected as int,
            panel: self.panel,
            popup: self.popup,
            open: self.open,
        }
    }
}

/// Work for the owner of the views.
#[derive(Clone, Copy, Debug, PartialEq, Eq, Structural)]
pub enum SelectEffect {
    /// Cancel the delayed appearance of the rows of a panel.
    CancelReveals { panel: usize },
    /// Fade a panel out.
    FadeOutPanel { panel: usize },
    /// Report the end of the fade to the registry once it is over.
    ScheduleFinishClose { select: usize, panel: usize },
    /// Withdraw such a report.
    CancelFinishClose { select: usize, panel: usize },
    /// Forget the labels of the rows of a panel.
    DropItemLabels { panel: usize },
    /// Take a panel out of its window.
    RemovePanel { panel: usize },
    /// Close a floating window.
    ClosePopup { popup: usize },
    /// Repaint a trigger.
    ApplyVisual { select: usize, open: bool },
    /// Start the opening sequence of a select.
    Open { select: usize },
    /// Watch for clicks outside the panel.
    InstallMonitor,
    /// Stop watching for clicks.
    RemoveMonitor { monitor: usize },
    /// Send the action of a select once the current event is over.
    SchedulePendingAction { select: usize },
    /// Hand a key to the system's own interpretation.
    InterpretKey,
}

/// The registry of all selects.
pub struct SelectRegistry {
    pub states: HashMap<usize, SettingsSelectState>,
    /// The title label of each trigger.
    pub label_views: HashMap<usize, usize>,
    /// The arrow of each trigger.
    pub arrow_views: HashMap<usize, usize>,
    /// The label of each option row.
    pub item_label_views: HashMap<usize, usize>,
    /// The select whose panel is open.
    pub active: Option<usize>,
    /// The monitor for clicks outside the panel.
    pub monitor: Option<usize>,
}

/// What the registry knows.
#[verifier::ext_equal]
pub struct SelectModel {
    pub states: Map<usize, SelectView>,
    pub label_views: Map<usize, usize>,
    pub arrow_views: Map<usize, usize>,
    pub item_label_views: Map<usize, usize>,
    pub active: Option<usize>,
    pub monitor: Option<usize>,
}

impl View for SelectRegistry {
    type V = SelectModel;

    open spec fn view(&self) -> SelectModel {
        SelectModel {
            states: self.states@.map_values(|s: SettingsSelectState| s@),
            label_views: self.label_views@,
            arrow_views: self.arrow_views@,
            item_label_views: self.item_label_views@,
            active: self.active,
            monitor: self.monitor,
        }
    }
}

impl SelectModel {
    /// At most the active select is open, the active select is known, and every
    /// option has a place for a symbol.
    pub open spec fn inv(self) -> bool {
        &&& forall|k: usize| #[trigger]
            self.states.contains_key(k) && self.states[k].open ==> self.active == Some(k)
        &&& self.active matches Some(k) ==> self.states.contains_key(k)
        &&& forall|k: usize| #[trigger]
            self.states.contains_key(k) ==> self.states[k].item_symbols.len()
                == self.states[k].items.len()
    }

    pub open spec fn with_state(self, k: usize, s: SelectView) -> SelectModel {
        SelectModel { states: self.states.insert(k, s), ..self }
    }

    pub open spec fn is_open(self, k: usize) -> bool {
        self.states.contains_key(k) && self.states[k].open
    }

    /// Closing a select: it is no longer open or active; its panel stays until the
    /// fade is over.
    pub open spec fn closed(self, k: usize) -> SelectModel {
        if self.states.contains_key(k) {
            SelectModel {
                states: self.states.insert(k, SelectView { open: false, ..self.states[k] }),
                active: if self.active == Some(k) { None } else { self.active },
                ..self
            }
        } else {
            self
        }
    }

    /// What closing a select leaves to be done.
    pub open spec fn close_effects(self, k: usize) -> Seq<SelectEffect> {
        if !self.states.contains_key(k) {
            seq![]
        } else if self.states[k].panel != 0 {
            let panel = self.states[k].panel;
            seq![
                SelectEffect::CancelReveals { panel },
                SelectEffect::FadeOutPanel { panel },
                SelectEffect::ScheduleFinishClose { select: k, panel },
                SelectEffect::ApplyVisual { select: k, open: false },
            ]
        } else {
            seq![SelectEffect::ApplyVisual { select: k, open: false }]
        }
    }

    /// The end of a fade matters only to a closed select that still shows the panel.
    pub open spec fn finish_applies(self, k: usize, panel: usize) -> bool {
        self.states.contains_key(k) && !self.states[k].open && self.states[k].panel == panel
    }

    pub open spec fn finished(self, k: usize, panel: usize) -> SelectModel {
        if self.finish_applies(k, panel) {
            SelectModel {
                states: self.states.insert(k, SelectView { panel: 0, popup: 0, ..self.states[k] }),
                monitor: if self.active is None { None } else { self.monitor },
                ..self
            }
        } else {
            self
        }
    }

    pub open spec fn finish_effects(self, k: usize, panel: usize) -> Seq<SelectEffect> {
        if !self.finish_applies(k, panel) {
            seq![]
        } else {
            let views: Seq<SelectEffect> = if panel != 0 {
                seq![SelectEffect::DropItemLabels { panel }, SelectEffect::RemovePanel { panel }]
            } else {
                seq![]
            };
            let popup = self.states[k].popup;
            let windows = if popup != 0 {
                views.push(SelectEffect::ClosePopup { popup })
            } else {
                views
            };
            match self.monitor {
                Some(monitor) if self.active is None => windows.push(
                    SelectEffect::RemoveMonitor { monitor },
                ),
                _ => windows,
            }
        }
    }

    pub open spec fn click_is_outside(
        self,
        k: usize,
        click: Option<Point>,
        panel: Option<Rect>,
        trigger: Option<Rect>,
    ) -> bool {
        match click {
            None => true,
            Some(p) => {
                let in_panel = self.states[k].panel != 0 && (panel matches Some(r) && r.holds(p));
                let on_trigger = trigger matches Some(r) && r.holds(p);
                !in_panel && !on_trigger
            },
        }
    }

    /// The registry once every select but `k` is closed.
    pub open spec fn others_closed(self, k: usize) -> SelectModel {
        match self.active {
            Some(other) if other != k => self.closed(other),
            _ => self,
        }
    }

    pub open spec fn opening(self, k: usize, in_window: bool) -> SelectModel {
        let base = self.others_closed(k);
        if in_window && base.states.contains_key(k) && !base.states[k].open {
            base.with_state(k, SelectView { panel: 0, popup: 0, ..base.states[k] })
        } else if in_window {
            base
        } else {
            self
        }
    }

    pub open spec fn opening_effects(self, k: usize, in_window: bool) -> Seq<SelectEffect> {
        let base = self.others_closed(k);
        let closing: Seq<SelectEffect> = match self.active {
            Some(other) if other != k => self.close_effects(other),
            _ => seq![],
        };
        if !in_window {
            seq![]
        } else if base.states.contains_key(k) && !base.states[k].open {
            let panel = base.states[k].panel;
            let popup = base.states[k].popup;
            let stale: Seq<SelectEffect> = if panel != 0 {
                seq![
                    SelectEffect::CancelFinishClose { select: k, panel },
                    SelectEffect::DropItemLabels { panel },
                    SelectEffect::RemovePanel { panel },
                ]
            } else {
                seq![]
            };
            let windows: Seq<SelectEffect> = if popup != 0 {
                seq![SelectEffect::ClosePopup { popup }]
            } else {
                seq![]
            };
            closing + stale + windows
        } else {
            closing
        }
    }

    /// A closed select with options opens; the row marked is the chosen one, or the
    /// first where none is chosen.
    pub open spec fn opening_row(self, k: usize, in_window: bool) -> Option<int> {
        let base = self.others_closed(k);
        if in_window && base.states.contains_key(k) && !base.states[k].open
            && base.states[k].items.len() > 0 {
            Some(if base.states[k].selected < 0 { 0 } else { base.states[k].selected })
        } else {
            None
        }
    }

    /// A known select while no other one is open.
    pub open spec fn ready_to_open(self, k: usize) -> bool {
        self.states.contains_key(k) && (self.active is None || self.active == Some(k))
    }

    pub open spec fn has_option(self, k: usize, index: int) -> bool {
        self.states.contains_key(k) && 0 <= index < self.states[k].items.len()
    }

    pub open spec fn with_selected(self, k: usize, index: int) -> SelectModel {
        self.with_state(k, SelectView { selected: index, ..self.states[k] })
    }

    /// A select that counts as open without a visible window.
    pub open spec fn stale(self, k: usize, popup_visible: bool) -> bool {
        self.is_open(k) && (self.states[k].popup == 0 || !popup_visible)
    }

    pub open spec fn pressed(self, k: usize, enabled: bool, popup_visible: bool) -> SelectModel {
        if !enabled || !self.is_open(k) {
            self
        } else if self.stale(k, popup_visible) {
            SelectModel {
                states: self.states.insert(
                    k,
                    SelectView { panel: 0, popup: 0, open: false, ..self.states[k] },
                ),
                active: if self.active == Some(k) { None } else { self.active },
                ..self
            }
        } else {
            self.closed(k)
        }
    }

    pub open spec fn press_effects(self, k: usize, enabled: bool, popup_visible: bool) -> Seq<
        SelectEffect,
    > {
        if !enabled {
            seq![]
        } else if self.stale(k, popup_visible) {
            let popup = self.states[k].popup;
            let windows: Seq<SelectEffect> = if popup != 0 {
                seq![SelectEffect::ClosePopup { popup }]
            } else {
                seq![]
            };
            windows + seq![
                SelectEffect::ApplyVisual { select: k, open: false },
                SelectEffect::Open { select: k },
            ]
        } else if self.is_open(k) {
            self.close_effects(k)
        } else {
            seq![SelectEffect::Open { select: k }]
        }
    }

    pub open spec fn emptied(self, k: usize) -> SelectModel {
        let base = if self.is_open(k) { self.closed(k) } else { self };
        if base.states.contains_key(k) {
            base.with_state(
                k,
                SelectView { items: seq![], item_symbols: seq![], selected: -1, ..base.states[k] },
            )
        } else {
            base
        }
    }

    pub open spec fn with_item(self, k: usize, title: Seq<char>) -> SelectModel {
        if self.states.contains_key(k) {
            let s = self.states[k];
            self.with_state(
                k,
                SelectView {
                    items: s.items.push(title),
                    item_symbols: s.item_symbols.push(None),
                    selected: if s.selected < 0 { 0 } else { s.selected },
                    ..s
                },
            )
        } else {
            self
        }
    }

    pub open spec fn with_symbol(self, k: usize, index: int, symbol: Seq<char>) -> SelectModel {
        if self.states.contains_key(k) && 0 <= index < self.states[k].item_symbols.len() {
            let s = self.states[k];
            self.with_state(
                k,
                SelectView { item_symbols: s.item_symbols.update(index, Some(symbol)), ..s },
            )
        } else {
            self
        }
    }

    pub open spec fn title(self, k: usize) -> Seq<char> {
        if self.states.contains_key(k) {
            let s = self.states[k];
            let index = if s.selected < 0 { 0 } else { s.selected };
            if index < s.items.len() { s.items[index] } else { seq![] }
        } else {
            seq![]
        }
    }

    /// The windows to close when the given selects go, in that order.
    pub open spec fn popups_of(self, order: Seq<usize>) -> Seq<SelectEffect>
        decreases order.len(),
    {
        if order.len() == 0 {
            seq![]
        } else {
            let rest = self.popups_of(order.drop_last());
            let popup = self.states[order.last()].popup;
            if popup != 0 { rest.push(SelectEffect::ClosePopup { popup }) } else { rest }
        }
    }

    pub open spec fn clear_effects(self, order: Seq<usize>) -> Seq<SelectEffect> {
        match self.monitor {
            Some(monitor) => self.popups_of(order).push(SelectEffect::RemoveMonitor { monitor }),
            None => self.popups_of(order),
        }
    }
}

impl SelectRegistry {
    pub fn new() -> (r: SelectRegistry)
        ensures
            r@.states == Map::<usize, SelectView>::empty(),
            r@.label_views == Map::<usize, usize>::empty(),
            r@.arrow_views == Map::<usize, usize>::empty(),
            r@.item_label_views == Map::<usize, usize>::empty(),
            r@.active is None,
            r@.monitor is None,
            r@.inv(),
    {
        broadcast use vstd::std_specs::hash::group_hash_axioms;

        let r = SelectRegistry {
            states: HashMap::new(),
            label_views: HashMap::new(),
            arrow_views: HashMap::new(),
            item_label_views: HashMap::new(),
            active: None,
            monitor: None,
        };
        assert(r@.states =~= Map::<usize, SelectView>::empty());
        r
    }

    /// Closes the panel of a select.
    pub fn settings_select_close(&mut self, select: usize) -> (r: Vec<SelectEffect>)
        requires
            old(self)@.inv(),
        ensures
            final(self)@ == old(self)@.closed(select),
            final(self)@.inv(),
            r@ == old(self)@.close_effects(select),
    {
        broadcast use vstd::std_specs::hash::group_hash_axioms;

        let mut effects: Vec<SelectEffect> = Vec::new();
        let removed = self.states.remove(&select);
        match removed {
            None => {
                assert(self@.states =~= old(self)@.states);
                effects
            },
            Some(mut state) => {
                state.open = false;
                let panel = state.panel;
                self.states.insert(select, state);
                if panel != 0 {
                    effects.push(SelectEffect::CancelReveals { panel });
                    effects.push(SelectEffect::FadeOutPanel { panel });
                    effects.push(SelectEffect::ScheduleFinishClose { select, panel });
                }
                if self.active == Some(select) {
                    self.active = None;
                }
                effects.push(SelectEffect::ApplyVisual { select, open: false });
                assert(self@.states =~= old(self)@.closed(select).states);
                effects
            },
        }
    }

    /// Forgets the panel of a select once its fade is over, unless the select was
    /// opened again or shows another panel by then.
    pub fn settings_select_finish_close(&mut self, select: usize, panel: usize) -> (r: Vec<
        SelectEffect,
    >)
        requires
            old(self)@.inv(),
        ensures
            final(self)@ == old(self)@.finished(select, panel),
            final(self)@.inv(),
            r@ == old(self)@.finish_effects(select, panel),
    {
        broadcast use vstd::std_specs::hash::group_hash_axioms;

        let mut effects: Vec<SelectEffect> = Vec::new();
        let removed = self.states.remove(&select);
        match removed {
            None => {
                assert(self@.states =~= old(self)@.states);
            },
            Some(mut state) => {
                if state.open || state.panel != panel {
                    self.states.insert(select, state);
                    assert(self@.states =~= old(self)@.states);
                } else {
                    let popup = state.popup;
                    state.panel = 0;
                    state.popup = 0;
                    self.states.insert(select, state);
                    assert(self@.states =~= old(self)@.finished(select, panel).states);
                    if panel != 0 {
                        effects.push(SelectEffect::DropItemLabels { panel });
                        effects.push(SelectEffect::RemovePanel { panel });
                    }
                    if popup != 0 {
                        effects.push(SelectEffect::ClosePopup { popup });
                    }
                    if self.active.is_none() {
                        let monitor = self.monitor.take();
                        if let Some(m) = monitor {
                            effects.push(SelectEffect::RemoveMonitor { monitor: m });
                        }
                    }
                }
            },
        }
        effects
    }

    /// Records the monitor that was installed; zero means that there is none.
    pub fn install_select_monitor(&mut self, monitor: usize)
        requires
            old(self)@.inv(),
        ensures
            final(self)@ == (SelectModel {
                monitor: if old(self)@.monitor is None && monitor != 0 {
                    Some(monitor)
                } else {
                    old(self)@.monitor
                },
                ..old(self)@
            }),
            final(self)@.inv(),
    {
        if self.monitor.is_none() && monitor != 0 {
            self.monitor = Some(monitor);
        }
    }

    /// Decides whether a mouse click closes the open select: it does unless it lies
    /// in the panel or on the trigger. A click that belongs to no window always
    /// does. The rectangles are those of the views on the screen, where they are on
    /// one.
    pub fn close_select_on_outside_click(
        &mut self,
        click: Option<Point>,
        panel_rect: Option<Rect>,
        trigger_rect: Option<Rect>,
    ) -> (r: Vec<SelectEffect>)
        requires
            old(self)@.inv(),
            panel_rect matches Some(p) ==> p.valid(),
            trigger_rect matches Some(t) ==> t.valid(),
        ensures
            final(self)@.inv(),
            match old(self)@.active {
                Some(k) if old(self)@.click_is_outside(k, click, panel_rect, trigger_rect) => {
                    &&& final(self)@ == old(self)@.closed(k)
                    &&& r@ == old(self)@.close_effects(k)
                },
                _ => final(self)@ == old(self)@ && r@ == Seq::<SelectEffect>::empty(),
            },
    {
        broadcast use vstd::std_specs::hash::group_hash_axioms;

        let select = match self.active {
            Some(k) => k,
            None => {
                return Vec::new();
            },
        };
        let point = match click {
            Some(p) => p,
            None => {
                return self.settings_select_close(select);
            },
        };
        let panel = match self.states.get(&select) {
            Some(state) => state.panel,
            None => 0,
        };
        if panel != 0 {
            if let Some(rect) = panel_rect {
                if rect_contains_point(rect, point) {
                    return Vec::new();
                }
            }
        }
        if let Some(rect) = trigger_rect {
            if rect_contains_point(rect, point) {
                return Vec::new();
            }
        }
        self.settings_select_close(select)
    }

    /// First half of opening a select: closes another one that is open, throws away
    /// what is left of an earlier panel, and tells whether there is something to
    /// show. The answer holds the row that is marked as chosen.
    pub fn settings_select_open(&mut self, select: usize, in_window: bool) -> (r: (
        Vec<SelectEffect>,
        Option<i64>,
    ))
        requires
            old(self)@.inv(),
        ensures
            final(self)@.inv(),
            final(self)@ == old(self)@.opening(select, in_window),
            r.0@ == old(self)@.opening_effects(select, in_window),
            match r.1 {
                Some(row) => old(self)@.opening_row(select, in_window) == Some(row as int),
                None => old(self)@.opening_row(select, in_window) is None,
            },
            r.1 is Some ==> final(self)@.ready_to_open(select),
    {
        broadcast use vstd::std_specs::hash::group_hash_axioms;

        let mut effects: Vec<SelectEffect> = Vec::new();
        if !in_window {
            return (effects, None);
        }
        if let Some(active) = self.active {
            if active != select {
                effects = self.settings_select_close(active);
            }
        }
        let ghost cleared = *self;
        assert(cleared@ == old(self)@.others_closed(select));
        let removed = self.states.remove(&select);
        match removed {
            None => {
                assert(self@.states =~= cleared@.states);
                assert(effects@ =~= old(self)@.opening_effects(select, in_window));
                (effects, None)
            },
            Some(mut state) => {
                if state.open {
                    self.states.insert(select, state);
                    assert(self@.states =~= cleared@.states);
                    assert(effects@ =~= old(self)@.opening_effects(select, in_window));
                    return (effects, None);
                }
                let panel = state.panel;
                let popup = state.popup;
                state.panel = 0;
                state.popup = 0;
                let row = if state.items.len() == 0 {
                    None
                } else if state.selected < 0 {
                    Some(0)
                } else {
                    Some(state.selected)
                };
                self.states.insert(select, state);
                assert(self@.states =~= old(self)@.opening(select, in_window).states);
                if panel != 0 {
                    effects.push(SelectEffect::CancelFinishClose { select, panel });
                    effects.push(SelectEffect::DropItemLabels { panel });
                    effects.push(SelectEffect::RemovePanel { panel });
                }
                if popup != 0 {
                    effects.push(SelectEffect::ClosePopup { popup });
                }
                assert(effects@ =~= old(self)@.opening_effects(select, in_window));
                (effects, row)
            },
        }
    }

    /// Second half of opening a select: records the views that were made for it.
    pub fn settings_select_opened(&mut self, select: usize, panel: usize, popup: usize) -> (r: Vec<
        SelectEffect,
    >)
        requires
            old(self)@.inv(),
            old(self)@.ready_to_open(select),
        ensures
            final(self)@.inv(),
            final(self)@ == (SelectModel {
                states: old(self)@.states.insert(
                    select,
                    SelectView { panel, popup, open: true, ..old(self)@.states[select] },
                ),
                active: Some(select),
                ..old(self)@
            }),
            r@ == if old(self)@.monitor is None {
                seq![
                    SelectEffect::ApplyVisual { select, open: true },
                    SelectEffect::InstallMonitor,
                ]
            } else {
                seq![SelectEffect::ApplyVisual { select, open: true }]
            },
    {
        broadcast use vstd::std_specs::hash::group_hash_axioms;

        let mut effects: Vec<SelectEffect> = Vec::new();
        let removed = self.states.remove(&select);
        if let Some(mut state) = removed {
            state.panel = panel;
            state.popup = popup;
            state.open = true;
            self.states.insert(select, state);
        }
        self.active = Some(select);
        assert(self@.states =~= old(self)@.states.insert(
            select,
            SelectView { panel, popup, open: true, ..old(self)@.states[select] },
        ));
        effects.push(SelectEffect::ApplyVisual { select, open: true });
        if self.monitor.is_none() {
            effects.push(SelectEffect::InstallMonitor);
        }
        effects
    }

    /// Chooses an option by a click on its row.
    pub fn settings_select_select_option(&mut self, select: usize, index: i64) -> (r: Vec<
        SelectEffect,
    >)
        requires
            old(self)@.inv(),
        ensures
            final(self)@.inv(),
            old(self)@.has_option(select, index as int) ==> {
                &&& final(self)@ == old(self)@.with_selected(select, index as int).closed(select)
                &&& r@ == old(self)@.close_effects(select).push(
                    SelectEffect::SchedulePendingAction { select },
                )
            },
            !old(self)@.has_option(select, index as int) ==> final(self)@ == old(self)@ && r@
                == Seq::<SelectEffect>::empty(),
    {
        broadcast use vstd::std_specs::hash::group_hash_axioms;

        if !self.write_selected(select, index) {
            return Vec::new();
        }
        let mut effects = self.settings_select_close(select);
        effects.push(SelectEffect::SchedulePendingAction { select });
        effects
    }

    /// Writes the chosen option where the index names one.
    fn write_selected(&mut self, select: usize, index: i64) -> (r: bool)
        requires
            old(self)@.inv(),
        ensures
            final(self)@.inv(),
            r == old(self)@.has_option(select, index as int),
            r ==> final(self)@ == old(self)@.with_selected(select, index as int),
            !r ==> final(self)@ == old(self)@,
    {
        broadcast use vstd::std_specs::hash::group_hash_axioms;

        let removed = self.states.remove(&select);
        match removed {
            None => {
                assert(self@.states =~= old(self)@.states);
                false
            },
            Some(mut state) => {
                let valid = index >= 0 && (index as u64) < (state.items.len() as u64);
                if valid {
                    state.selected = index;
                }
                self.states.insert(select, state);
                if valid {
                    assert(self@.states =~= old(self)@.with_selected(select, index as int).states);
                } else {
                    assert(self@.states =~= old(self)@.states);
                }
                valid
            },
        }
    }

    /// A mouse click on a trigger opens or closes its panel. A select that counts as
    /// open but whose window is gone is repaired first and then opened.
    pub fn settings_select_mouse_down(
        &mut self,
        select: usize,
        enabled: bool,
        popup_visible: bool,
    ) -> (r: Vec<SelectEffect>)
        requires
            old(self)@.inv(),
        ensures
            final(self)@.inv(),
            final(self)@ == old(self)@.pressed(select, enabled, popup_visible),
            r@ == old(self)@.press_effects(select, enabled, popup_visible),
    {
        broadcast use vstd::std_specs::hash::group_hash_axioms;

        let mut effects: Vec<SelectEffect> = Vec::new();
        if !enabled {
            return effects;
        }
        let (open, popup) = match self.states.get(&select) {
            Some(state) => (state.open, state.popup),
            None => (false, 0),
        };
        let stale = open && (popup == 0 || !popup_visible);
        if stale {
            let removed = self.states.remove(&select);
            if let Some(mut state) = removed {
                state.open = false;
                state.panel = 0;
                state.popup = 0;
                self.states.insert(select, state);
            }
            if self.active == Some(select) {
                self.active = None;
            }
            assert(self@.states =~= old(self)@.pressed(select, enabled, popup_visible).states);
            if popup != 0 {
                effects.push(SelectEffect::ClosePopup { popup });
            }
            effects.push(SelectEffect::ApplyVisual { select, open: false });
        }
        if open && !stale {
            effects = self.settings_select_close(select);
        } else {
            effects.push(SelectEffect::Open { select });
        }
        assert(effects@ =~= old(self)@.press_effects(select, enabled, popup_visible));
        effects
    }

    /// Keyboard control of a focused trigger: Return and Space open or close the
    /// panel, the vertical arrows open it, Escape closes it. Other keys are passed
    /// on.
    pub fn settings_select_key_down(&mut self, select: usize, key_code: u16) -> (r: Vec<
        SelectEffect,
    >)
        requires
            old(self)@.inv(),
        ensures
            final(self)@.inv(),
            ({
                let was_open = old(self)@.is_open(select);
                let toggles = key_code == 36 || key_code == 49;
                let opens = key_code == 125 || key_code == 126;
                if key_code == 53 || (toggles && was_open) {
                    &&& final(self)@ == old(self)@.closed(select)
                    &&& r@ == old(self)@.close_effects(select)
                } else {
                    &&& final(self)@ == old(self)@
                    &&& r@ == if toggles || (opens && !was_open) {
                        seq![SelectEffect::Open { select }]
                    } else if opens {
                        seq![]
                    } else {
                        seq![SelectEffect::InterpretKey]
                    }
                }
            }),
    {
        broadcast use vstd::std_specs::hash::group_hash_axioms;

        let mut effects: Vec<SelectEffect> = Vec::new();
        let open = self.settings_select_is_open(select);
        if key_code == 36 || key_code == 49 {
            if open {
                return self.settings_select_close(select);
            }
            effects.push(SelectEffect::Open { select });
        } else if key_code == 125 || key_code == 126 {
            if !open {
                effects.push(SelectEffect::Open { select });
            }
        } else if key_code == 53 {
            return self.settings_select_close(select);
        } else {
            effects.push(SelectEffect::InterpretKey);
        }
        effects
    }

    /// Whether the panel of a select is open.
    pub fn settings_select_is_open(&self, select: usize) -> (r: bool)
        ensures
            r == self@.is_open(select),
    {
        broadcast use vstd::std_specs::hash::group_hash_axioms;

        match self.states.get(&select) {
            Some(state) => state.open,
            None => false,
        }
    }

    /// The chosen option, or -1 for an unknown select.
    pub fn settings_select_index(&self, select: usize) -> (r: i64)
        ensures
            r == if self@.states.contains_key(select) {
                self@.states[select].selected
            } else {
                -1
            },
    {
        broadcast use vstd::std_specs::hash::group_hash_axioms;

        match self.states.get(&select) {
            Some(state) => state.selected,
            None => -1,
        }
    }

    /// Chooses an option from code; an index that names no option changes nothing.
    pub fn settings_select_set_index(&mut self, select: usize, index: i64) -> (r: SelectEffect)
        requires
            old(self)@.inv(),
        ensures
            final(self)@.inv(),
            final(self)@ == if old(self)@.has_option(select, index as int) {
                old(self)@.with_selected(select, index as int)
            } else {
                old(self)@
            },
            r == (SelectEffect::ApplyVisual { select, open: old(self)@.is_open(select) }),
    {
        self.write_selected(select, index);
        SelectEffect::ApplyVisual { select, open: self.settings_select_is_open(select) }
    }

    /// Removes every option, closing the panel first.
    pub fn settings_select_remove_all(&mut self, select: usize) -> (r: Vec<SelectEffect>)
        requires
            old(self)@.inv(),
        ensures
            final(self)@.inv(),
            final(self)@ == old(self)@.emptied(select),
            r@ == (if old(self)@.is_open(select) {
                old(self)@.close_effects(select)
            } else {
                seq![]
            }).push(SelectEffect::ApplyVisual { select, open: false }),
    {
        broadcast use vstd::std_specs::hash::group_hash_axioms;

        let mut effects: Vec<SelectEffect> = Vec::new();
        if self.settings_select_is_open(select) {
            effects = self.settings_select_close(select);
        }
        let removed = self.states.remove(&select);
        if let Some(mut state) = removed {
            state.items.clear();
            state.item_symbols.clear();
            state.selected = -1;
            assert(state@.items =~= Seq::<Seq<char>>::empty());
            assert(state@.item_symbols =~= Seq::<Option<Seq<char>>>::empty());
            self.states.insert(select, state);
        }
        assert(self@.states =~= old(self)@.emptied(select).states);
        effects.push(SelectEffect::ApplyVisual { select, open: false });
        effects
    }

    /// Appends an option; the first one becomes the choice where there was none.
    pub fn settings_select_add_item(&mut self, select: usize, title: String) -> (r: SelectEffect)
        requires
            old(self)@.inv(),
        ensures
            final(self)@.inv(),
            final(self)@ == old(self)@.with_item(select, title@),
            r == (SelectEffect::ApplyVisual { select, open: old(self)@.is_open(select) }),
    {
        broadcast use vstd::std_specs::hash::group_hash_axioms;

        let ghost text = title@;
        let removed = self.states.remove(&select);
        if let Some(mut state) = removed {
            let ghost before = state;
            state.items.push(title);
            state.item_symbols.push(None);
            if state.selected < 0 {
                state.selected = 0;
            }
            assert(state@.items =~= before@.items.push(text));
            assert(state@.item_symbols =~= before@.item_symbols.push(None));
            self.states.insert(select, state);
        }
        assert(self@.states =~= old(self)@.with_item(select, text).states);
        SelectEffect::ApplyVisual { select, open: self.settings_select_is_open(select) }
    }

    /// Gives one option a symbol; an index that names no option changes nothing.
    pub fn settings_select_set_item_symbol(&mut self, select: usize, index: usize, symbol: &str)
        requires
            old(self)@.inv(),
        ensures
            final(self)@.inv(),
            final(self)@ == old(self)@.with_symbol(select, index as int, symbol@),
    {
        broadcast use vstd::std_specs::hash::group_hash_axioms;

        let removed = self.states.remove(&select);
        if let Some(mut state) = removed {
            let ghost before = state;
            if index < state.item_symbols.len() {
                state.item_symbols.set(index, Some(symbol.to_owned()));
                assert(state@.item_symbols =~= before@.item_symbols.update(
                    index as int,
                    Some(symbol@),
                ));
            }
            self.states.insert(select, state);
        }
        assert(self@.states =~= old(self)@.with_symbol(select, index as int, symbol@).states);
    }

    /// Registers a new select with its options.
    pub fn make_popup(&mut self, select: usize, items: Vec<String>, selected: usize)
        requires
            old(self)@.inv(),
            selected <= i64::MAX,
        ensures
            final(self)@.inv(),
            final(self)@.states == old(self)@.states.insert(
                select,
                SelectView {
                    items: items@.map_values(|s: String| text_of(s)),
                    item_symbols: Seq::new(items@.len(), |i: int| None::<Seq<char>>),
                    selected: selected as int,
                    panel: 0,
                    popup: 0,
                    open: false,
                },
            ),
            final(self)@ == (SelectModel { states: final(self)@.states, ..old(self)@ }),
    {
        broadcast use vstd::std_specs::hash::group_hash_axioms;

        let mut item_symbols: Vec<Option<String>> = Vec::new();
        let mut i: usize = 0;
        while i < items.len()
            invariant
                i <= items@.len(),
                item_symbols@.len() == i,
                forall|k: int| 0 <= k < i ==> (#[trigger] item_symbols@[k]) is None,
            decreases items@.len() - i,
        {
            item_symbols.push(None);
            i += 1;
        }
        let state = SettingsSelectState {
            items,
            item_symbols,
            selected: selected as i64,
            panel: 0,
            popup: 0,
            open: false,
        };
        assert(state@.item_symbols =~= Seq::new(items@.len(), |i: int| None::<Seq<char>>));
        let ghost added = state@;
        self.states.insert(select, state);
        assert(self@.states =~= old(self)@.states.insert(select, added));
    }

    /// The title that a trigger shows: its chosen option, the first one where none
    /// is chosen, and nothing where that does not exist.
    pub fn shown_title(&self, select: usize) -> (r: String)
        ensures
            r@ == self@.title(select),
    {
        broadcast use vstd::std_specs::hash::group_hash_axioms;

        match self.states.get(&select) {
            Some(state) => {
                let index: u64 = if state.selected < 0 { 0 } else { state.selected as u64 };
                if index < state.items.len() as u64 {
                    state.items[index as usize].clone()
                } else {
                    String::new()
                }
            },
            None => String::new(),
        }
    }

    /// The symbol of an option, where it has one.
    pub fn item_symbol(&self, select: usize, index: usize) -> (r: Option<String>)
        requires
            self@.inv(),
        ensures
            symbol_of(r) == if self@.states.contains_key(select) && index
                < self@.states[select].item_symbols.len() {
                self@.states[select].item_symbols[index as int]
            } else {
                None
            },
    {
        broadcast use vstd::std_specs::hash::group_hash_axioms;

        match self.states.get(&select) {
            Some(state) => {
                if index < state.item_symbols.len() {
                    match &state.item_symbols[index] {
                        Some(s) => Some(s.clone()),
                        None => None,
                    }
                } else {
                    None
                }
            },
            None => None,
        }
    }

    /// Whether a row is painted as chosen or as under the pointer, and with which
    /// background and text colours.
    pub fn settings_select_item_apply_background(
        &self,
        select: usize,
        index: i64,
        hovered: bool,
        palette: UiPalette,
    ) -> (r: (u32, u32))
        ensures
            ({
                let lit = hovered || (select != 0 && self@.states.contains_key(select)
                    && self@.states[select].selected == index);
                &&& r.0 == if lit { item_active_color(palette) } else { 0 }
                &&& r.1 == if lit { palette.primary_text } else { palette.muted_text }
            }),
    {
        broadcast use vstd::std_specs::hash::group_hash_axioms;

        let selected = select != 0 && match self.states.get(&select) {
            Some(state) => state.selected == index,
            None => false,
        };
        if selected || hovered {
            (settings_select_item_active_color(palette), palette.primary_text)
        } else {
            (0, palette.muted_text)
        }
    }

    /// Forgets the labels of the given rows.
    pub fn settings_select_remove_item_labels(&mut self, items: &Vec<usize>)
        requires
            old(self)@.inv(),
        ensures
            final(self)@.inv(),
            final(self)@ == (SelectModel {
                item_label_views: old(self)@.item_label_views.remove_keys(items@.to_set()),
                ..old(self)@
            }),
    {
        broadcast use vstd::std_specs::hash::group_hash_axioms;

        let mut i: usize = 0;
        while i < items.len()
            invariant
                i <= items@.len(),
                self.states == old(self).states,
                self.label_views == old(self).label_views,
                self.arrow_views == old(self).arrow_views,
                self.active == old(self).active,
                self.monitor == old(self).monitor,
                self@.item_label_views =~= old(self)@.item_label_views.remove_keys(
                    items@.take(i as int).to_set(),
                ),
            decreases items@.len() - i,
        {
            broadcast use vstd::std_specs::hash::group_hash_axioms;

            self.item_label_views.remove(&items[i]);
            proof {
                let prefix = items@.take(i as int);
                let longer = items@.take(i + 1);
                assert(longer =~= prefix.push(items@[i as int]));
                assert forall|k: usize| longer.to_set().contains(k) <==> (prefix.to_set().contains(
                    k,
                ) || k == items@[i as int]) by {
                    if prefix.to_set().contains(k) {
                        let j = choose|j: int| 0 <= j < prefix.len() && prefix[j] == k;
                        assert(longer[j] == k);
                    }
                    assert(longer[i as int] == items@[i as int]);
                }
            }
            i += 1;
        }
        assert(items@.take(items@.len() as int) =~= items@);
    }

    /// Drops everything before the window goes away. The floating windows that are
    /// still there are returned in no particular order, the monitor after them.
    pub fn clear_settings_select_registry(&mut self) -> (r: Vec<SelectEffect>)
        requires
            old(self)@.inv(),
        ensures
            final(self)@.inv(),
            final(self)@.states == Map::<usize, SelectView>::empty(),
            final(self)@.label_views == Map::<usize, usize>::empty(),
            final(self)@.arrow_views == Map::<usize, usize>::empty(),
            final(self)@.item_label_views == Map::<usize, usize>::empty(),
            final(self)@.active is None,
            final(self)@.monitor is None,
            exists|order: Seq<usize>|
                order.no_duplicates() && order.to_set() == old(self)@.states.dom() && r@
                    == #[trigger] old(self)@.clear_effects(order),
    {
        broadcast use vstd::std_specs::hash::group_hash_axioms;

        let mut effects: Vec<SelectEffect> = Vec::new();
        let ghost model = self@;
        let ghost mut order: Seq<usize> = seq![];
        for key in it: self.states.keys()
            invariant
                vstd::std_specs::hash::obeys_key_model::<usize>(),
                vstd::std_specs::hash::builds_valid_hashers::<std::hash::RandomState>(),
                model == self@,
                *self == *old(self),
                order =~= it.seq().unref().take(it.index() as int),
                it.seq().unref().to_set() == self.states@.dom(),
                it.seq().no_duplicates(),
                effects@ == model.popups_of(order),
                it.index() == it.seq().len() ==> order.to_set() =~= self.states@.dom(),
        {
            let ghost before = order;
            proof {
                order = before.push(*key);
                assert(it.seq().unref()[it.index() as int] == *key);
                assert(it.seq().unref().to_set().contains(*key));
                assert(order.drop_last() =~= before);
            }
            assert(it.index() + 1 == it.seq().len() ==> order =~= it.seq().unref());
            if let Some(state) = self.states.get(key) {
                if state.popup != 0 {
                    effects.push(SelectEffect::ClosePopup { popup: state.popup });
                }
            }
        }
        proof {
            assert(order.no_duplicates());
            assert(order.to_set() =~= old(self)@.states.dom());
        }
        let monitor = self.monitor.take();
        if let Some(m) = monitor {
            effects.push(SelectEffect::RemoveMonitor { monitor: m });
        }
        self.states.clear();
        self.label_views.clear();
        self.arrow_views.clear();
        self.item_label_views.clear();
        self.active = None;
        assert(self@.states =~= Map::<usize, SelectView>::empty());
        assert(effects@ =~= model.clear_effects(order));
        effects
    }
}

/// A child of an options panel: a row, or a scroll view with the rows of its
/// document where it has one.
pub enum PanelChild {
    Row(usize),
    Scroll(Option<Vec<usize>>),
}

/// The rows that a child contributes, with the missing ones left out.
pub open spec fn child_rows(child: PanelChild) -> Seq<usize> {
    match child {
        PanelChild::Row(v) => if v == 0 { seq![] } else { seq![v] },
        PanelChild::Scroll(Some(rows)) => rows@.filter(|v: usize| v != 0),
        PanelChild::Scroll(None) => seq![],
    }
}

/// The rows of a whole panel, in order.
pub open spec fn panel_rows(children: Seq<PanelChild>) -> Seq<usize>
    decreases children.len(),
{
    if children.len() == 0 {
        seq![]
    } else {
        panel_rows(children.drop_last()) + child_rows(children.last())
    }
}

/// The option rows of a panel, which lie one level deeper where the panel scrolls.
pub fn settings_select_item_views(children: &Vec<PanelChild>) -> (r: Vec<usize>)
    ensures
        r@ == panel_rows(children@),
        forall|i: int| 0 <= i < r@.len() ==> #[trigger] r@[i] != 0,
{
    let mut out: Vec<usize> = Vec::new();
    let mut i: usize = 0;
    while i < children.len()
        invariant
            i <= children@.len(),
            out@ == panel_rows(children@.take(i as int)),
            forall|k: int| 0 <= k < out@.len() ==> #[trigger] out@[k] != 0,
        decreases children@.len() - i,
    {
        let ghost before = out@;
        assert(children@.take(i + 1).drop_last() =~= children@.take(i as int));
        match &children[i] {
            PanelChild::Row(v) => {
                if *v != 0 {
                    out.push(*v);
                }
                assert(out@ =~= before + child_rows(children@[i as int]));
            },
            PanelChild::Scroll(Some(rows)) => {
                let mut j: usize = 0;
                while j < rows.len()
                    invariant
                        j <= rows@.len(),
                        out@ == before + rows@.take(j as int).filter(|v: usize| v != 0),
                        forall|k: int| 0 <= k < out@.len() ==> #[trigger] out@[k] != 0,
                    decreases rows@.len() - j,
                {
                    reveal(Seq::filter);
                    assert(rows@.take(j + 1).drop_last() =~= rows@.take(j as int));
                    if rows[j] != 0 {
                        out.push(rows[j]);
                    }
                    assert(out@ =~= before + rows@.take(j + 1).filter(|v: usize| v != 0));
                    j += 1;
                }
                assert(rows@.take(rows@.len() as int) =~= rows@);
            },
            PanelChild::Scroll(None) => {
                assert(out@ =~= before + child_rows(children@[i as int]));
            },
        }
        i += 1;
    }
    assert(children@.take(children@.len() as int) =~= children@);
    out
}

pub open spec fn surface_color(palette: UiPalette) -> u32 {
    if palette.dark { 0x151515FF } else { 0xFCFCFCFF }
}

pub open spec fn item_active_color(palette: UiPalette) -> u32 {
    if palette.dark { 0x1C1C1CFF } else { 0xF5F5F5FF }
}

/// The opaque background of triggers and panels.
pub fn settings_select_surface_color(palette: UiPalette) -> (r: u32)
    ensures
        r == surface_color(palette),
{
    if palette.dark {
        0x151515FF
    } else {
        0xFCFCFCFF
    }
}

/// The background of a row that is chosen or under the pointer.
pub fn settings_select_item_active_color(palette: UiPalette) -> (r: u32)
    ensures
        r == item_active_color(palette),
{
    if palette.dark {
        0x1C1C1CFF
    } else {
        0xF5F5F5FF
    }
}

/// How a trigger is painted.
#[derive(Clone, Copy, Debug, PartialEq, Eq, Structural)]
pub struct SelectVisual {
    /// Whether the arrow ends up turned by half a circle.
    pub arrow_turned: bool,
    /// Whether the arrow turns there gradually; a new arrow is put there at once.
    pub animate_arrow: bool,
    /// Where the turn starts if the arrow's current angle is not known.
    pub arrow_turned_before: bool,
    /// Colour of title and arrow.
    pub tint: u32,
    pub background: u32,
    pub border: u32,
}

/// The look of a trigger for a state of its panel.
pub fn settings_select_apply_visual(
    palette: UiPalette,
    enabled: bool,
    open: bool,
    has_arrow: bool,
) -> (r: SelectVisual)
    ensures
        r == (SelectVisual {
            arrow_turned: open,
            animate_arrow: has_arrow,
            arrow_turned_before: !open,
            tint: if enabled { palette.primary_text } else { palette.muted_text },
            background: surface_color(palette),
            border: palette.card_border,
        }),
{
    SelectVisual {
        arrow_turned: open,
        animate_arrow: has_arrow,
        arrow_turned_before: !open,
        tint: if enabled { palette.primary_text } else { palette.muted_text },
        background: settings_select_surface_color(palette),
        border: palette.card_border,
    }
}

/// No two selects are open at once.
pub proof fn at_most_one_select_is_open(m: SelectModel, a: usize, b: usize)
    requires
        m.inv(),
        m.is_open(a),
        m.is_open(b),
    ensures
        a == b,
{
    assert(m.states.contains_key(a) && m.states.contains_key(b));
}

/// Closing keeps every option and the choice, of all selects.
pub proof fn closing_keeps_options_and_choice(m: SelectModel, k: usize, other: usize)
    requires
        m.states.contains_key(other),
    ensures
        m.closed(k).states.contains_key(other),
        m.closed(k).states[other].items == m.states[other].items,
        m.closed(k).states[other].item_symbols == m.states[other].item_symbols,
        m.closed(k).states[other].selected == m.states[other].selected,
        !m.closed(k).is_open(k),
{
}

/// Opening, recording the views and closing again, with the fade run to its end,
/// leaves a select as it was before, with nothing left over.
pub proof fn open_then_close_round_trip(
    m: SelectModel,
    k: usize,
    panel: usize,
    popup: usize,
)
    requires
        m.inv(),
        m.states.contains_key(k),
        m.active is None,
        m.monitor is None,
        !m.states[k].open,
        m.states[k].panel == 0,
        m.states[k].popup == 0,
        panel != 0,
        popup != 0,
    ensures
        ({
            let ready = m.opening(k, true);
            let shown = SelectModel {
                states: ready.states.insert(
                    k,
                    SelectView { panel, popup, open: true, ..ready.states[k] },
                ),
                active: Some(k),
                ..ready
            };
            &&& shown.inv()
            &&& shown.closed(k).finished(k, panel) == m
            &&& shown.closed(k).finish_effects(k, panel) == seq![
                SelectEffect::DropItemLabels { panel },
                SelectEffect::RemovePanel { panel },
                SelectEffect::ClosePopup { popup },
            ]
        }),
{
    let ready = m.opening(k, true);
    let shown = SelectModel {
        states: ready.states.insert(
            k,
            SelectView { panel, popup, open: true, ..ready.states[k] },
        ),
        active: Some(k),
        ..ready
    };
    assert(shown.closed(k).finished(k, panel).states =~= m.states);
    assert(shown.closed(k).finish_effects(k, panel) =~= seq![
        SelectEffect::DropItemLabels { panel },
        SelectEffect::RemovePanel { panel },
        SelectEffect::ClosePopup { popup },
    ]);
}

/// The end of a fade does nothing to a select that was opened again meanwhile.
pub proof fn late_fade_end_spares_a_reopened_select(m: SelectModel, k: usize, panel: usize)
    requires
        m.is_open(k),
    ensures
        m.finished(k, panel) == m,
        m.finish_effects(k, panel) == Seq::<SelectEffect>::empty(),
{
}

/// A click on the trigger of a select whose panel is on the screen closes it: afterwards it
/// is neither open nor active, and its panel is faded out and reported once gone, so that
/// nothing opens again. Its options and its choice stay, and so does every other select.
pub proof fn click_closes_an_open_select(m: SelectModel, k: usize, other: usize)
    requires
        m.inv(),
        m.is_open(k),
        m.states[k].popup != 0,
    ensures
        ({
            let after = m.pressed(k, true, true);
            let effects = m.press_effects(k, true, true);
            let panel = m.states[k].panel;
            &&& !after.is_open(k)
            &&& after.states.contains_key(k)
            &&& after.active is None
            &&& after.states[k].items == m.states[k].items
            &&& after.states[k].item_symbols == m.states[k].item_symbols
            &&& after.states[k].selected == m.states[k].selected
            &&& after.states[k].panel == panel && after.states[k].popup == m.states[k].popup
            &&& other != k ==> after.states.contains_key(other) == m.states.contains_key(other)
                && after.states[other] == m.states[other]
            &&& after.monitor == m.monitor
            &&& !effects.contains(SelectEffect::Open { select: k })
            &&& effects.last() == (SelectEffect::ApplyVisual { select: k, open: false })
            &&& panel != 0 ==> {
                &&& effects.len() == 4
                &&& effects[0] == (SelectEffect::CancelReveals { panel })
                &&& effects[1] == (SelectEffect::FadeOutPanel { panel })
                &&& effects[2] == (SelectEffect::ScheduleFinishClose { select: k, panel })
            }
        }),
{
}

/// A click on the trigger of a closed select asks for its panel and for nothing else; the
/// panel is recorded only once it is there. A second click, once it is, closes it.
pub proof fn click_opens_a_closed_select(
    m: SelectModel,
    k: usize,
    panel: usize,
    popup: usize,
    visible: bool,
)
    requires
        m.inv(),
        m.ready_to_open(k),
        !m.is_open(k),
        popup != 0,
    ensures
        m.pressed(k, true, visible) == m,
        m.press_effects(k, true, visible) == seq![SelectEffect::Open { select: k }],
        ({
            let shown = SelectModel {
                states: m.states.insert(
                    k,
                    SelectView { panel, popup, open: true, ..m.states[k] },
                ),
                active: Some(k),
                ..m
            };
            &&& shown.is_open(k)
            &&& !shown.pressed(k, true, true).is_open(k)
            &&& shown.pressed(k, true, true).active is None
        }),
{
}

/// A disabled trigger answers no click.
pub proof fn disabled_selects_ignore_clicks(m: SelectModel, k: usize, visible: bool)
    ensures
        m.pressed(k, false, visible) == m,
        m.press_effects(k, false, visible) == Seq::<SelectEffect>::empty(),
{
}

/// A select that counts as open though its window is gone forgets its views, closes what is
/// left of the window, and opens afresh, all by one click.
pub proof fn click_repairs_a_stale_select(m: SelectModel, k: usize, visible: bool)
    requires
        m.inv(),
        m.is_open(k),
        m.states[k].popup == 0 || !visible,
    ensures
        ({
            let after = m.pressed(k, true, visible);
            let effects = m.press_effects(k, true, visible);
            let popup = m.states[k].popup;
            let n = effects.len() as int;
            &&& !after.is_open(k) && after.active is None
            &&& after.states[k].panel == 0 && after.states[k].popup == 0
            &&& after.states[k].items == m.states[k].items
            &&& after.states[k].item_symbols == m.states[k].item_symbols
            &&& after.states[k].selected == m.states[k].selected
            &&& n == if popup == 0 { 2int } else { 3 }
            &&& effects[n - 1] == (SelectEffect::Open { select: k })
            &&& effects[n - 2] == (SelectEffect::ApplyVisual { select: k, open: false })
            &&& popup != 0 ==> effects[0] == (SelectEffect::ClosePopup { popup })
        }),
{
}

/// A click outside both the panel and the trigger is one whose place is in neither; one that
/// belongs to no window always is. While there is no panel, only the trigger counts.
pub proof fn clicks_inside_keep_the_panel(
    m: SelectModel,
    k: usize,
    p: Point,
    panel: Option<Rect>,
    trigger: Option<Rect>,
)
    ensures
        m.click_is_outside(k, None, panel, trigger),
        trigger matches Some(t) ==> {
            t.x <= p.x <= t.x + t.w && t.y <= p.y <= t.y + t.h ==> !m.click_is_outside(
                k,
                Some(p),
                panel,
                trigger,
            )
        },
        panel matches Some(r) ==> {
            m.states[k].panel != 0 && r.x <= p.x <= r.x + r.w && r.y <= p.y <= r.y + r.h
                ==> !m.click_is_outside(k, Some(p), panel, trigger)
        },
        (panel matches Some(r) ==> m.states[k].panel == 0 || p.x < r.x || p.x > r.x + r.w || p.y
            < r.y || p.y > r.y + r.h) && (trigger matches Some(t) ==> p.x < t.x || p.x > t.x + t.w
            || p.y < t.y || p.y > t.y + t.h) ==> m.click_is_outside(k, Some(p), panel, trigger),
{
}

/// Once the fade of a closed panel is over, its views are let go: the labels, the panel, the
/// window that held it, and, where no select is active, the monitor. What the select offers
/// and has chosen stays. A report of another panel changes nothing.
pub proof fn fade_end_lets_the_views_go(m: SelectModel, k: usize, panel: usize)
    requires
        m.states.contains_key(k),
        !m.states[k].open,
    ensures
        m.states[k].panel != panel ==> m.finished(k, panel) == m && m.finish_effects(
            k,
            panel,
        ).len() == 0,
        m.states[k].panel == panel ==> {
            let after = m.finished(k, panel);
            let effects = m.finish_effects(k, panel);
            let popup = m.states[k].popup;
            &&& after.states[k].panel == 0 && after.states[k].popup == 0
            &&& after.states[k].items == m.states[k].items
            &&& after.states[k].selected == m.states[k].selected
            &&& after.active == m.active
            &&& m.active is None ==> after.monitor is None
            &&& m.active is Some ==> after.monitor == m.monitor
            &&& panel != 0 <==> effects.contains(SelectEffect::RemovePanel { panel })
            &&& panel != 0 <==> effects.contains(SelectEffect::DropItemLabels { panel })
            &&& popup != 0 <==> effects.contains(SelectEffect::ClosePopup { popup })
            &&& m.monitor matches Some(monitor) ==> (m.active is None <==> effects.contains(
                SelectEffect::RemoveMonitor { monitor },
            ))
        },
{
    if m.states[k].panel == panel {
        let effects = m.finish_effects(k, panel);
        let popup = m.states[k].popup;
        if panel != 0 {
            assert(effects[0] == (SelectEffect::DropItemLabels { panel }));
            assert(effects[1] == (SelectEffect::RemovePanel { panel }));
        }
        let at: int = if panel != 0 { 2 } else { 0 };
        if popup != 0 {
            assert(effects[at] == (SelectEffect::ClosePopup { popup }));
        }
        if m.monitor is Some && m.active is None {
            assert(effects.last() == (SelectEffect::RemoveMonitor { monitor: m.monitor->0 }));
        }
    }
}

/// Asking for a panel closes the one that is open elsewhere and forgets what an earlier one
/// of the select left behind; outside a window nothing happens. The row that is marked is
/// the chosen one, or the first; a select without options, or one that is open, shows none.
pub proof fn opening_makes_room(m: SelectModel, k: usize, other: usize)
    requires
        m.inv(),
        m.states.contains_key(k),
    ensures
        m.opening(k, false) == m,
        m.opening_effects(k, false).len() == 0,
        m.opening_row(k, false) is None,
        ({
            let after = m.opening(k, true);
            let s = m.states[k];
            &&& other != k ==> !after.is_open(other)
            &&& !s.open ==> after.states[k].panel == 0 && after.states[k].popup == 0
            &&& s.open ==> after.states[k] == s
            &&& after.states[k].items == s.items && after.states[k].selected == s.selected
            &&& m.opening_row(k, true) is Some <==> !s.open && s.items.len() > 0
            &&& m.opening_row(k, true) matches Some(row) ==> row == if s.selected >= 0 {
                s.selected
            } else {
                0
            }
            &&& m.active matches Some(a) ==> a != k ==> m.opening_effects(k, true).contains(
                SelectEffect::ApplyVisual { select: a, open: false },
            )
            &&& !s.open && s.popup != 0 ==> m.opening_effects(k, true).contains(
                SelectEffect::ClosePopup { popup: s.popup },
            )
            &&& !s.open && s.panel != 0 ==> {
                &&& m.opening_effects(k, true).contains(
                    SelectEffect::CancelFinishClose { select: k, panel: s.panel },
                )
                &&& m.opening_effects(k, true).contains(
                    SelectEffect::RemovePanel { panel: s.panel },
                )
                &&& m.opening_effects(k, true).contains(
                    SelectEffect::DropItemLabels { panel: s.panel },
                )
            }
        }),
{
    let s = m.states[k];
    let effects = m.opening_effects(k, true);
    let away: Seq<SelectEffect> = match m.active {
        Some(a) if a != k => m.close_effects(a),
        _ => seq![],
    };
    let n = away.len() as int;
    if let Some(a) = m.active {
        if a != k {
            assert(m.states.contains_key(a));
            assert(away.last() == (SelectEffect::ApplyVisual { select: a, open: false }));
            assert(effects[n - 1] == away.last());
        }
    }
    if other != k && m.states.contains_key(other) && m.states[other].open {
        assert(m.active == Some(other));
    }
    if !s.open {
        if s.panel != 0 {
            assert(effects[n] == (SelectEffect::CancelFinishClose { select: k, panel: s.panel }));
            assert(effects[n + 1] == (SelectEffect::DropItemLabels { panel: s.panel }));
            assert(effects[n + 2] == (SelectEffect::RemovePanel { panel: s.panel }));
        }
        if s.popup != 0 {
            let at = if s.panel != 0 { n + 3 } else { n };
            assert(effects[at] == (SelectEffect::ClosePopup { popup: s.popup }));
        }
    }
}

/// The option that is chosen is the one whose row was meant: the trigger shows its title, the
/// panel is closed, and no other select changes.
pub proof fn chosen_option_is_shown(m: SelectModel, k: usize, index: int, other: usize)
    requires
        m.inv(),
        m.states.contains_key(k),
        0 <= index < m.states[k].items.len(),
    ensures
        m.has_option(k, index),
        ({
            let after = m.with_selected(k, index).closed(k);
            &&& after.states[k].selected == index
            &&& after.title(k) == m.states[k].items[index]
            &&& after.states[k].items == m.states[k].items
            &&& !after.is_open(k)
            &&& after.active != Some(k)
            &&& other != k ==> after.states[other] == m.states[other] && after.title(other)
                == m.title(other)
        }),
{
}

/// A row counts as an option only if its number is one of a known select.
pub proof fn options_are_numbered_from_zero(m: SelectModel, k: usize, index: int)
    ensures
        m.has_option(k, index) ==> m.states.contains_key(k) && index >= 0,
        m.states.contains_key(k) && index >= m.states[k].items.len() ==> !m.has_option(k, index),
        index < 0 ==> !m.has_option(k, index),
{
}

/// A trigger shows its choice, its first option where nothing is chosen, and nothing where
/// it has no such option or is not known.
pub proof fn triggers_show_their_choice(m: SelectModel, k: usize)
    ensures
        !m.states.contains_key(k) ==> m.title(k).len() == 0,
        m.states.contains_key(k) ==> {
            let s = m.states[k];
            &&& s.items.len() == 0 ==> m.title(k).len() == 0
            &&& s.items.len() > 0 && s.selected < 0 ==> m.title(k) == s.items[0]
            &&& 0 <= s.selected < s.items.len() ==> m.title(k) == s.items[s.selected]
            &&& s.selected >= s.items.len() ==> m.title(k).len() == 0
        },
{
}

/// A select that is filled anew holds what was added, in that order: emptied, it is closed
/// and has neither options nor a choice; each item goes to the end and has no symbol; the
/// first one becomes the choice, and a choice that was made stays.
pub proof fn selects_are_filled_in_order(m: SelectModel, k: usize, title: Seq<char>, i: int)
    requires
        m.inv(),
        m.states.contains_key(k),
    ensures
        ({
            let e = m.emptied(k);
            &&& e.states[k].items.len() == 0 && e.states[k].item_symbols.len() == 0
            &&& e.states[k].selected == -1
            &&& e.title(k).len() == 0
            &&& !e.is_open(k)
            &&& m.is_open(k) ==> e.active is None
            &&& e.with_item(k, title).states[k].items == seq![title]
            &&& e.with_item(k, title).states[k].selected == 0
            &&& e.with_item(k, title).title(k) == title
        }),
        ({
            let s = m.states[k];
            let a = m.with_item(k, title).states[k];
            &&& a.items.len() == s.items.len() + 1 && a.items.last() == title
            &&& a.item_symbols.len() == s.items.len() + 1 && a.item_symbols.last() is None
            &&& 0 <= i < s.items.len() ==> a.items[i] == s.items[i] && a.item_symbols[i]
                == s.item_symbols[i]
            &&& s.selected >= 0 ==> a.selected == s.selected
            &&& s.selected < 0 ==> a.selected == 0
            &&& a.open == s.open && a.panel == s.panel && a.popup == s.popup
        }),
{
}

/// A symbol goes to the option that is named and to no other; an index without an option is
/// ignored.
pub proof fn symbols_go_to_their_options(
    m: SelectModel,
    k: usize,
    index: int,
    symbol: Seq<char>,
    i: int,
)
    requires
        m.inv(),
        m.states.contains_key(k),
        0 <= i < m.states[k].items.len(),
    ensures
        ({
            let a = m.with_symbol(k, index, symbol).states[k];
            &&& i == index ==> a.item_symbols[i] == Some(symbol)
            &&& i != index ==> a.item_symbols[i] == m.states[k].item_symbols[i]
            &&& a.items == m.states[k].items && a.selected == m.states[k].selected
            &&& a.open == m.states[k].open
        }),
        !(0 <= index < m.states[k].items.len()) ==> m.with_symbol(k, index, symbol) == m,
{
}

/// When the registry is cleared, the window of every select that has one is closed, and no
/// other; the monitor goes last.
pub proof fn clearing_closes_every_window(m: SelectModel, order: Seq<usize>, i: int)
    requires
        0 <= i < order.len(),
        m.states[order[i]].popup != 0,
    ensures
        m.clear_effects(order).contains(
            SelectEffect::ClosePopup { popup: m.states[order[i]].popup },
        ),
        m.monitor matches Some(monitor) ==> m.clear_effects(order).last() == (
        SelectEffect::RemoveMonitor { monitor }),
{
    every_window_is_listed(m, order, i);
    let effect = SelectEffect::ClosePopup { popup: m.states[order[i]].popup };
    let j = choose|j: int| 0 <= j < m.popups_of(order).len() && m.popups_of(order)[j] == effect;
    assert(m.clear_effects(order)[j] == effect);
}

proof fn every_window_is_listed(m: SelectModel, order: Seq<usize>, i: int)
    requires
        0 <= i < order.len(),
        m.states[order[i]].popup != 0,
    ensures
        m.popups_of(order).contains(SelectEffect::ClosePopup { popup: m.states[order[i]].popup }),
    decreases order.len(),
{
    let effect = SelectEffect::ClosePopup { popup: m.states[order[i]].popup };
    if i == order.len() - 1 {
        assert(m.popups_of(order).last() == effect);
    } else {
        every_window_is_listed(m, order.drop_last(), i);
        let rest = m.popups_of(order.drop_last());
        let j = choose|j: int| 0 <= j < rest.len() && rest[j] == effect;
        assert(m.popups_of(order)[j] == effect);
    }
}

/// Nothing but windows of selects is closed when the registry is cleared.
pub proof fn clearing_closes_only_windows(m: SelectModel, order: Seq<usize>, j: int)
    requires
        0 <= j < m.popups_of(order).len(),
    ensures
        exists|i: int|
            0 <= i < order.len() && m.popups_of(order)[j] == (SelectEffect::ClosePopup {
                popup: m.states[#[trigger] order[i]].popup,
            }) && m.states[order[i]].popup != 0,
        m.popups_of(order).len() <= order.len(),
    decreases order.len(),
{
    let last = order.len() - 1;
    let rest = m.popups_of(order.drop_last());
    windows_are_no_more_than_selects(m, order);
    if m.states[order[last]].popup != 0 && j == rest.len() {
        assert(m.popups_of(order)[j] == (SelectEffect::ClosePopup {
            popup: m.states[order[last]].popup,
        }));
    } else {
        clearing_closes_only_windows(m, order.drop_last(), j);
        let i = choose|i: int|
            0 <= i < order.drop_last().len() && rest[j] == (SelectEffect::ClosePopup {
                popup: m.states[#[trigger] order.drop_last()[i]].popup,
            }) && m.states[order.drop_last()[i]].popup != 0;
        assert(order[i] == order.drop_last()[i]);
    }
}

proof fn windows_are_no_more_than_selects(m: SelectModel, order: Seq<usize>)
    ensures
        m.popups_of(order).len() <= order.len(),
    decreases order.len(),
{
    if order.len() > 0 {
        windows_are_no_more_than_selects(m, order.drop_last());
    }
}

/// The rows of a panel are its own rows and those of its scrolled part, in order, without
/// the missing ones.
pub proof fn panel_rows_come_in_order(above: Seq<PanelChild>, below: Seq<PanelChild>, v: usize)
    ensures
        panel_rows(above + below) == panel_rows(above) + panel_rows(below),
        v != 0 ==> panel_rows(seq![PanelChild::Row(v)]) == seq![v],
        panel_rows(seq![PanelChild::Row(0)]).len() == 0,
        panel_rows(seq![PanelChild::Scroll(None)]).len() == 0,
        !panel_rows(above).contains(0),
    decreases below.len(), above.len(),
{
    reveal_with_fuel(panel_rows, 2);
    assert(seq![PanelChild::Row(v)].drop_last() =~= seq![]);
    assert(seq![PanelChild::Row(0)].drop_last() =~= seq![]);
    assert(seq![PanelChild::Scroll(None)].drop_last() =~= seq![]);
    if v != 0 {
        assert(panel_rows(seq![PanelChild::Row(v)]) =~= seq![v]);
    }
    if below.len() == 0 {
        assert(above + below =~= above);
        assert(panel_rows(above) + panel_rows(below) =~= panel_rows(above));
    } else {
        panel_rows_come_in_order(above, below.drop_last(), v);
        assert((above + below).drop_last() =~= above + below.drop_last());
        assert(panel_rows(above + below) =~= panel_rows(above) + panel_rows(below));
    }
    no_row_is_missing(above);
}

proof fn no_row_is_missing(children: Seq<PanelChild>)
    ensures
        !panel_rows(children).contains(0),
    decreases children.len(),
{
    if children.len() > 0 {
        no_row_is_missing(children.drop_last());
        broadcast use vstd::seq_lib::group_filter_ensures;

        let before = panel_rows(children.drop_last());
        let own = child_rows(children.last());
        if panel_rows(children).contains(0) {
            let j = choose|j: int| 0 <= j < panel_rows(children).len() && panel_rows(children)[j] == 0;
            if j < before.len() {
                assert(before[j] == 0);
            } else {
                assert(own[j - before.len()] == 0);
            }
        }
    }
}

/// Triggers and rows are opaque and nearly black in a dark theme and nearly white in a
/// light one; a lit row stands out from its background.
pub proof fn select_colors_are_opaque(palette: UiPalette)
    ensures
        surface_color(palette) % 0x100 == 0xFF,
        item_active_color(palette) % 0x100 == 0xFF,
        palette.dark ==> surface_color(palette) == 0x151515FF && item_active_color(palette)
            == 0x1C1C1CFF,
        !palette.dark ==> surface_color(palette) == 0xFCFCFCFF && item_active_color(palette)
            == 0xF5F5F5FF,
{
}

} // verus!
