//! The panel in which a button mapping is edited.
use vstd::prelude::*;

use crate::button_map::ButtonMap;
use crate::config::Config;
use crate::geometry::{half, Point, Rect, Size};
use crate::mapping::{
    action_index, Binding, FIRST_SYSTEM_INDEX, KEY_PRESS_INDEX, SWITCHER_INDEX,
};
use crate::profiles::{commit_mapping_edits, DeviceKey};
use crate::recording::RecMode;
use crate::text::decimal_text;
use vstd::string::*;
#[allow(unused_imports)]
use crate::config::ProfileView;
#[allow(unused_imports)]
use crate::{geometry, mapping, profiles, text};

verus! {

/// Where the parts of the panel are.
#[derive(Clone, Copy, Debug, PartialEq, Eq, Structural)]
pub struct MappingPanelFrames {
    pub panel: Rect,
    pub trigger_label: Rect,
    pub button_label: Rect,
    pub record_trigger: Rect,
    pub action_label: Rect,
    pub action: Rect,
    pub record_combo: Rect,
    pub combo_label: Rect,
    pub cancel: Rect,
    pub ok: Rect,
}

/// The colour of the layer that dims the window behind the panel.
pub const DIM_COLOR: u32 = 0x00000040;

/// The parts of the panel.
pub open spec fn panel_parts() -> MappingPanelFrames {
    MappingPanelFrames {
        panel: Rect { x: 0, y: 0, w: 440_000, h: 240_000 },
        trigger_label: Rect { x: 16_000, y: 190_000, w: 110_000, h: 24_000 },
        button_label: Rect { x: 130_000, y: 190_000, w: 140_000, h: 24_000 },
        record_trigger: Rect { x: 280_000, y: 190_000, w: 140_000, h: 24_000 },
        action_label: Rect { x: 16_000, y: 140_000, w: 110_000, h: 24_000 },
        action: Rect { x: 130_000, y: 140_000, w: 290_000, h: 26_000 },
        record_combo: Rect { x: 130_000, y: 96_000, w: 140_000, h: 24_000 },
        combo_label: Rect { x: 280_000, y: 96_000, w: 140_000, h: 24_000 },
        cancel: Rect { x: 240_000, y: 24_000, w: 88_000, h: 28_000 },
        ok: Rect { x: 336_000, y: 24_000, w: 88_000, h: 28_000 },
    }
}

/// Where the parts of the panel are.
pub fn mapping_panel_frames() -> (r: MappingPanelFrames)
    ensures
        r == panel_parts(),
{
    MappingPanelFrames {
        panel: Rect::new(0, 0, 440_000, 240_000),
        trigger_label: Rect::new(16_000, 190_000, 110_000, 24_000),
        button_label: Rect::new(130_000, 190_000, 140_000, 24_000),
        record_trigger: Rect::new(280_000, 190_000, 140_000, 24_000),
        action_label: Rect::new(16_000, 140_000, 110_000, 24_000),
        action: Rect::new(130_000, 140_000, 290_000, 26_000),
        record_combo: Rect::new(130_000, 96_000, 140_000, 24_000),
        combo_label: Rect::new(280_000, 96_000, 140_000, 24_000),
        cancel: Rect::new(240_000, 24_000, 88_000, 28_000),
        ok: Rect::new(336_000, 24_000, 88_000, 28_000),
    }
}

/// Whether one rectangle lies inside another.
pub open spec fn lies_in(inner: Rect, outer: Rect) -> bool {
    &&& outer.x <= inner.x && inner.right() <= outer.right()
    &&& outer.y <= inner.y && inner.top() <= outer.top()
}

/// Every part of the panel lies inside it, and no two parts that are shown together
/// touch.
pub proof fn panel_parts_fit()
    ensures
        ({
            let p = panel_parts();
            &&& lies_in(p.trigger_label, p.panel) && lies_in(p.button_label, p.panel)
            &&& lies_in(p.record_trigger, p.panel) && lies_in(p.action_label, p.panel)
            &&& lies_in(p.action, p.panel) && lies_in(p.record_combo, p.panel)
            &&& lies_in(p.combo_label, p.panel) && lies_in(p.cancel, p.panel)
            &&& lies_in(p.ok, p.panel)
            &&& p.trigger_label.right() < p.button_label.x
            &&& p.button_label.right() < p.record_trigger.x
            &&& p.action_label.right() < p.action.x
            &&& p.record_combo.right() < p.combo_label.x
            &&& p.cancel.right() < p.ok.x
            &&& p.ok.top() < p.record_combo.y
            &&& p.record_combo.top() < p.action.y
            &&& p.action.top() < p.trigger_label.y
        }),
{
}

/// The place of the panel: centred on the window.
pub fn panel_origin(window: Rect, panel: Size) -> (r: Point)
    requires
        window.valid(),
        panel.valid(),
    ensures
        r.x == window.x + (window.w - panel.w) / 2,
        r.y == window.y + (window.h - panel.h) / 2,
{
    Point { x: window.x + half(window.w - panel.w), y: window.y + half(window.h - panel.h) }
}

/// What the panel shows of a key combination.
#[derive(Debug)]
pub enum ComboDisplay {
    /// The row is hidden.
    Hidden,
    /// Nothing is recorded yet.
    Missing,
    Recorded(String),
}

/// What the panel shows.
#[derive(Debug)]
pub struct PanelDisplay {
    pub button: Option<u32>,
    pub action: i64,
    pub combo: ComboDisplay,
    pub ok_enabled: bool,
}

/// The panel and what is being edited in it.
#[derive(Debug)]
pub struct MappingPanel {
    /// The panel and the dimming layer, while they are shown.
    pub panel: Option<usize>,
    pub dim: Option<usize>,
    pub button: Option<u32>,
    /// The place in the list of actions.
    pub action: i64,
    pub combo: String,
}

/// What is being edited.
#[verifier::ext_equal]
pub struct PanelView {
    pub panel: Option<usize>,
    pub dim: Option<usize>,
    pub button: Option<u32>,
    pub action: int,
    pub combo: Seq<char>,
}

impl View for MappingPanel {
    type V = PanelView;

    open spec fn view(&self) -> PanelView {
        PanelView {
            panel: self.panel,
            dim: self.dim,
            button: self.button,
            action: self.action as int,
            combo: self.combo@,
        }
    }
}

/// What confirming does to the binding of the button.
#[verifier::ext_equal]
pub enum BindingChange {
    /// The binding is removed.
    Removed,
    /// The button is bound to a text.
    Bound(Seq<char>),
    /// The bindings stay as they are.
    Kept,
}

impl PanelView {
    /// A closed panel.
    pub open spec fn closed() -> PanelView {
        PanelView { panel: None, dim: None, button: None, action: 0, combo: seq![] }
    }

    /// The views of a panel that is open.
    pub open spec fn stale_views(self) -> (Option<usize>, Option<usize>) {
        if self.panel is Some {
            (self.panel, self.dim)
        } else {
            (None, None)
        }
    }

    /// A key combination has to be recorded before anything can be confirmed.
    pub open spec fn lacks_combo(self) -> bool {
        self.action == KEY_PRESS_INDEX && self.combo.len() == 0
    }

    /// Whether the button that confirms is enabled: a mapping needs its mouse button, and
    /// a key press its combination too.
    pub open spec fn ok_enabled(self) -> bool {
        if self.action == KEY_PRESS_INDEX {
            self.button is Some && self.combo.len() > 0
        } else {
            self.button is Some
        }
    }

    /// Whether confirming does anything.
    pub open spec fn confirms(self) -> bool {
        self.button is Some && !self.lacks_combo()
    }

    /// What confirming does to the binding of the button.
    pub open spec fn change(self, actions: Seq<String>) -> BindingChange {
        if self.action == 0 {
            BindingChange::Removed
        } else if self.action == 1 {
            BindingChange::Bound("none"@)
        } else if self.action == KEY_PRESS_INDEX {
            BindingChange::Bound(self.combo)
        } else if self.action == SWITCHER_INDEX {
            BindingChange::Bound("switcher"@)
        } else if FIRST_SYSTEM_INDEX <= self.action < FIRST_SYSTEM_INDEX + actions.len() {
            BindingChange::Bound(actions[self.action - FIRST_SYSTEM_INDEX]@)
        } else {
            BindingChange::Kept
        }
    }
}

/// Bindings after a change for one button.
pub open spec fn changed_bindings(
    edits: Map<Seq<char>, Seq<char>>,
    button: u32,
    change: BindingChange,
) -> Map<Seq<char>, Seq<char>> {
    match change {
        BindingChange::Removed => edits.remove(text::decimal(button as nat)),
        BindingChange::Bound(value) => edits.insert(text::decimal(button as nat), value),
        BindingChange::Kept => edits,
    }
}

/// The text that a button is bound to, where the panel starts from one.
pub fn bound_text(edits: &ButtonMap, button: Option<u32>) -> (r: Option<String>)
    requires
        edits.inv(),
    ensures
        match r {
            Some(t) => button is Some && edits@.contains_key(text::decimal(button->0 as nat))
                && t@ == edits@[text::decimal(button->0 as nat)],
            None => button is Some ==> !edits@.contains_key(text::decimal(button->0 as nat)),
        },
{
    match button {
        Some(b) => {
            let key = decimal_text(b as u64);
            edits.get(key.as_str())
        },
        None => None,
    }
}

impl MappingPanel {
    pub fn new() -> (r: MappingPanel)
        ensures
            r@ == PanelView::closed(),
    {
        let r = MappingPanel {
            panel: None,
            dim: None,
            button: None,
            action: 0,
            combo: String::new(),
        };
        assert(r@.combo =~= seq![]);
        r
    }

    /// Prepares the panel for a button: an existing binding is filled in, together with
    /// what its text means. Tells whether the views of the panel are to be made.
    pub fn open_mapping_panel(
        &mut self,
        button: Option<u32>,
        bound: Option<(String, Option<Binding>)>,
        actions: &Vec<String>,
    ) -> (r: bool)
        requires
            actions@.len() <= 1_000_000_000,
        ensures
            r == (old(self).panel is None),
            final(self)@ == (PanelView {
                button,
                action: match bound {
                    Some((text, binding)) if button is Some => mapping::binding_index(
                        binding,
                        text@,
                        actions@,
                    ),
                    _ => 0,
                },
                combo: match bound {
                    Some((text, Some(Binding::Key))) if button is Some => text@,
                    _ => seq![],
                },
                ..old(self)@
            }),
    {
        self.button = button;
        self.action = 0;
        self.combo = String::new();
        assert(self@.combo =~= seq![]);
        if button.is_some() {
            if let Some((text, binding)) = bound {
                self.action = action_index(binding, text.as_str(), actions) as i64;
                match binding {
                    Some(Binding::Key) => {
                        self.combo = text;
                    },
                    _ => {},
                }
            }
        }
        self.panel.is_none()
    }

    /// Prepares the panel for a new mapping. A panel that is open is closed first; its
    /// views are handed back.
    pub fn handle_add_mapping(&mut self, actions: &Vec<String>) -> (r: (
        Option<usize>,
        Option<usize>,
    ))
        requires
            actions@.len() <= 1_000_000_000,
        ensures
            r == old(self)@.stale_views(),
            final(self)@ == (PanelView {
                dim: if old(self).panel is Some { None } else { old(self).dim },
                ..PanelView::closed()
            }),
    {
        let stale = if self.panel.is_some() {
            self.close_mapping_panel()
        } else {
            (None, None)
        };
        self.open_mapping_panel(None, None, actions);
        stale
    }

    /// Prepares the panel for the mapping of a button, with its text and what that means.
    /// A panel that is open is closed first; its views are handed back.
    pub fn handle_mapping_edit(
        &mut self,
        button: u32,
        bound: Option<(String, Option<Binding>)>,
        actions: &Vec<String>,
    ) -> (r: (Option<usize>, Option<usize>))
        requires
            actions@.len() <= 1_000_000_000,
        ensures
            r == old(self)@.stale_views(),
            final(self)@ == (PanelView {
                dim: if old(self).panel is Some { None } else { old(self).dim },
                button: Some(button),
                action: match bound {
                    Some((text, binding)) => mapping::binding_index(binding, text@, actions@),
                    None => 0,
                },
                combo: match bound {
                    Some((text, Some(Binding::Key))) => text@,
                    _ => seq![],
                },
                ..PanelView::closed()
            }),
    {
        let stale = if self.panel.is_some() {
            self.close_mapping_panel()
        } else {
            (None, None)
        };
        self.open_mapping_panel(Some(button), bound, actions);
        stale
    }

    /// Records the views of the panel.
    pub fn panel_shown(&mut self, panel: usize, dim: usize)
        ensures
            final(self)@ == (PanelView { panel: Some(panel), dim: Some(dim), ..old(self)@ }),
    {
        self.panel = Some(panel);
        self.dim = Some(dim);
    }

    /// What the panel shows.
    pub fn update_mapping_panel(&self) -> (r: PanelDisplay)
        ensures
            r.button == self.button,
            r.action == self.action,
            r.ok_enabled == self@.ok_enabled(),
            r.ok_enabled == self@.confirms(),
            match r.combo {
                ComboDisplay::Hidden => self.action != KEY_PRESS_INDEX,
                ComboDisplay::Missing => self@.lacks_combo(),
                ComboDisplay::Recorded(text) => self.action == KEY_PRESS_INDEX && text@
                    == self.combo@ && text@.len() > 0,
            },
    {
        let is_key = self.action == KEY_PRESS_INDEX;
        let has_combo = self.combo.as_str().unicode_len() > 0;
        let combo = if !is_key {
            ComboDisplay::Hidden
        } else if has_combo {
            ComboDisplay::Recorded(self.combo.clone())
        } else {
            ComboDisplay::Missing
        };
        PanelDisplay {
            button: self.button,
            action: self.action,
            combo,
            ok_enabled: self.button.is_some() && (!is_key || has_combo),
        }
    }

    /// Another action was chosen; leaving the key combination drops it.
    pub fn handle_panel_action_changed(&mut self, index: i64)
        ensures
            final(self)@ == (PanelView {
                action: index as int,
                combo: if index == KEY_PRESS_INDEX {
                    old(self)@.combo
                } else {
                    seq![]
                },
                ..old(self)@
            }),
    {
        self.action = index;
        if index != KEY_PRESS_INDEX {
            self.combo = String::new();
            assert(self@.combo =~= seq![]);
        }
    }

    /// Closes the panel, if it is open. Hands back the views that go away.
    pub fn close_mapping_panel(&mut self) -> (r: (Option<usize>, Option<usize>))
        ensures
            final(self)@ == PanelView::closed(),
            r == (old(self).panel, old(self).dim),
    {
        let panel = self.panel.take();
        let dim = self.dim.take();
        self.button = None;
        self.action = 0;
        self.combo = String::new();
        assert(self@.combo =~= seq![]);
        (panel, dim)
    }

    /// Writes the binding of the button and stores all bindings in the profile of the
    /// selected device. Without a button, or while a key combination is missing, nothing
    /// happens. Tells whether the panel is to be closed and the table drawn again.
    pub fn handle_mapping_confirm(
        &self,
        edits: &mut ButtonMap,
        cfg: &mut Config,
        dev: Option<DeviceKey>,
        actions: &Vec<String>,
    ) -> (r: bool)
        requires
            old(edits).inv(),
            old(cfg).mouse.valid(),
        ensures
            final(edits).inv(),
            final(cfg).mouse.valid(),
            r == self@.confirms(),
            !r ==> *final(edits) == *old(edits) && *final(cfg) == *old(cfg),
            r ==> {
                &&& final(edits)@ == changed_bindings(
                    old(edits)@,
                    self.button->0,
                    self@.change(actions@),
                )
                &&& profiles::only_profiles_changed(*old(cfg), *final(cfg))
                &&& profiles::only_profile_changed(
                    old(cfg).mouse.profiles@,
                    final(cfg).mouse.profiles@,
                    dev,
                    ProfileView {
                        button_mappings: final(edits)@,
                        ..profiles::profile_of(old(cfg).mouse.profiles@, dev)
                    },
                )
            },
    {
        let button = match self.button {
            Some(button) => button,
            None => {
                return false;
            },
        };
        let key = decimal_text(button as u64);
        if self.action == 0 {
            edits.remove(key.as_str());
        } else if self.action == 1 {
            edits.insert(key, "none".to_owned());
        } else if self.action == KEY_PRESS_INDEX {
            if self.combo.as_str().unicode_len() == 0 {
                return false;
            }
            edits.insert(key, self.combo.clone());
        } else if self.action == SWITCHER_INDEX {
            edits.insert(key, "switcher".to_owned());
        } else if self.action >= FIRST_SYSTEM_INDEX && ((self.action - FIRST_SYSTEM_INDEX) as u64)
            < actions.len() as u64 {
            let name = actions[(self.action - FIRST_SYSTEM_INDEX) as usize].clone();
            edits.insert(key, name);
        }
        commit_mapping_edits(cfg, dev, edits);
        true
    }

    /// A recording is complete: the panel takes the button or the key combination over.
    pub fn handle_recording_finished(&mut self, mode: RecMode, button: u32, combo: String)
        ensures
            final(self)@ == match mode {
                RecMode::PanelTrigger => PanelView { button: Some(button), ..old(self)@ },
                RecMode::PanelCombo => PanelView { combo: combo@, ..old(self)@ },
            },
    {
        match mode {
            RecMode::PanelTrigger => {
                self.button = Some(button);
            },
            RecMode::PanelCombo => {
                self.combo = combo;
            },
        }
    }
}

/// Removes the binding of a button and stores the others.
pub fn handle_delete_mapping(
    edits: &mut ButtonMap,
    cfg: &mut Config,
    dev: Option<DeviceKey>,
    button: u32,
)
    requires
        old(edits).inv(),
        old(cfg).mouse.valid(),
    ensures
        final(edits).inv(),
        final(cfg).mouse.valid(),
        final(edits)@ == old(edits)@.remove(text::decimal(button as nat)),
        profiles::only_profiles_changed(*old(cfg), *final(cfg)),
        profiles::only_profile_changed(
            old(cfg).mouse.profiles@,
            final(cfg).mouse.profiles@,
            dev,
            ProfileView {
                button_mappings: final(edits)@,
                ..profiles::profile_of(old(cfg).mouse.profiles@, dev)
            },
        ),
{
    let key = decimal_text(button as u64);
    edits.remove(key.as_str());
    commit_mapping_edits(cfg, dev, edits);
}

/// The button that confirms is enabled exactly when confirming does something.
pub proof fn ok_tells_whether_confirming_acts(p: PanelView)
    ensures
        p.ok_enabled() <==> p.confirms(),
{
}

/// Confirming a binding for one button leaves the bindings of all others alone.
pub proof fn other_buttons_keep_their_bindings(
    edits: Map<Seq<char>, Seq<char>>,
    button: u32,
    other: u32,
    change: BindingChange,
)
    requires
        other != button,
    ensures
        ({
            let key = text::decimal(other as nat);
            let after = changed_bindings(edits, button, change);
            &&& after.contains_key(key) == edits.contains_key(key)
            &&& edits.contains_key(key) ==> after[key] == edits[key]
        }),
{
    if text::decimal(other as nat) == text::decimal(button as nat) {
        text::decimal_is_injective(other, button);
    }
}

/// Choosing the default action and deleting a mapping come to the same.
pub proof fn default_action_deletes(
    p: PanelView,
    actions: Seq<String>,
    edits: Map<Seq<char>, Seq<char>>,
)
    requires
        p.confirms(),
        p.action == 0,
    ensures
        changed_bindings(edits, p.button->0, p.change(actions)) == edits.remove(
            text::decimal(p.button->0 as nat),
        ),
{
}

/// A system action that was confirmed is the action that the panel starts with when
/// the mapping is edited again, where no two system actions share a name.
pub proof fn confirmed_action_is_filled_in(p: PanelView, actions: Seq<String>)
    requires
        p.confirms(),
        FIRST_SYSTEM_INDEX <= p.action < FIRST_SYSTEM_INDEX + actions.len(),
        p.action != SWITCHER_INDEX,
        forall|i: int, j: int|
            0 <= i < actions.len() && 0 <= j < actions.len() && text::same_but_case(
                (#[trigger] actions[i])@,
                (#[trigger] actions[j])@,
            ) ==> i == j,
    ensures
        p.change(actions) matches BindingChange::Bound(name) && mapping::binding_index(
            Some(Binding::System),
            name,
            actions,
        ) == p.action,
{
    let i = p.action - FIRST_SYSTEM_INDEX;
    let name = actions[i]@;
    assert(text::same_but_case(name, name));
    assert(mapping::action_at(actions, name, i)) by {
        assert forall|j: int| 0 <= j < i implies !text::same_but_case(
            (#[trigger] actions[j])@,
            name,
        ) by {
            if text::same_but_case(actions[j]@, actions[i]@) {
                assert(j == i);
            }
        }
    }
    mapping::action_at_is_unique(actions, name, i);
}

/// What is confirmed is what is bound afterwards. The second action binds the button to
/// nothing, the third to the combination that was recorded, the eighth to the switcher, and
/// those between to the system action in their place; an action beyond the list changes
/// nothing.
pub proof fn confirmed_bindings_read_back(
    p: PanelView,
    actions: Seq<String>,
    edits: Map<Seq<char>, Seq<char>>,
)
    requires
        p.button is Some,
    ensures
        ({
            let key = text::decimal(p.button->0 as nat);
            let after = changed_bindings(edits, p.button->0, p.change(actions));
            &&& p.action == 0 ==> !after.contains_key(key)
            &&& p.action == 1 ==> after.contains_key(key) && after[key] == "none"@
            &&& p.action == 2 ==> after.contains_key(key) && after[key] == p.combo
            &&& p.action == 7 ==> after.contains_key(key) && after[key] == "switcher"@
            &&& 3 <= p.action < 3 + actions.len() && p.action != 7 ==> after.contains_key(key)
                && after[key] == actions[p.action - 3]@
            &&& p.action < 0 || (p.action >= 3 + actions.len() && p.action > 7) ==> after == edits
        }),
{
}

/// Nothing can be confirmed without a button, nor a key press without its combination;
/// everything else can.
pub proof fn confirming_needs_its_parts(p: PanelView)
    ensures
        p.button is None ==> !p.ok_enabled() && !p.confirms(),
        p.action == 2 && p.combo.len() == 0 ==> !p.ok_enabled() && !p.confirms(),
        p.button is Some && p.action != 2 ==> p.ok_enabled() && p.confirms(),
        p.button is Some && p.combo.len() > 0 ==> p.ok_enabled() && p.confirms(),
        p.lacks_combo() <==> p.action == 2 && p.combo.len() == 0,
{
}

/// A closed panel shows nothing and edits nothing, and only an open one leaves views behind.
pub proof fn closed_panels_are_empty(p: PanelView)
    ensures
        PanelView::closed().panel is None && PanelView::closed().dim is None,
        PanelView::closed().button is None && PanelView::closed().combo.len() == 0,
        PanelView::closed().action == 0,
        !PanelView::closed().confirms(),
        p.panel is None ==> p.stale_views().0 is None && p.stale_views().1 is None,
        p.panel is Some ==> p.stale_views().0 == p.panel && p.stale_views().1 == p.dim,
{
}

/// The parts of the panel stand in four lines: the button, the action, the combination, and
/// the two answers. Their labels start 16 points from the left, and everything ends 16 to 20
/// points from the right.
pub proof fn panel_parts_stand_in_lines()
    ensures
        ({
            let p = panel_parts();
            &&& p.panel == (Rect { x: 0, y: 0, w: 440_000, h: 240_000 })
            &&& p.trigger_label.x == 16_000 && p.action_label.x == 16_000
            &&& p.trigger_label.y == p.button_label.y && p.button_label.y == p.record_trigger.y
            &&& p.action_label.y == p.action.y
            &&& p.record_combo.y == p.combo_label.y
            &&& p.cancel.y == p.ok.y && p.cancel.w == p.ok.w && p.cancel.h == p.ok.h
            &&& p.button_label.x == p.action.x && p.action.x == p.record_combo.x
            &&& p.record_trigger.right() == 420_000 && p.action.right() == 420_000
            &&& p.combo_label.right() == 420_000
            &&& p.ok.right() == 424_000 && p.ok.x - p.cancel.right() == 8_000
            &&& p.record_trigger.x - p.button_label.right() == 10_000
            &&& p.combo_label.x - p.record_combo.right() == 10_000
            &&& p.trigger_label.y == 190_000 && p.action.y == 140_000 && p.record_combo.y == 96_000
            &&& p.ok.y == 24_000
            &&& p.trigger_label.w == 110_000 && p.action_label.w == 110_000
            &&& p.trigger_label.h == 24_000 && p.button_label.h == 24_000
            &&& p.record_trigger.h == 24_000 && p.action_label.h == 24_000
            &&& p.action.h == 26_000 && p.record_combo.h == 24_000 && p.combo_label.h == 24_000
            &&& p.ok.w == 88_000 && p.ok.h == 28_000
            &&& p.button_label.x == 130_000 && p.button_label.w == 140_000
        }),
        DIM_COLOR == 0x00000040,
{
}

} // verus!
