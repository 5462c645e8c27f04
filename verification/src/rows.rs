//! Which label belongs to which control, and how rows are greyed out.
use vstd::prelude::*;

use crate::palette::SettingsTextRole;

verus! {

/// The labels of the controls that stand in a row, as pairs of control and label.
pub struct SettingsRow {
    pub labels: Vec<(usize, usize)>,
}

impl SettingsRow {
    /// Nothing is missing from a pair, and no control occurs twice.
    pub open spec fn inv(self) -> bool {
        &&& forall|i: int|
            0 <= i < self.labels@.len() ==> (#[trigger] self.labels@[i]).0 != 0
                && self.labels@[i].1 != 0
        &&& forall|i: int, j: int|
            0 <= i < self.labels@.len() && 0 <= j < self.labels@.len() && (
            #[trigger] self.labels@[i]).0 == (#[trigger] self.labels@[j]).0 ==> i == j
    }

    /// Whether a label is registered for a control.
    pub open spec fn pairs(self, control: usize, label: usize) -> bool {
        exists|i: int| 0 <= i < self.labels@.len() && #[trigger] self.labels@[i] == (control, label)
    }

    pub fn new() -> (r: SettingsRow)
        ensures
            r.inv(),
            r.labels@ == Seq::<(usize, usize)>::empty(),
    {
        SettingsRow { labels: Vec::new() }
    }

    /// Registers the label of a control in place of an earlier one. A missing label
    /// or control changes nothing.
    pub fn register_label(&mut self, label: usize, control: usize)
        requires
            old(self).inv(),
        ensures
            final(self).inv(),
            label == 0 || control == 0 ==> final(self).labels@ == old(self).labels@,
            label != 0 && control != 0 ==> forall|c: usize, l: usize| #[trigger]
                final(self).pairs(c, l) <==> if c == control {
                    l == label
                } else {
                    old(self).pairs(c, l)
                },
    {
        if label == 0 || control == 0 {
            return;
        }
        let ghost before = self.labels@;
        let mut kept: Vec<(usize, usize)> = Vec::new();
        let ghost mut source: Seq<int> = seq![];
        let mut i: usize = 0;
        while i < self.labels.len()
            invariant
                i <= self.labels@.len(),
                self.labels@ == before,
                old(self).inv(),
                old(self).labels@ == before,
                source.len() == kept@.len(),
                forall|k: int|
                    0 <= k < kept@.len() ==> {
                        &&& 0 <= #[trigger] source[k] < i
                        &&& kept@[k] == before[source[k]]
                        &&& kept@[k].0 != control
                    },
                forall|a: int, b: int|
                    0 <= a < b < kept@.len() ==> #[trigger] source[a] < #[trigger] source[b],
                forall|j: int|
                    0 <= j < i && (#[trigger] before[j]).0 != control ==> exists|k: int|
                        0 <= k < kept@.len() && #[trigger] source[k] == j,
            decreases self.labels@.len() - i,
        {
            let entry = self.labels[i];
            if entry.0 != control {
                let ghost old_source = source;
                kept.push(entry);
                proof {
                    source = source.push(i as int);
                    assert(source[source.len() - 1] == i);
                    assert forall|j: int| 0 <= j < i + 1 && (#[trigger] before[j]).0 != control implies
                        exists|k: int| 0 <= k < kept@.len() && #[trigger] source[k] == j by {
                        if j < i {
                            let k = choose|k: int|
                                0 <= k < old_source.len() && #[trigger] old_source[k] == j;
                            assert(source[k] == j);
                        }
                    }
                }
            }
            i += 1;
        }
        kept.push((control, label));
        self.labels = kept;
        proof {
            let n = source.len() as int;
            assert(self.labels@[n] == (control, label));
            assert forall|c: usize, l: usize| #[trigger] self.pairs(c, l) <==> if c == control {
                l == label
            } else {
                old(self).pairs(c, l)
            } by {
                if self.pairs(c, l) {
                    let k = choose|k: int|
                        0 <= k < self.labels@.len() && #[trigger] self.labels@[k] == (c, l);
                    if k < n {
                        assert(before[source[k]] == (c, l));
                    }
                }
                if c != control && old(self).pairs(c, l) {
                    let j = choose|j: int| 0 <= j < before.len() && #[trigger] before[j] == (c, l);
                    let k = choose|k: int| 0 <= k < n && #[trigger] source[k] == j;
                    assert(self.labels@[k] == (c, l));
                }
            }
            assert forall|a: int, b: int|
                0 <= a < self.labels@.len() && 0 <= b < self.labels@.len() && (
                #[trigger] self.labels@[a]).0 == (#[trigger] self.labels@[b]).0 implies a == b by {
                if a < n && b < n {
                    assert(before[source[a]].0 == before[source[b]].0);
                    if a < b {
                        assert(source[a] < source[b]);
                    }
                    if b < a {
                        assert(source[b] < source[a]);
                    }
                }
            }
            assert forall|k: int| 0 <= k < self.labels@.len() implies (
            #[trigger] self.labels@[k]).0 != 0 && self.labels@[k].1 != 0 by {
                if k < n {
                    assert(before[source[k]] == self.labels@[k]);
                }
            }
        }
    }

    /// The label of a control.
    pub fn label_of(&self, control: usize) -> (r: Option<usize>)
        requires
            self.inv(),
        ensures
            match r {
                Some(l) => self.pairs(control, l) && l != 0,
                None => forall|l: usize| !#[trigger] self.pairs(control, l),
            },
    {
        let mut i: usize = 0;
        while i < self.labels.len()
            invariant
                i <= self.labels@.len(),
                self.inv(),
                forall|j: int| 0 <= j < i ==> (#[trigger] self.labels@[j]).0 != control,
            decreases self.labels@.len() - i,
        {
            if self.labels[i].0 == control {
                assert(self.labels@[i as int] == (control, self.labels@[i as int].1));
                return Some(self.labels[i].1);
            }
            i += 1;
        }
        None
    }

    /// Forgets every label, before the window goes away.
    pub fn clear_runtime_registry(&mut self)
        ensures
            final(self).inv(),
            final(self).labels@ == Seq::<(usize, usize)>::empty(),
            forall|c: usize, l: usize| !#[trigger] final(self).pairs(c, l),
    {
        self.labels.clear();
    }

    /// The views that are enabled or greyed out together with a control: the control
    /// and its label. A missing control has none.
    pub fn views_to_enable(&self, control: usize) -> (r: Vec<usize>)
        requires
            self.inv(),
        ensures
            control == 0 ==> r@ == Seq::<usize>::empty(),
            control != 0 ==> match (exists|l: usize| self.pairs(control, l)) {
                true => r@.len() == 2 && r@[0] == control && self.pairs(control, r@[1]),
                false => r@ == seq![control],
            },
    {
        let mut views: Vec<usize> = Vec::new();
        if control == 0 {
            return views;
        }
        views.push(control);
        if let Some(label) = self.label_of(control) {
            views.push(label);
            assert(self.pairs(control, label));
        }
        views
    }
}

/// A registered label is found again, and there is only one.
pub proof fn one_label_per_control(rows: SettingsRow, control: usize, a: usize, b: usize)
    requires
        rows.inv(),
        rows.pairs(control, a),
        rows.pairs(control, b),
    ensures
        a == b,
{
    let i = choose|i: int| 0 <= i < rows.labels@.len() && #[trigger] rows.labels@[i] == (control, a);
    let j = choose|j: int| 0 <= j < rows.labels@.len() && #[trigger] rows.labels@[j] == (control, b);
    assert(rows.labels@[i].0 == rows.labels@[j].0);
}

/// What greying out a view depends on.
#[derive(Clone, Copy, Debug, PartialEq, Eq, Structural)]
pub struct ViewAbilities {
    /// The view can be enabled and disabled by itself.
    pub can_be_enabled: bool,
    pub is_text_field: bool,
    /// The view can be made translucent.
    pub has_alpha: bool,
}

/// What to do to a view to enable it or grey it out.
#[derive(Clone, Copy, Debug, PartialEq, Eq, Structural)]
pub struct ViewUpdate {
    /// Tell the view whether it is enabled.
    pub set_enabled: bool,
    /// Colour the text of the view.
    pub text_role: Option<SettingsTextRole>,
    /// Opacity of the view in thousandths.
    pub alpha: Option<u32>,
    /// Show the hint; an enabled view has none.
    pub show_hint: bool,
}

/// How a view is enabled or greyed out: by itself where it can, a text by its
/// colour, and any other view by its opacity.
pub open spec fn view_update(view: ViewAbilities, enabled: bool) -> ViewUpdate {
    ViewUpdate {
        set_enabled: view.can_be_enabled,
        text_role: if view.is_text_field {
            Some(if enabled { SettingsTextRole::Primary } else { SettingsTextRole::Disabled })
        } else {
            None
        },
        alpha: if !view.is_text_field && !view.can_be_enabled && view.has_alpha {
            Some(if enabled { 1_000u32 } else { 450u32 })
        } else {
            None
        },
        show_hint: !enabled,
    }
}

/// Decides how a view is enabled or greyed out; there is nothing to do for a missing
/// one.
pub fn set_view_enabled_with_tooltip(view: usize, abilities: ViewAbilities, enabled: bool) -> (r:
    Option<ViewUpdate>)
    ensures
        r == if view == 0 {
            None
        } else {
            Some(view_update(abilities, enabled))
        },
{
    if view == 0 {
        return None;
    }
    let text_role = if abilities.is_text_field {
        Some(if enabled { SettingsTextRole::Primary } else { SettingsTextRole::Disabled })
    } else {
        None
    };
    let alpha = if !abilities.is_text_field && !abilities.can_be_enabled && abilities.has_alpha {
        Some(if enabled { 1_000 } else { 450 })
    } else {
        None
    };
    Some(
        ViewUpdate {
            set_enabled: abilities.can_be_enabled,
            text_role,
            alpha,
            show_hint: !enabled,
        },
    )
}

/// A view that is enabled looks like it, and one that is greyed out does not: a text has the
/// first colour or the one for greyed-out text, and what can be neither enabled nor coloured
/// is opaque or translucent. Only what is greyed out has a hint.
pub proof fn greyed_out_views_look_it(view: ViewAbilities, enabled: bool)
    ensures
        ({
            let u = view_update(view, enabled);
            &&& u.set_enabled == view.can_be_enabled
            &&& u.show_hint == !enabled
            &&& u.text_role is Some <==> view.is_text_field
            &&& u.text_role matches Some(role) ==> (role == SettingsTextRole::Primary <==> enabled)
                && (role == SettingsTextRole::Disabled <==> !enabled)
            &&& u.alpha matches Some(a) ==> (a == 1_000 <==> enabled) && (a == 450 <==> !enabled)
            &&& u.alpha is Some <==> !view.is_text_field && !view.can_be_enabled && view.has_alpha
        }),
{
}

/// A label belongs to a control exactly where some entry of the list pairs the two.
pub proof fn entries_pair_controls_and_labels(rows: SettingsRow, i: int)
    requires
        0 <= i < rows.labels@.len(),
    ensures
        rows.pairs(rows.labels@[i].0, rows.labels@[i].1),
        forall|c: usize, l: usize|
            rows.labels@.len() == 1 && #[trigger] rows.pairs(c, l) ==> (c, l) == rows.labels@[0],
{
    assert(rows.labels@[i] == (rows.labels@[i].0, rows.labels@[i].1));
}

} // verus!
