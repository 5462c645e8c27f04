//! The table of button mappings: which rows it has, what they say and where their
//! parts go.
use vstd::prelude::*;

use crate::button_map::ButtonMap;
use crate::geometry::{half, max_len, Rect, Size};
use crate::text::{eq_ignore_ascii_case, parse_u32};
use crate::tooltip::SettingsTooltip;
use vstd::string::*;
#[allow(unused_imports)]
use crate::{geometry, text};

verus! {

/// What the text of a binding means.
#[derive(Clone, Copy, Debug, PartialEq, Eq, Structural)]
pub enum Binding {
    /// A key combination.
    Key,
    /// An action of the system, by its name.
    System,
    /// Opening the window switcher.
    Switcher,
    /// The button does nothing.
    Nothing,
}

/// The place of "Key press" in the list of actions.
pub const KEY_PRESS_INDEX: i64 = 2;

/// The place of the first system action in the list of actions.
pub const FIRST_SYSTEM_INDEX: i64 = 3;

/// The place of "Open switcher" in the list of actions.
pub const SWITCHER_INDEX: i64 = 7;

/// Whether the first system action of the given name, case aside, is at `i`.
pub open spec fn action_at(actions: Seq<String>, name: Seq<char>, i: int) -> bool {
    &&& 0 <= i < actions.len()
    &&& text::same_but_case(actions[i]@, name)
    &&& forall|j: int| 0 <= j < i ==> !text::same_but_case((#[trigger] actions[j])@, name)
}

/// The place in the list of actions of a system action; the default action where the
/// name is unknown.
pub open spec fn system_index(actions: Seq<String>, name: Seq<char>) -> int {
    if exists|i: int| action_at(actions, name, i) {
        (choose|i: int| action_at(actions, name, i)) + FIRST_SYSTEM_INDEX
    } else {
        0
    }
}

/// The place in the list of actions of a binding; the default action where the text
/// could not be understood.
pub open spec fn binding_index(
    binding: Option<Binding>,
    name: Seq<char>,
    actions: Seq<String>,
) -> int {
    match binding {
        Some(Binding::Key) => KEY_PRESS_INDEX as int,
        Some(Binding::System) => system_index(actions, name),
        Some(Binding::Switcher) => SWITCHER_INDEX as int,
        Some(Binding::Nothing) => 1,
        None => 0,
    }
}

/// A system action is found at its first place only.
pub proof fn action_at_is_unique(actions: Seq<String>, name: Seq<char>, i: int)
    requires
        action_at(actions, name, i),
    ensures
        system_index(actions, name) == i + FIRST_SYSTEM_INDEX,
{
    let j = choose|j: int| action_at(actions, name, j);
    assert(action_at(actions, name, j));
    if j < i {
        assert(!text::same_but_case(actions[j]@, name));
    }
    if i < j {
        assert(!text::same_but_case(actions[i]@, name));
    }
}

/// The place in the list of actions of a binding.
pub fn action_index(binding: Option<Binding>, name: &str, actions: &Vec<String>) -> (r: usize)
    requires
        actions@.len() <= 1_000_000_000,
    ensures
        r == binding_index(binding, name@, actions@),
        r <= actions@.len() + 7,
{
    match binding {
        Some(Binding::Key) => 2,
        Some(Binding::System) => {
            let mut i: usize = 0;
            while i < actions.len()
                invariant
                    binding == Some(Binding::System),
                    i <= actions@.len() <= 1_000_000_000,
                    forall|j: int|
                        0 <= j < i ==> !text::same_but_case((#[trigger] actions@[j])@, name@),
                decreases actions@.len() - i,
            {
                if eq_ignore_ascii_case(actions[i].as_str(), name) {
                    proof {
                        assert(action_at(actions@, name@, i as int));
                        action_at_is_unique(actions@, name@, i as int);
                    }
                    return i + 3;
                }
                i += 1;
            }
            assert(!exists|j: int| action_at(actions@, name@, j));
            0
        },
        Some(Binding::Switcher) => 7,
        Some(Binding::Nothing) => 1,
        None => 0,
    }
}

/// Icons of the actions.
pub struct SettingsMappingActionIcon;

/// Size of the icon of an action in the table.
pub const ACTION_ICON_SIZE: i64 = 18_000;

impl SettingsMappingActionIcon {
    /// The symbol of an action; actions past the end of the list have none.
    pub fn symbol_name(symbols: &Vec<String>, index: usize) -> (r: Option<String>)
        ensures
            match r {
                Some(name) => index < symbols@.len() && name@ == symbols@[index as int]@,
                None => index >= symbols@.len(),
            },
    {
        if index < symbols.len() {
            Some(symbols[index].clone())
        } else {
            None
        }
    }
}

/// A row of the table: a button and the text of its binding.
#[derive(Debug)]
pub struct MappingItem {
    pub button: u32,
    pub desc: String,
}

impl View for MappingItem {
    type V = (u32, Seq<char>);

    open spec fn view(&self) -> (u32, Seq<char>) {
        (self.button, self.desc@)
    }
}

/// The entries whose key is a number, with that number.
pub open spec fn listed(entries: Seq<(String, String)>) -> Seq<(u32, Seq<char>)>
    decreases entries.len(),
{
    if entries.len() == 0 {
        seq![]
    } else {
        let rest = listed(entries.drop_last());
        match text::parsed_u32(entries.last().0@) {
            Some(button) => rest.push((button, entries.last().1@)),
            None => rest,
        }
    }
}

/// What the rows say.
pub open spec fn views(items: Seq<MappingItem>) -> Seq<(u32, Seq<char>)> {
    items.map_values(|item: MappingItem| item@)
}

/// The rows are ordered by button.
pub open spec fn by_button(items: Seq<MappingItem>) -> bool {
    forall|i: int, j: int|
        0 <= i <= j < items.len() ==> (#[trigger] items[i]).button <= (#[trigger] items[j]).button
}

/// The rows of the table, ordered by button. Keys that are no numbers have no row.
pub fn mapping_items(edits: &ButtonMap) -> (r: Vec<MappingItem>)
    ensures
        by_button(r@),
        views(r@).to_multiset() == listed(edits.entries@).to_multiset(),
        r@.len() <= edits.entries@.len(),
{
    let mut items: Vec<MappingItem> = Vec::new();
    let mut i: usize = 0;
    assert(views(items@) =~= listed(edits.entries@.take(0)));
    while i < edits.entries.len()
        invariant
            i <= edits.entries@.len(),
            by_button(items@),
            items@.len() <= i,
            views(items@).to_multiset() == listed(edits.entries@.take(i as int)).to_multiset(),
        decreases edits.entries@.len() - i,
    {
        let ghost seen = edits.entries@.take(i + 1);
        assert(seen.drop_last() =~= edits.entries@.take(i as int));
        assert(seen.last() == edits.entries@[i as int]);
        match parse_u32(edits.entries[i].0.as_str()) {
            Some(button) => {
                let desc = edits.entries[i].1.clone();
                let mut at: usize = items.len();
                while at > 0 && items[at - 1].button > button
                    invariant
                        at <= items@.len(),
                        forall|k: int| at <= k < items@.len() ==> (#[trigger] items@[k]).button > button,
                    decreases at,
                {
                    at -= 1;
                }
                let ghost before = items@;
                items.insert(at, MappingItem { button, desc });
                proof {
                    let added = (button, desc@);
                    assert(views(items@) =~= views(before).insert(at as int, added));
                    vstd::seq_lib::to_multiset_insert(views(before), at as int, added);
                    vstd::seq_lib::to_multiset_build(listed(seen.drop_last()), added);
                    assert forall|a: int, b: int| 0 <= a <= b < items@.len() implies (
                    #[trigger] items@[a]).button <= (#[trigger] items@[b]).button by {
                        if b < at {
                            assert(items@[a] == before[a] && items@[b] == before[b]);
                        } else if a > at {
                            assert(items@[a] == before[a - 1] && items@[b] == before[b - 1]);
                        } else if b > at {
                            assert(items@[b] == before[b - 1]);
                            if a < at {
                                assert(items@[a] == before[a]);
                            }
                        } else if a < at {
                            assert(items@[a] == before[a]);
                            assert(before[at - 1].button <= button);
                        }
                    }
                }
            },
            None => {},
        }
        i += 1;
    }
    assert(edits.entries@.take(i as int) =~= edits.entries@);
    items
}

proof fn listed_holds(entries: Seq<(String, String)>, i: int, button: u32)
    requires
        0 <= i < entries.len(),
        text::parsed_u32(entries[i].0@) == Some(button),
    ensures
        listed(entries).contains((button, entries[i].1@)),
    decreases entries.len(),
{
    let rest = listed(entries.drop_last());
    if i == entries.len() - 1 {
        assert(listed(entries)[rest.len() as int] == (button, entries[i].1@));
    } else {
        listed_holds(entries.drop_last(), i, button);
        let k = choose|k: int| 0 <= k < rest.len() && rest[k] == (button, entries[i].1@);
        assert(listed(entries)[k] == rest[k]);
    }
}

/// A binding that the panel wrote for a button has a row in the table.
pub proof fn bound_buttons_have_rows(edits: ButtonMap, items: Seq<MappingItem>, button: u32)
    requires
        edits.inv(),
        edits@.contains_key(text::decimal(button as nat)),
        views(items).to_multiset() == listed(edits.entries@).to_multiset(),
    ensures
        exists|k: int|
            0 <= k < items.len() && (#[trigger] items[k])@ == (
                button,
                edits@[text::decimal(button as nat)],
            ),
{
    let key = text::decimal(button as nat);
    let i = crate::button_map::place_of(edits.entries@, key);
    assert(crate::button_map::holds_key(edits.entries@, key, i));
    text::decimal_round_trip(button);
    listed_holds(edits.entries@, i, button);
    let row = (button, edits@[key]);
    vstd::seq_lib::to_multiset_contains(listed(edits.entries@), row);
    vstd::seq_lib::to_multiset_contains(views(items), row);
    let k = choose|k: int| 0 <= k < views(items).len() && views(items)[k] == row;
    assert(items[k]@ == row);
}

/// Metrics of the table.
#[derive(Clone, Copy, Debug, PartialEq, Eq, Structural)]
pub struct MappingMetrics {
    pub panel_x: i64,
    pub cell_x: i64,
    pub panel_top: i64,
    pub header_h: i64,
    pub row_h: i64,
    pub action_top: i64,
    pub action_h: i64,
    pub pad_bottom: i64,
}

impl MappingMetrics {
    pub open spec fn valid(self) -> bool {
        &&& geometry::small(self.panel_x as int)
        &&& geometry::small(self.cell_x as int)
        &&& geometry::small(self.panel_top as int)
        &&& geometry::small(self.header_h as int)
        &&& geometry::small(self.row_h as int)
        &&& geometry::small(self.action_top as int)
        &&& geometry::small(self.action_h as int)
        &&& geometry::small(self.pad_bottom as int)
    }

    /// The left edge of the rows.
    pub open spec fn row_left(self) -> int {
        self.panel_x + self.cell_x
    }

    /// The right edge of the rows.
    pub open spec fn row_right(self, card_w: int) -> int {
        card_w - self.panel_x - self.cell_x
    }

    /// The upper edge of a row; the card is drawn from its top down.
    pub open spec fn row_y(self, i: int) -> int {
        self.panel_top + self.header_h + i * self.row_h
    }

    /// The height of the panel: at least three rows.
    pub open spec fn panel_h(self, rows: int) -> int {
        geometry::max_of(self.header_h + rows * self.row_h, self.header_h + 3 * self.row_h)
    }

    /// The height of the card.
    pub open spec fn card_h(self, rows: int) -> int {
        self.panel_top + self.panel_h(rows) + self.action_top + self.action_h + self.pad_bottom
    }
}

/// What the outside says about a row: what its text means, and how many key caps its
/// key combination has.
#[derive(Clone, Copy, Debug, PartialEq, Eq, Structural)]
pub struct BindingFacts {
    pub binding: Option<Binding>,
    pub cap_count: usize,
}

/// The parts of a row.
#[derive(Debug)]
pub struct MappingRowPlan {
    pub button: u32,
    pub label: Rect,
    pub desc_label: Rect,
    /// What the description says; a key combination or the default action has none.
    pub desc_key: Option<String>,
    /// The place in the list of actions, for the icon; a key combination has none.
    pub icon: Option<(usize, Rect)>,
    pub edit: Rect,
    pub delete: Rect,
    pub caps: Vec<Rect>,
    pub separator: Rect,
}

/// The frames of the parts of a row of which all rows have one.
pub open spec fn row_parts(
    p: MappingRowPlan,
    m: MappingMetrics,
    card_w: int,
    y: int,
) -> bool {
    let left = m.row_left();
    let right = m.row_right(card_w);
    let edit_x = right - 126_000;
    &&& p.label == (Rect {
        x: left as i64,
        y: (y + (m.row_h - 22_000) / 2) as i64,
        w: 70_000,
        h: 22_000,
    })
    &&& p.desc_label == (Rect {
        x: (left + 102_000) as i64,
        y: (y + (m.row_h - 22_000) / 2) as i64,
        w: geometry::max_of(edit_x - (left + 102_000) - 8_000, 1_000) as i64,
        h: 22_000,
    })
    &&& p.edit == (Rect {
        x: edit_x as i64,
        y: (y + (m.row_h - 27_000) / 2) as i64,
        w: 60_000,
        h: 27_000,
    })
    &&& p.delete == (Rect {
        x: (edit_x + 66_000) as i64,
        y: (y + (m.row_h - 27_000) / 2) as i64,
        w: 60_000,
        h: 27_000,
    })
    &&& p.separator == (Rect {
        x: left as i64,
        y: (y + m.row_h - 1_000) as i64,
        w: (right - left) as i64,
        h: 1_000,
    })
}

/// The key caps of a row: squares from left to right.
pub open spec fn cap_frames(m: MappingMetrics, y: int, count: nat) -> Seq<Rect> {
    Seq::new(
        count,
        |k: int|
            Rect {
                x: (m.row_left() + 78_000 + k * 24_000) as i64,
                y: (y + (m.row_h - 20_000) / 2) as i64,
                w: 20_000,
                h: 20_000,
            },
    )
}

/// The name of an action in the list of actions.
pub open spec fn action_key(keys: Seq<String>, index: int) -> Seq<char> {
    if index < keys.len() { keys[index]@ } else { "settings.mapping_action_default"@ }
}

/// What a row shows of its binding: a key combination as key caps, anything else as
/// an icon, and with a name unless it is the default action.
pub open spec fn row_shows(
    p: MappingRowPlan,
    m: MappingMetrics,
    y: int,
    desc: Seq<char>,
    facts: BindingFacts,
    actions: Seq<String>,
    keys: Seq<String>,
) -> bool {
    let index = binding_index(facts.binding, desc, actions);
    if facts.binding == Some(Binding::Key) {
        &&& p.desc_key is None
        &&& p.icon is None
        &&& p.caps@ == cap_frames(m, y, facts.cap_count as nat)
    } else {
        &&& match p.desc_key {
            Some(key) => index > 0 && key@ == action_key(keys, index),
            None => index == 0,
        }
        &&& p.icon == Some(
            (
                index as usize,
                Rect {
                    x: (m.row_left() + 74_000) as i64,
                    y: (y + (m.row_h - ACTION_ICON_SIZE) / 2) as i64,
                    w: ACTION_ICON_SIZE,
                    h: ACTION_ICON_SIZE,
                },
            ),
        )
        &&& p.caps@.len() == 0
    }
}

/// The action lists that rows are drawn from.
#[derive(Debug)]
pub struct ActionTables {
    /// Names of the system actions, as bindings spell them.
    pub system_actions: Vec<String>,
    /// What the list of actions says.
    pub action_keys: Vec<String>,
}

fn place_caps(m: MappingMetrics, y: i64, count: usize) -> (r: Vec<Rect>)
    requires
        m.valid(),
        -2_000_000_000_000_000_000 <= y <= 2_000_000_000_000_000_000,
        count <= 1_000_000_000,
    ensures
        r@ == cap_frames(m, y as int, count as nat),
{
    let mut caps: Vec<Rect> = Vec::new();
    let cap_y = y + half(m.row_h - 20_000);
    let mut cap_x = m.panel_x + m.cell_x + 78_000;
    let mut k: usize = 0;
    while k < count
        invariant
            k <= count <= 1_000_000_000,
            m.valid(),
            cap_y == y + (m.row_h - 20_000) / 2,
            cap_x == m.row_left() + 78_000 + k * 24_000,
            caps@ =~= cap_frames(m, y as int, k as nat),
        decreases count - k,
    {
        caps.push(Rect::new(cap_x, cap_y, 20_000, 20_000));
        cap_x += 24_000;
        k += 1;
    }
    caps
}

fn place_mapping_row(
    m: MappingMetrics,
    card_w: i64,
    y: i64,
    item: &MappingItem,
    facts: BindingFacts,
    tables: &ActionTables,
) -> (r: MappingRowPlan)
    requires
        m.valid(),
        geometry::in_range(card_w as int),
        -2_000_000_000_000_000_000 <= y <= 2_000_000_000_000_000_000,
        facts.cap_count <= 1_000_000_000,
        tables.system_actions@.len() <= 1_000_000_000,
    ensures
        r.button == item.button,
        row_parts(r, m, card_w as int, y as int),
        row_shows(
            r,
            m,
            y as int,
            item.desc@,
            facts,
            tables.system_actions@,
            tables.action_keys@,
        ),
{
    let row_x0 = m.panel_x + m.cell_x;
    let row_right = card_w - m.panel_x - m.cell_x;
    let btn_w: i64 = 60_000;
    let btn_gap: i64 = 6_000;
    let btn_h: i64 = 27_000;
    let ed_x = row_right - (btn_w * 2 + btn_gap);
    let del_x = ed_x + btn_w + btn_gap;
    let desc_x = row_x0 + 74_000;
    let desc_text_x = desc_x + 28_000;
    let is_key = match facts.binding {
        Some(Binding::Key) => true,
        _ => false,
    };
    let index = action_index(facts.binding, item.desc.as_str(), &tables.system_actions);
    let desc_key = if !is_key && index > 0 {
        if index < tables.action_keys.len() {
            Some(tables.action_keys[index].clone())
        } else {
            Some("settings.mapping_action_default".to_owned())
        }
    } else {
        None
    };
    let icon = if is_key {
        None
    } else {
        Some(
            (
                index,
                Rect::new(
                    desc_x,
                    y + half(m.row_h - ACTION_ICON_SIZE),
                    ACTION_ICON_SIZE,
                    ACTION_ICON_SIZE,
                ),
            ),
        )
    };
    let caps = if is_key {
        place_caps(m, y, facts.cap_count)
    } else {
        Vec::new()
    };
    MappingRowPlan {
        button: item.button,
        label: Rect::new(row_x0, y + half(m.row_h - 22_000), 70_000, 22_000),
        desc_label: Rect::new(
            desc_text_x,
            y + half(m.row_h - 22_000),
            max_len(ed_x - desc_text_x - 8_000, 1_000),
            22_000,
        ),
        desc_key,
        icon,
        edit: Rect::new(ed_x, y + half(m.row_h - btn_h), btn_w, btn_h),
        delete: Rect::new(del_x, y + half(m.row_h - btn_h), btn_w, btn_h),
        caps,
        separator: Rect::new(row_x0, y + m.row_h - 1_000, row_right - row_x0, 1_000),
    }
}

/// The whole table.
#[derive(Debug)]
pub struct MappingTable {
    pub rows: Vec<MappingRowPlan>,
    pub panel: Size,
    /// The card; its upper edge stays.
    pub card: Rect,
    pub add_button: Rect,
    /// The hint for an empty table is hidden.
    pub empty_hidden: bool,
}

/// Lays out the table: one row for each item, a panel of at least three rows, and a
/// card that grows downwards with them.
pub fn render_mapping_rows_locked(
    items: &Vec<MappingItem>,
    facts: &Vec<BindingFacts>,
    tables: &ActionTables,
    m: MappingMetrics,
    card: Rect,
) -> (r: MappingTable)
    requires
        facts@.len() == items@.len(),
        items@.len() <= 1_000_000_000,
        forall|i: int| 0 <= i < facts@.len() ==> (#[trigger] facts@[i]).cap_count <= 1_000_000_000,
        tables.system_actions@.len() <= 1_000_000_000,
        m.valid(),
        card.valid(),
    ensures
        r.rows@.len() == items@.len(),
        forall|i: int|
            0 <= i < items@.len() ==> {
                &&& (#[trigger] r.rows@[i]).button == items@[i].button
                &&& row_parts(r.rows@[i], m, card.w as int, m.row_y(i))
                &&& row_shows(
                    r.rows@[i],
                    m,
                    m.row_y(i),
                    items@[i].desc@,
                    facts@[i],
                    tables.system_actions@,
                    tables.action_keys@,
                )
            },
        r.empty_hidden == (items@.len() > 0),
        r.panel.w == card.w - 2 * m.panel_x,
        r.panel.h == m.panel_h(items@.len() as int),
        r.card.x == card.x && r.card.w == card.w,
        r.card.h == m.card_h(items@.len() as int),
        r.card.top() == card.top(),
        r.add_button.x == m.panel_x,
        r.add_button.y == m.panel_top + r.panel.h + m.action_top,
        r.add_button.w == card.w - 2 * m.panel_x,
        r.add_button.h == m.action_h,
{
    let mut rows: Vec<MappingRowPlan> = Vec::new();
    let mut y = m.panel_top + m.header_h;
    let mut i: usize = 0;
    let n = items.len();
    assert(0 * m.row_h == 0) by (nonlinear_arith);
    while i < n
        invariant
            i <= n,
            n == items@.len(),
            facts@.len() == items@.len(),
            n <= 1_000_000_000,
            forall|k: int|
                0 <= k < facts@.len() ==> (#[trigger] facts@[k]).cap_count <= 1_000_000_000,
            tables.system_actions@.len() <= 1_000_000_000,
            m.valid(),
            card.valid(),
            y == m.row_y(i as int),
            rows@.len() == i,
            forall|k: int|
                0 <= k < i ==> {
                    &&& (#[trigger] rows@[k]).button == items@[k].button
                    &&& row_parts(rows@[k], m, card.w as int, m.row_y(k))
                    &&& row_shows(
                        rows@[k],
                        m,
                        m.row_y(k),
                        items@[k].desc@,
                        facts@[k],
                        tables.system_actions@,
                        tables.action_keys@,
                    )
                },
        decreases n - i,
    {
        proof {
            rows_stay_small(m, i as int);
            rows_stay_small(m, i + 1);
            assert((i + 1) * m.row_h == i * m.row_h + m.row_h) by (nonlinear_arith);
        }
        rows.push(place_mapping_row(m, card.w, y, &items[i], facts[i], tables));
        y += m.row_h;
        i += 1;
    }
    proof {
        rows_stay_small(m, n as int);
    }
    let panel_h = max_len(y - m.panel_top, m.header_h + 3 * m.row_h);
    let card_h = m.panel_top + panel_h + m.action_top + m.action_h + m.pad_bottom;
    let inner_w = card.w - 2 * m.panel_x;
    MappingTable {
        rows,
        panel: Size { w: inner_w, h: panel_h },
        card: Rect::new(card.x, card.y + card.h - card_h, card.w, card_h),
        add_button: Rect::new(
            m.panel_x,
            m.panel_top + panel_h + m.action_top,
            inner_w,
            m.action_h,
        ),
        empty_hidden: n != 0,
    }
}

proof fn rows_stay_small(m: MappingMetrics, i: int)
    requires
        m.valid(),
        0 <= i <= 1_000_000_000,
    ensures
        -1_000_000_000_000_000_000 <= i * m.row_h <= 1_000_000_000_000_000_000,
{
    let h = m.row_h as int;
    assert(-1_000_000_000_000_000_000 <= i * h <= 1_000_000_000_000_000_000) by (nonlinear_arith)
        requires
            0 <= i <= 1_000_000_000,
            -1_000_000_000 <= h <= 1_000_000_000,
    ;
}

/// The rows follow each other without gaps, and all of them lie inside the panel.
pub proof fn rows_fill_the_panel(m: MappingMetrics, rows: int, i: int)
    requires
        0 <= i < rows,
        0 <= m.row_h,
    ensures
        m.row_y(i + 1) == m.row_y(i) + m.row_h,
        m.panel_top + m.header_h <= m.row_y(i),
        m.row_y(i) + m.row_h <= m.panel_top + m.panel_h(rows),
{
    let h = m.row_h as int;
    assert((i + 1) * h == i * h + h) by (nonlinear_arith);
    assert(0 <= i * h) by (nonlinear_arith)
        requires
            0 <= i,
            0 <= h,
    ;
    assert((i + 1) * h <= rows * h) by (nonlinear_arith)
        requires
            i + 1 <= rows,
            0 <= h,
    ;
}

/// In a card that is wide enough the parts of a row do not overlap.
pub proof fn row_parts_are_disjoint(p: MappingRowPlan, m: MappingMetrics, card_w: int, y: int)
    requires
        m.valid(),
        geometry::in_range(card_w),
        row_parts(p, m, card_w, y),
        m.row_right(card_w) - m.row_left() >= 237_000,
    ensures
        p.label.right() < p.desc_label.x,
        p.desc_label.right() < p.edit.x,
        p.edit.right() < p.delete.x,
        p.delete.right() == m.row_right(card_w),
{
}

/// The views of a row.
#[derive(Debug)]
pub struct MappingRow {
    pub label: usize,
    pub desc_label: usize,
    pub action_icon: usize,
    pub edit: usize,
    pub delete: usize,
    pub separator: usize,
    pub caps: Vec<usize>,
}

impl MappingRow {
    /// The views of a row that can be greyed out.
    pub open spec fn interactive(self) -> Seq<usize> {
        seq![self.label, self.desc_label, self.action_icon, self.edit, self.delete] + self.caps@
    }

    /// The views of a row that can be greyed out.
    pub fn interactive_views(&self) -> (r: Vec<usize>)
        ensures
            r@ == self.interactive(),
    {
        let mut out: Vec<usize> = Vec::new();
        out.push(self.label);
        out.push(self.desc_label);
        out.push(self.action_icon);
        out.push(self.edit);
        out.push(self.delete);
        let mut i: usize = 0;
        while i < self.caps.len()
            invariant
                i <= self.caps@.len(),
                out@ =~= seq![self.label, self.desc_label, self.action_icon, self.edit, self.delete]
                    + self.caps@.take(i as int),
            decreases self.caps@.len() - i,
        {
            out.push(self.caps[i]);
            i += 1;
        }
        assert(out@ =~= self.interactive());
        out
    }
}

/// Whether some row has a view that can be greyed out.
pub open spec fn row_view(rows: Seq<MappingRow>, view: usize) -> bool {
    exists|i: int| 0 <= i < rows.len() && (#[trigger] rows[i]).interactive().contains(view)
}

/// Drops everything that is remembered about the views of rows that are about to go
/// away, so that a later click cannot reach one of them.
pub fn forget_mapping_rows(tooltip: &mut SettingsTooltip, rows: &Vec<MappingRow>)
    ensures
        forall|view: usize| #[trigger]
            final(tooltip)@.hints.contains_key(view) <==> old(tooltip)@.hints.contains_key(view)
                && !row_view(rows@, view),
        forall|view: usize| #[trigger]
            final(tooltip)@.areas.contains_key(view) <==> old(tooltip)@.areas.contains_key(view)
                && !row_view(rows@, view),
        forall|view: usize| #[trigger]
            final(tooltip)@.hints.contains_key(view) ==> final(tooltip)@.hints[view] == old(
                tooltip,
            )@.hints[view],
        forall|view: usize| #[trigger]
            final(tooltip)@.areas.contains_key(view) ==> final(tooltip)@.areas[view] == old(
                tooltip,
            )@.areas[view],
        final(tooltip)@.bubble == old(tooltip)@.bubble,
        final(tooltip)@.timer == old(tooltip)@.timer,
{
    let mut i: usize = 0;
    while i < rows.len()
        invariant
            i <= rows@.len(),
            forall|view: usize| #[trigger]
                tooltip@.hints.contains_key(view) <==> old(tooltip)@.hints.contains_key(view)
                    && !row_view(rows@.take(i as int), view),
            forall|view: usize| #[trigger]
                tooltip@.areas.contains_key(view) <==> old(tooltip)@.areas.contains_key(view)
                    && !row_view(rows@.take(i as int), view),
            forall|view: usize| #[trigger]
                tooltip@.hints.contains_key(view) ==> tooltip@.hints[view] == old(
                    tooltip,
                )@.hints[view],
            forall|view: usize| #[trigger]
                tooltip@.areas.contains_key(view) ==> tooltip@.areas[view] == old(
                    tooltip,
                )@.areas[view],
            tooltip@.bubble == old(tooltip)@.bubble,
            tooltip@.timer == old(tooltip)@.timer,
        decreases rows@.len() - i,
    {
        let ghost start = tooltip@;
        let views = rows[i].interactive_views();
        let mut k: usize = 0;
        while k < views.len()
            invariant
                k <= views@.len(),
                forall|view: usize| #[trigger]
                    tooltip@.hints.contains_key(view) <==> start.hints.contains_key(view)
                        && !views@.take(k as int).contains(view),
                forall|view: usize| #[trigger]
                    tooltip@.areas.contains_key(view) <==> start.areas.contains_key(view)
                        && !views@.take(k as int).contains(view),
                forall|view: usize| #[trigger]
                    tooltip@.hints.contains_key(view) ==> tooltip@.hints[view] == start.hints[view],
                forall|view: usize| #[trigger]
                    tooltip@.areas.contains_key(view) ==> tooltip@.areas[view] == start.areas[view],
                tooltip@.bubble == start.bubble,
                tooltip@.timer == start.timer,
            decreases views@.len() - k,
        {
            let view = views[k];
            tooltip.forget(view);
            assert forall|v: usize| #[trigger] views@.take(k + 1).contains(v) <==> views@.take(
                k as int,
            ).contains(v) || v == view by {
                let longer = views@.take(k + 1);
                let shorter = views@.take(k as int);
                if longer.contains(v) {
                    let p = choose|p: int| 0 <= p < longer.len() && longer[p] == v;
                    if p < k {
                        assert(shorter[p] == v);
                    }
                }
                if shorter.contains(v) {
                    let p = choose|p: int| 0 <= p < shorter.len() && shorter[p] == v;
                    assert(longer[p] == v);
                }
                assert(longer[k as int] == view);
            }
            k += 1;
        }
        assert(views@.take(views@.len() as int) =~= views@);
        assert forall|v: usize| #[trigger] row_view(rows@.take(i + 1), v) <==> row_view(
            rows@.take(i as int),
            v,
        ) || views@.contains(v) by {
            let longer = rows@.take(i + 1);
            let shorter = rows@.take(i as int);
            if row_view(longer, v) {
                let p = choose|p: int|
                    0 <= p < longer.len() && (#[trigger] longer[p]).interactive().contains(v);
                if p < i {
                    assert(shorter[p] == longer[p]);
                }
            }
            if row_view(shorter, v) {
                let p = choose|p: int|
                    0 <= p < shorter.len() && (#[trigger] shorter[p]).interactive().contains(v);
                assert(longer[p] == shorter[p]);
            }
            assert(longer[i as int] == rows@[i as int]);
        }
        i += 1;
    }
    assert(rows@.take(rows@.len() as int) =~= rows@);
}

/// How the controls of the table are greyed out.
#[derive(Debug)]
pub struct MappingEnabling {
    /// The switch of the table is enabled.
    pub switch_enabled: bool,
    /// Everything else of the table is enabled.
    pub rows_enabled: bool,
    /// The hint of what is greyed out.
    pub hint_key: &'static str,
    /// The views of the rows that are there.
    pub views: Vec<usize>,
}

/// The views of the rows that are there, row by row.
pub open spec fn row_views(rows: Seq<MappingRow>) -> Seq<usize>
    decreases rows.len(),
{
    if rows.len() == 0 {
        seq![]
    } else {
        row_views(rows.drop_last()) + rows.last().interactive().filter(|v: usize| v != 0)
    }
}

/// Works out how the table is greyed out: its switch depends on the mouse being
/// enabled, everything else on both.
pub fn update_mapping_controls_enabled(
    mouse_state: i64,
    mapping_state: i64,
    rows: &Vec<MappingRow>,
) -> (r: MappingEnabling)
    ensures
        r.switch_enabled == (mouse_state == 1),
        r.rows_enabled == (mouse_state == 1 && mapping_state == 1),
        r.hint_key@ == if mouse_state == 1 {
            "settings.tooltip_mapping_disabled"@
        } else {
            "settings.tooltip_mouse_disabled"@
        },
        r.views@ == row_views(rows@),
{
    let mouse_on = mouse_state == 1;
    let mut views: Vec<usize> = Vec::new();
    let mut i: usize = 0;
    while i < rows.len()
        invariant
            i <= rows@.len(),
            views@ == row_views(rows@.take(i as int)),
        decreases rows@.len() - i,
    {
        let ghost start = views@;
        let ghost present = |v: usize| v != 0;
        let row = rows[i].interactive_views();
        assert(row@.take(0).filter(present) =~= seq![]) by {
            reveal(Seq::filter);
        }
        let mut k: usize = 0;
        while k < row.len()
            invariant
                k <= row@.len(),
                present == (|v: usize| v != 0),
                views@ =~= start + row@.take(k as int).filter(present),
            decreases row@.len() - k,
        {
            let ghost longer = row@.take(k + 1);
            assert(longer.drop_last() =~= row@.take(k as int));
            assert(longer.filter(present) == if present(longer.last()) {
                longer.drop_last().filter(present).push(longer.last())
            } else {
                longer.drop_last().filter(present)
            }) by {
                reveal(Seq::filter);
            }
            if row[k] != 0 {
                views.push(row[k]);
            }
            k += 1;
        }
        assert(row@.take(row@.len() as int) =~= row@);
        let ghost seen = rows@.take(i + 1);
        assert(seen.drop_last() =~= rows@.take(i as int));
        assert(seen.last() == rows@[i as int]);
        i += 1;
    }
    assert(rows@.take(rows@.len() as int) =~= rows@);
    MappingEnabling {
        switch_enabled: mouse_on,
        rows_enabled: mouse_on && mapping_state == 1,
        hint_key: if mouse_on {
            "settings.tooltip_mapping_disabled"
        } else {
            "settings.tooltip_mouse_disabled"
        },
        views,
    }
}

/// The list of actions starts with the default action, nothing at all and a key press; the
/// system actions follow in their order, and the switcher has the eighth place.
pub proof fn actions_have_their_places(
    binding: Option<Binding>,
    name: Seq<char>,
    actions: Seq<String>,
    i: int,
)
    ensures
        binding_index(None, name, actions) == 0,
        binding_index(Some(Binding::Nothing), name, actions) == 1,
        binding_index(Some(Binding::Key), name, actions) == 2,
        binding_index(Some(Binding::Switcher), name, actions) == 7,
        0 <= i < actions.len() && text::same_but_case(actions[i]@, name) && (forall|j: int|
            0 <= j < i ==> !text::same_but_case((#[trigger] actions[j])@, name)) ==> binding_index(
            Some(Binding::System),
            name,
            actions,
        ) == i + 3,
        (forall|j: int|
            0 <= j < actions.len() ==> !text::same_but_case((#[trigger] actions[j])@, name))
            ==> binding_index(Some(Binding::System), name, actions) == 0,
{
    if 0 <= i < actions.len() && text::same_but_case(actions[i]@, name) && (forall|j: int|
        0 <= j < i ==> !text::same_but_case((#[trigger] actions[j])@, name)) {
        assert(action_at(actions, name, i));
        action_at_is_unique(actions, name, i);
    }
    if forall|j: int|
        0 <= j < actions.len() ==> !text::same_but_case((#[trigger] actions[j])@, name) {
        assert forall|k: int| !action_at(actions, name, k) by {
            if action_at(actions, name, k) {
                assert(!text::same_but_case(actions[k]@, name));
            }
        }
    }
}

/// Every listed row comes from an entry whose key is the number of its button.
pub proof fn rows_come_from_bindings(entries: Seq<(String, String)>, k: int)
    requires
        0 <= k < listed(entries).len(),
    ensures
        exists|i: int|
            0 <= i < entries.len() && text::parsed_u32((#[trigger] entries[i]).0@) == Some(
                listed(entries)[k].0,
            ) && entries[i].1@ == listed(entries)[k].1,
    decreases entries.len(),
{
    let rest = listed(entries.drop_last());
    let last = entries.len() - 1;
    if k < rest.len() {
        rows_come_from_bindings(entries.drop_last(), k);
        let i = choose|i: int|
            0 <= i < entries.drop_last().len() && text::parsed_u32(
                (#[trigger] entries.drop_last()[i]).0@,
            ) == Some(rest[k].0) && entries.drop_last()[i].1@ == rest[k].1;
        assert(entries[i] == entries.drop_last()[i]);
    } else {
        assert(entries[last].1@ == listed(entries)[k].1);
    }
}

/// The panel has room for three rows, and grows with every further one; the card grows with
/// it and holds the button for a new mapping below it.
pub proof fn panels_hold_three_rows_or_more(m: MappingMetrics, rows: int)
    requires
        0 <= rows,
        0 <= m.row_h,
    ensures
        rows <= 3 ==> m.panel_h(rows) == m.header_h + 3 * m.row_h,
        rows >= 3 ==> m.panel_h(rows + 1) - m.panel_h(rows) == m.row_h,
        m.card_h(rows) - m.panel_h(rows) == m.panel_top + m.action_top + m.action_h + m.pad_bottom,
        m.row_y(0) == m.panel_top + m.header_h,
        m.row_left() - m.panel_x == m.cell_x,
        forall|w: int| #[trigger] m.row_right(w) + m.row_left() == w,
{
    let h = m.row_h as int;
    assert(0 * h == 0) by (nonlinear_arith);
    assert((rows + 1) * h == rows * h + h) by (nonlinear_arith);
    if rows <= 3 {
        assert(rows * h <= 3 * h) by (nonlinear_arith)
            requires
                rows <= 3,
                0 <= h,
        ;
    } else {
        assert(3 * h <= rows * h) by (nonlinear_arith)
            requires
                rows >= 3,
                0 <= h,
        ;
    }
    if rows == 3 {
        assert(rows * h == 3 * h);
    }
}

/// In a row everything is centred but for the line at its lower edge; the two buttons are
/// alike and stand 6 points apart at the right end, and the text starts after the icon.
pub proof fn row_parts_are_centred(p: MappingRowPlan, m: MappingMetrics, card_w: int, y: int)
    requires
        m.valid(),
        geometry::in_range(card_w),
        -2_000_000_000_000_000_000 <= y <= 2_000_000_000_000_000_000,
        row_parts(p, m, card_w, y),
    ensures
        p.label.x == m.row_left(),
        p.label.w == 70_000 && p.label.h == 22_000,
        p.desc_label.x - p.label.x == 102_000,
        p.desc_label.h == p.label.h && p.desc_label.y == p.label.y,
        p.desc_label.w > 1_000 ==> p.edit.x - p.desc_label.right() == 8_000,
        p.edit.w == 60_000 && p.edit.h == 27_000,
        p.delete.w == p.edit.w && p.delete.h == p.edit.h && p.delete.y == p.edit.y,
        p.delete.x - p.edit.right() == 6_000,
        p.delete.right() == m.row_right(card_w),
        -1 <= p.label.twice_mid_y() - (2 * y + m.row_h) <= 0,
        -1 <= p.edit.twice_mid_y() - (2 * y + m.row_h) <= 0,
        p.separator.top() == y + m.row_h && p.separator.h == 1_000,
        p.separator.x == m.row_left() && p.separator.right() == m.row_right(card_w),
{
}

/// Key caps are squares, centred in the row, 4 points apart, from left to right.
pub proof fn caps_stand_in_a_line(m: MappingMetrics, y: int, count: nat, k: int)
    requires
        m.valid(),
        -2_000_000_000_000_000_000 <= y <= 2_000_000_000_000_000_000,
        0 <= k < count <= 1_000_000_000,
    ensures
        cap_frames(m, y, count).len() == count,
        ({
            let cap = cap_frames(m, y, count)[k];
            &&& cap.w == 20_000 && cap.h == 20_000
            &&& -1 <= cap.twice_mid_y() - (2 * y + m.row_h) <= 0
            &&& k == 0 ==> cap.x == m.row_left() + 78_000
            &&& k + 1 < count ==> cap_frames(m, y, count)[k + 1].x - cap.right() == 4_000
        }),
{
}

/// A key combination is shown by its caps alone; any other binding by its icon, centred in
/// the row, and by the name of its action unless that is the default one.
pub proof fn rows_show_their_bindings(
    p: MappingRowPlan,
    m: MappingMetrics,
    y: int,
    desc: Seq<char>,
    facts: BindingFacts,
    actions: Seq<String>,
    keys: Seq<String>,
)
    requires
        m.valid(),
        -2_000_000_000_000_000_000 <= y <= 2_000_000_000_000_000_000,
        actions.len() <= 1_000_000_000,
        row_shows(p, m, y, desc, facts, actions, keys),
    ensures
        facts.binding == Some(Binding::Key) ==> p.caps@.len() == facts.cap_count && p.icon is None
            && p.desc_key is None,
        facts.binding != Some(Binding::Key) ==> {
            &&& p.caps@.len() == 0
            &&& p.icon matches Some((index, frame))
            &&& frame.w == 18_000 && frame.h == 18_000
            &&& frame.x == m.row_left() + 74_000
            &&& -1 <= frame.twice_mid_y() - (2 * y + m.row_h) <= 0
            &&& facts.binding is None ==> index == 0 && p.desc_key is None
            &&& facts.binding == Some(Binding::Nothing) ==> index == 1
            &&& facts.binding == Some(Binding::Switcher) ==> index == 7
            &&& index > 0 ==> p.desc_key is Some
            &&& index > 0 && index < keys.len() ==> p.desc_key->0@ == keys[index as int]@
            &&& index > 0 && index >= keys.len() ==> p.desc_key->0@
                == "settings.mapping_action_default"@
        },
{
    if facts.binding == Some(Binding::System) {
        if exists|i: int| action_at(actions, desc, i) {
            let i = choose|i: int| action_at(actions, desc, i);
            action_at_is_unique(actions, desc, i);
        }
    }
}

/// Everything of a row that can be used is greyed out with it: its two texts, the icon, both
/// buttons and every key cap.
pub proof fn rows_are_greyed_out_whole(row: MappingRow, k: int)
    ensures
        row.interactive().contains(row.label),
        row.interactive().contains(row.desc_label),
        row.interactive().contains(row.action_icon),
        row.interactive().contains(row.edit),
        row.interactive().contains(row.delete),
        0 <= k < row.caps@.len() ==> row.interactive().contains(row.caps@[k]),
        row.interactive().len() == 5 + row.caps@.len(),
{
    let all = row.interactive();
    assert(all[0] == row.label);
    assert(all[1] == row.desc_label);
    assert(all[2] == row.action_icon);
    assert(all[3] == row.edit);
    assert(all[4] == row.delete);
    if 0 <= k < row.caps@.len() {
        assert(all[5 + k] == row.caps@[k]);
    }
}

/// The views of a table are those of its rows that are there, whichever row they are in, and
/// no missing one is among them.
pub proof fn tables_have_the_views_of_their_rows(rows: Seq<MappingRow>, view: usize)
    ensures
        row_views(rows).contains(view) <==> view != 0 && row_view(rows, view),
    decreases rows.len(),
{
    broadcast use vstd::seq_lib::group_filter_ensures;

    if rows.len() > 0 {
        let rest = rows.drop_last();
        let own = rows.last().interactive();
        let shown = own.filter(|v: usize| v != 0);
        let before = row_views(rest);
        tables_have_the_views_of_their_rows(rest, view);
        if row_view(rows, view) {
            let i = choose|i: int|
                0 <= i < rows.len() && (#[trigger] rows[i]).interactive().contains(view);
            if i < rows.len() - 1 {
                assert(rest[i] == rows[i]);
            }
        }
        if row_view(rest, view) {
            let i = choose|i: int|
                0 <= i < rest.len() && (#[trigger] rest[i]).interactive().contains(view);
            assert(rows[i] == rest[i]);
        }
        if view != 0 && own.contains(view) {
            let present = |v: usize| v != 0;
            assert(present(view));
            assert(shown.contains(view));
            let j = choose|j: int| 0 <= j < shown.len() && shown[j] == view;
            assert(row_views(rows)[before.len() + j] == view);
            assert(rows[rows.len() - 1].interactive().contains(view));
        }
        if before.contains(view) {
            let j = choose|j: int| 0 <= j < before.len() && before[j] == view;
            assert(row_views(rows)[j] == view);
        }
        if row_views(rows).contains(view) {
            let j = choose|j: int| 0 <= j < row_views(rows).len() && row_views(rows)[j] == view;
            if j < before.len() {
                assert(before[j] == view);
            } else {
                assert(shown[j - before.len()] == view);
                own.lemma_filter_contains_rev(|v: usize| v != 0, view);
                assert(own.contains(view));
                assert(rows[rows.len() - 1].interactive().contains(view));
            }
        }
    }
}

} // verus!
