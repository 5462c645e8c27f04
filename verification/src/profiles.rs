//! Mouse profiles: one per device, and one for all mice.
use vstd::prelude::*;

use crate::button_map::ButtonMap;
use crate::config::{Config, DeviceMatcher, MouseConfig, MouseProfile, PointerConfig, ProfileView};
use crate::text::hexadecimal_text;
use vstd::string::*;
#[allow(unused_imports)]
use crate::text;

verus! {

/// A device by its vendor and product numbers.
pub type DeviceKey = (u32, u32);

/// A mouse that is connected.
#[derive(Debug)]
pub struct ConnectedDevice {
    pub name: String,
    pub vendor_id: u32,
    pub product_id: u32,
}

/// The matcher of the profile that belongs to a selection; no selection means all
/// mice.
pub open spec fn matcher_of(dev: Option<DeviceKey>) -> DeviceMatcher {
    match dev {
        Some((vendor, product)) => DeviceMatcher {
            vendor_id: Some(vendor),
            product_id: Some(product),
        },
        None => DeviceMatcher { vendor_id: None, product_id: None },
    }
}

/// Whether the first profile with the given matcher is at `i`.
pub open spec fn first_at(profiles: Seq<MouseProfile>, m: DeviceMatcher, i: int) -> bool {
    &&& 0 <= i < profiles.len()
    &&& profiles[i].device == m
    &&& forall|j: int| 0 <= j < i ==> (#[trigger] profiles[j]).device != m
}

/// The place of the profile of a selection; the end of the list where there is none
/// yet.
pub open spec fn slot(profiles: Seq<MouseProfile>, dev: Option<DeviceKey>) -> int {
    if exists|i: int| first_at(profiles, matcher_of(dev), i) {
        choose|i: int| first_at(profiles, matcher_of(dev), i)
    } else {
        profiles.len() as int
    }
}

/// A profile that sets nothing but its device.
pub open spec fn fresh_profile(dev: Option<DeviceKey>) -> ProfileView {
    ProfileView {
        device: matcher_of(dev),
        reverse_scroll: None,
        scroll_mode: None,
        line_count: None,
        pointer: None,
        button_mappings: Map::empty(),
        button_mappings_enabled: None,
    }
}

/// The profile of a selection, or the one that would be made for it.
pub open spec fn profile_of(profiles: Seq<MouseProfile>, dev: Option<DeviceKey>) -> ProfileView {
    let i = slot(profiles, dev);
    if i < profiles.len() { profiles[i]@ } else { fresh_profile(dev) }
}

/// Whether `new` is `old` with the profile of the selection, added where it was
/// missing, turned into `profile`.
pub open spec fn only_profile_changed(
    old: Seq<MouseProfile>,
    new: Seq<MouseProfile>,
    dev: Option<DeviceKey>,
    profile: ProfileView,
) -> bool {
    let i = slot(old, dev);
    &&& new.len() == if i < old.len() { old.len() } else { old.len() + 1 }
    &&& new[i]@ == profile
    &&& forall|j: int| 0 <= j < old.len() && j != i ==> #[trigger] new[j] == old[j]
}

/// The matcher of the profile that belongs to a selection.
pub fn device_matcher(dev: Option<DeviceKey>) -> (r: DeviceMatcher)
    ensures
        r == matcher_of(dev),
{
    match dev {
        Some((vendor, product)) => DeviceMatcher {
            vendor_id: Some(vendor),
            product_id: Some(product),
        },
        None => DeviceMatcher { vendor_id: None, product_id: None },
    }
}

/// The place of the profile of a selection.
pub fn find_profile_index(profiles: &Vec<MouseProfile>, dev: Option<DeviceKey>) -> (r: Option<
    usize,
>)
    ensures
        match r {
            Some(i) => first_at(profiles@, matcher_of(dev), i as int) && i == slot(profiles@, dev),
            None => slot(profiles@, dev) == profiles@.len() && forall|j: int|
                0 <= j < profiles@.len() ==> (#[trigger] profiles@[j]).device != matcher_of(dev),
        },
{
    let m = device_matcher(dev);
    let mut i: usize = 0;
    while i < profiles.len()
        invariant
            i <= profiles@.len(),
            m == matcher_of(dev),
            forall|j: int| 0 <= j < i ==> (#[trigger] profiles@[j]).device != m,
        decreases profiles@.len() - i,
    {
        if profiles[i].device == m {
            proof {
                assert(first_at(profiles@, m, i as int));
                slot_is_first(profiles@, dev, i as int);
            }
            return Some(i);
        }
        i += 1;
    }
    None
}

proof fn slot_is_first(profiles: Seq<MouseProfile>, dev: Option<DeviceKey>, i: int)
    requires
        first_at(profiles, matcher_of(dev), i),
    ensures
        slot(profiles, dev) == i,
{
    let m = matcher_of(dev);
    let j = choose|j: int| first_at(profiles, m, j);
    assert(first_at(profiles, m, j));
    if j < i {
        assert(profiles[j].device != m);
    }
    if i < j {
        assert(profiles[i].device != m);
    }
}

/// The place of the profile of a selection, which is added where it is missing.
pub fn selected_device_profile_index(mouse: &mut MouseConfig, dev: Option<DeviceKey>) -> (r: usize)
    requires
        old(mouse).valid(),
    ensures
        final(mouse).valid(),
        final(mouse).enabled == old(mouse).enabled,
        r == slot(old(mouse).profiles@, dev),
        r < final(mouse).profiles@.len(),
        only_profile_changed(
            old(mouse).profiles@,
            final(mouse).profiles@,
            dev,
            profile_of(old(mouse).profiles@, dev),
        ),
        first_at(final(mouse).profiles@, matcher_of(dev), r as int),
{
    match find_profile_index(&mouse.profiles, dev) {
        Some(i) => i,
        None => {
            let fresh = MouseProfile {
                device: device_matcher(dev),
                reverse_scroll: None,
                scroll_mode: None,
                line_count: None,
                pointer: None,
                button_mappings: ButtonMap::new(),
                button_mappings_enabled: None,
            };
            let i = mouse.profiles.len();
            mouse.profiles.push(fresh);
            i
        },
    }
}

/// A change to one profile.
#[derive(Debug)]
pub enum ProfileEdit {
    ReverseScroll(bool),
    /// A scroll mode, with a new line count where the mode uses one.
    ScrollMode { mode: String, line_count: Option<i64> },
    LineCount(i64),
    DisableAcceleration(bool),
    /// Tracking speed in hundredths.
    Acceleration(u32),
    MappingsEnabled(bool),
    Mappings(ButtonMap),
}

impl ProfileEdit {
    pub open spec fn valid(self) -> bool {
        self matches ProfileEdit::Mappings(m) ==> m.inv()
    }
}

/// The line count that is stored for a slider value: 1 to 10.
pub open spec fn stored_line_count(value: int) -> u32 {
    if value < 1 { 1 } else if value > 10 { 10 } else { value as u32 }
}

/// The line count that is stored for a slider value.
pub fn clamp_line_count(value: i64) -> (r: u32)
    ensures
        r == stored_line_count(value as int),
        1 <= r <= 10,
{
    if value < 1 {
        1
    } else if value > 10 {
        10
    } else {
        value as u32
    }
}

/// The pointer part of a profile, or an empty one.
pub open spec fn pointer_of(p: ProfileView) -> PointerConfig {
    match p.pointer {
        Some(c) => c,
        None => PointerConfig { disable_acceleration: None, acceleration: None },
    }
}

/// A profile after a change; everything that the change does not name stays.
pub open spec fn edited(p: ProfileView, e: ProfileEdit) -> ProfileView {
    match e {
        ProfileEdit::ReverseScroll(on) => ProfileView { reverse_scroll: Some(on), ..p },
        ProfileEdit::ScrollMode { mode, line_count } => ProfileView {
            scroll_mode: Some(mode@),
            line_count: match line_count {
                Some(n) => Some(stored_line_count(n as int)),
                None => p.line_count,
            },
            ..p
        },
        ProfileEdit::LineCount(n) => ProfileView {
            line_count: Some(stored_line_count(n as int)),
            ..p
        },
        ProfileEdit::DisableAcceleration(on) => ProfileView {
            pointer: Some(PointerConfig { disable_acceleration: Some(on), ..pointer_of(p) }),
            ..p
        },
        ProfileEdit::Acceleration(speed) => ProfileView {
            pointer: Some(PointerConfig { acceleration: Some(speed), ..pointer_of(p) }),
            ..p
        },
        ProfileEdit::MappingsEnabled(on) => ProfileView {
            button_mappings_enabled: Some(on),
            ..p
        },
        ProfileEdit::Mappings(m) => ProfileView { button_mappings: m@, ..p },
    }
}

fn edit_profile(p: &mut MouseProfile, e: ProfileEdit)
    requires
        old(p).button_mappings.inv(),
        e.valid(),
    ensures
        final(p).button_mappings.inv(),
        final(p)@ == edited(old(p)@, e),
{
    match e {
        ProfileEdit::ReverseScroll(on) => {
            p.reverse_scroll = Some(on);
        },
        ProfileEdit::ScrollMode { mode, line_count } => {
            p.scroll_mode = Some(mode);
            if let Some(n) = line_count {
                p.line_count = Some(clamp_line_count(n));
            }
        },
        ProfileEdit::LineCount(n) => {
            p.line_count = Some(clamp_line_count(n));
        },
        ProfileEdit::DisableAcceleration(on) => {
            let acceleration = match p.pointer {
                Some(c) => c.acceleration,
                None => None,
            };
            p.pointer = Some(PointerConfig { disable_acceleration: Some(on), acceleration });
        },
        ProfileEdit::Acceleration(speed) => {
            let disable_acceleration = match p.pointer {
                Some(c) => c.disable_acceleration,
                None => None,
            };
            p.pointer = Some(PointerConfig { disable_acceleration, acceleration: Some(speed) });
        },
        ProfileEdit::MappingsEnabled(on) => {
            p.button_mappings_enabled = Some(on);
        },
        ProfileEdit::Mappings(m) => {
            p.button_mappings = m;
        },
    }
}

/// Whether only the profiles of the mouse configuration may differ.
pub open spec fn only_profiles_changed(old: Config, new: Config) -> bool {
    new == (Config {
        mouse: MouseConfig { profiles: new.mouse.profiles, ..old.mouse },
        ..old
    })
}

/// Changes the profile of the selected device, which is made where it is missing.
pub fn write_selected_profile(cfg: &mut Config, dev: Option<DeviceKey>, e: ProfileEdit)
    requires
        old(cfg).mouse.valid(),
        e.valid(),
    ensures
        final(cfg).mouse.valid(),
        only_profiles_changed(*old(cfg), *final(cfg)),
        only_profile_changed(
            old(cfg).mouse.profiles@,
            final(cfg).mouse.profiles@,
            dev,
            edited(profile_of(old(cfg).mouse.profiles@, dev), e),
        ),
{
    let i = selected_device_profile_index(&mut cfg.mouse, dev);
    let ghost before = *cfg;
    edit_profile(&mut cfg.mouse.profiles[i], e);
    assert forall|j: int| 0 <= j < cfg.mouse.profiles@.len() implies (
    #[trigger] cfg.mouse.profiles@[j]).button_mappings.inv() by {
        if j != i {
            assert(cfg.mouse.profiles@[j] == before.mouse.profiles@[j]);
        }
    }
}

/// Puts the edited bindings into the profile of the selected device.
pub fn commit_mapping_edits(cfg: &mut Config, dev: Option<DeviceKey>, edits: &ButtonMap)
    requires
        old(cfg).mouse.valid(),
        edits.inv(),
    ensures
        final(cfg).mouse.valid(),
        only_profiles_changed(*old(cfg), *final(cfg)),
        only_profile_changed(
            old(cfg).mouse.profiles@,
            final(cfg).mouse.profiles@,
            dev,
            ProfileView {
                button_mappings: edits@,
                ..profile_of(old(cfg).mouse.profiles@, dev)
            },
        ),
{
    write_selected_profile(cfg, dev, ProfileEdit::Mappings(edits.duplicate()));
}

/// The bindings that the table shows for a selection.
pub fn mapping_edits_of(cfg: &Config, dev: Option<DeviceKey>) -> (r: ButtonMap)
    requires
        cfg.mouse.valid(),
    ensures
        r.inv(),
        r@ == profile_of(cfg.mouse.profiles@, dev).button_mappings,
{
    match find_profile_index(&cfg.mouse.profiles, dev) {
        Some(i) => {
            assert(cfg.mouse.profiles@[i as int].button_mappings.inv());
            cfg.mouse.profiles[i].button_mappings.duplicate()
        },
        None => ButtonMap::new(),
    }
}

/// Whether a device with the given numbers is in a list.
pub open spec fn is_connected(devices: Seq<ConnectedDevice>, key: DeviceKey) -> bool {
    exists|i: int|
        0 <= i < devices.len() && (#[trigger] devices[i]).vendor_id == key.0
            && devices[i].product_id == key.1
}

/// The selection after looking at the connected devices: it stays while its device
/// is there, else it moves to the first device. Without devices it is cleared. The
/// outer `Option` tells whether a selection was ever made.
pub open spec fn calibrated(
    devices: Seq<ConnectedDevice>,
    selected: Option<Option<DeviceKey>>,
) -> Option<Option<DeviceKey>> {
    if devices.len() == 0 {
        Some(None)
    } else {
        match selected {
            Some(Some(key)) if is_connected(devices, key) => selected,
            _ => Some(Some((devices[0].vendor_id, devices[0].product_id))),
        }
    }
}

/// Brings the selection in line with the connected devices.
pub fn ensure_selected_device(
    devices: &Vec<ConnectedDevice>,
    selected: Option<Option<DeviceKey>>,
) -> (r: Option<Option<DeviceKey>>)
    ensures
        r == calibrated(devices@, selected),
{
    if devices.len() == 0 {
        return Some(None);
    }
    if let Some(Some(key)) = selected {
        let mut i: usize = 0;
        while i < devices.len()
            invariant
                i <= devices@.len(),
                devices@.len() > 0,
                selected == Some(Some(key)),
                forall|j: int|
                    0 <= j < i ==> !((#[trigger] devices@[j]).vendor_id == key.0
                        && devices@[j].product_id == key.1),
            decreases devices@.len() - i,
        {
            if devices[i].vendor_id == key.0 && devices[i].product_id == key.1 {
                assert(is_connected(devices@, key));
                return selected;
            }
            i += 1;
        }
    }
    Some(Some((devices[0].vendor_id, devices[0].product_id)))
}

/// After calibration the selected device is connected, and calibrating once more
/// changes nothing.
pub proof fn calibration_is_stable(
    devices: Seq<ConnectedDevice>,
    selected: Option<Option<DeviceKey>>,
)
    ensures
        calibrated(devices, calibrated(devices, selected)) == calibrated(devices, selected),
        calibrated(devices, selected) matches Some(Some(key)) ==> is_connected(devices, key),
        devices.len() > 0 ==> calibrated(devices, selected) matches Some(Some(_)),
{
    if devices.len() > 0 {
        assert(is_connected(devices, (devices[0].vendor_id, devices[0].product_id)));
    }
}

/// What the device select shows.
#[derive(Debug)]
pub struct DevicePopup {
    /// One title for each device.
    pub items: Vec<String>,
    /// The device of each item.
    pub keys: Vec<DeviceKey>,
    /// The item to choose; nothing where there is no device.
    pub selected: Option<usize>,
    /// What the select says where there is no device to choose.
    pub placeholder_key: Option<&'static str>,
    /// Whether there is anything to choose.
    pub enabled: bool,
}

/// A device with its numbers in hexadecimal notation.
pub open spec fn device_title(d: ConnectedDevice) -> Seq<char> {
    d.name@ + seq![' ', '(', '0', 'x'] + text::hexadecimal(d.vendor_id as nat) + seq![
        ':',
        '0',
        'x',
    ] + text::hexadecimal(d.product_id as nat) + seq![')']
}

fn device_label(d: &ConnectedDevice) -> (r: String)
    ensures
        r@ == device_title(*d),
{
    proof {
        reveal_strlit(" (0x");
        reveal_strlit(":0x");
        reveal_strlit(")");
        assert(" (0x"@ =~= seq![' ', '(', '0', 'x']);
        assert(":0x"@ =~= seq![':', '0', 'x']);
        assert(")"@ =~= seq![')']);
    }
    let mut text = d.name.clone();
    text.append(" (0x");
    let vendor = hexadecimal_text(d.vendor_id as u64);
    text.append(vendor.as_str());
    text.append(":0x");
    let product = hexadecimal_text(d.product_id as u64);
    text.append(product.as_str());
    text.append(")");
    text
}

/// The items of the device select: one for each connected device, with that of the
/// selection chosen, or the first one. Without devices the select says so and cannot be
/// used.
pub fn rebuild_device_popup(devices: &Vec<ConnectedDevice>, selected: Option<DeviceKey>) -> (r:
    DevicePopup)
    ensures
        r.items@.len() == devices@.len(),
        forall|i: int| 0 <= i < devices@.len() ==> (#[trigger] r.items@[i])@ == device_title(
            devices@[i],
        ),
        r.keys@ == Seq::new(
            devices@.len(),
            |i: int| (devices@[i].vendor_id, devices@[i].product_id),
        ),
        r.enabled == (devices@.len() > 0),
        match r.placeholder_key {
            Some(key) => devices@.len() == 0 && key@ == "settings.no_device_detected"@,
            None => devices@.len() > 0,
        },
        devices@.len() == 0 ==> r.selected is None,
        devices@.len() > 0 ==> {
            &&& r.selected matches Some(k)
            &&& k < devices@.len()
            &&& match selected {
                Some(key) if r.keys@.contains(key) => r.keys@[k as int] == key && forall|j: int|
                    0 <= j < k ==> #[trigger] r.keys@[j] != key,
                _ => k == 0,
            }
        },
{
    let mut items: Vec<String> = Vec::new();
    let mut keys: Vec<DeviceKey> = Vec::new();
    let mut found: Option<usize> = None;
    let mut i: usize = 0;
    while i < devices.len()
        invariant
            i <= devices@.len(),
            items@.len() == i,
            forall|j: int| 0 <= j < i ==> (#[trigger] items@[j])@ == device_title(devices@[j]),
            keys@ =~= Seq::new(
                i as nat,
                |j: int| (devices@[j].vendor_id, devices@[j].product_id),
            ),
            match found {
                Some(k) => k < i && selected == Some(keys@[k as int]) && forall|j: int|
                    0 <= j < k ==> #[trigger] keys@[j] != keys@[k as int],
                None => selected matches Some(key) ==> !keys@.contains(key),
            },
        decreases devices@.len() - i,
    {
        let ghost before = keys@;
        items.push(device_label(&devices[i]));
        keys.push((devices[i].vendor_id, devices[i].product_id));
        if found.is_none() {
            if let Some(key) = selected {
                if devices[i].vendor_id == key.0 && devices[i].product_id == key.1 {
                    found = Some(i);
                    assert forall|j: int| 0 <= j < i implies #[trigger] keys@[j] != key by {
                        assert(before[j] == keys@[j]);
                        assert(before.contains(before[j]));
                    }
                } else {
                    assert(!keys@.contains(key)) by {
                        if keys@.contains(key) {
                            let j = choose|j: int| 0 <= j < keys@.len() && keys@[j] == key;
                            if j < i {
                                assert(before[j] == key);
                                assert(before.contains(key));
                            }
                        }
                    }
                }
            }
        } else {
            assert forall|j: int| 0 <= j < found->0 implies #[trigger] keys@[j]
                != keys@[found->0 as int] by {
                assert(before[j] == keys@[j]);
            }
        }
        i += 1;
    }
    let chosen = if devices.len() == 0 {
        None
    } else {
        match found {
            Some(k) => Some(k),
            None => Some(0),
        }
    };
    let enabled = devices.len() > 0;
    DevicePopup {
        items,
        keys,
        selected: chosen,
        placeholder_key: if enabled {
            None
        } else {
            Some("settings.no_device_detected")
        },
        enabled,
    }
}

/// The selection after a choice in the device select; a choice that stands for no
/// device clears it.
pub fn device_for_index(keys: &Vec<DeviceKey>, index: i64) -> (r: Option<Option<DeviceKey>>)
    ensures
        r == Some(
            if 0 <= index < keys@.len() {
                Some(keys@[index as int])
            } else {
                None
            },
        ),
{
    if index >= 0 && (index as u64) < (keys.len() as u64) {
        Some(Some(keys[index as usize]))
    } else {
        Some(None)
    }
}

/// Writing the profile of one device leaves the profile of every other one alone.
pub proof fn profile_writes_do_not_leak(
    old: Seq<MouseProfile>,
    new: Seq<MouseProfile>,
    dev: Option<DeviceKey>,
    other: Option<DeviceKey>,
    profile: ProfileView,
)
    requires
        only_profile_changed(old, new, dev, profile),
        profile.device == matcher_of(dev),
        other != dev,
    ensures
        profile_of(new, other) == profile_of(old, other),
{
    let i = slot(old, dev);
    let m = matcher_of(other);
    assert(m != matcher_of(dev));
    if exists|j: int| first_at(old, m, j) {
        let j = choose|j: int| first_at(old, m, j);
        slot_is_first(old, other, j);
        assert(old[j].device == m);
        if i < old.len() {
            assert(first_at(old, matcher_of(dev), i));
        }
        assert(j != i);
        assert(new[j] == old[j]);
        assert(first_at(new, m, j)) by {
            assert forall|k: int| 0 <= k < j implies (#[trigger] new[k]).device != m by {
                if k != i {
                    assert(new[k] == old[k]);
                } else {
                    assert(new[k]@.device == profile.device);
                }
            }
        }
        slot_is_first(new, other, j);
    } else {
        assert(slot(old, other) == old.len());
        if exists|j: int| first_at(new, m, j) {
            let j = choose|j: int| first_at(new, m, j);
            assert(new[j].device == m);
            if j == i {
                assert(new[j]@.device == profile.device);
            } else {
                assert(new[j] == old[j]);
                assert(first_at(old, m, j)) by {
                    assert forall|k: int| 0 <= k < j implies (#[trigger] old[k]).device != m by {
                        if k != i {
                            assert(new[k] == old[k]);
                        } else {
                            assert(first_at(old, matcher_of(dev), i));
                        }
                    }
                }
            }
        }
        assert(slot(new, other) == new.len());
    }
}

/// What was written to the profile of a device is what is read from it, and a
/// second write adds no further profile.
pub proof fn profile_reads_back(
    old: Seq<MouseProfile>,
    new: Seq<MouseProfile>,
    dev: Option<DeviceKey>,
    profile: ProfileView,
)
    requires
        only_profile_changed(old, new, dev, profile),
        profile.device == matcher_of(dev),
    ensures
        profile_of(new, dev) == profile,
        slot(new, dev) == slot(old, dev),
        slot(new, dev) < new.len(),
{
    let i = slot(old, dev);
    let m = matcher_of(dev);
    assert(new[i]@.device == m);
    if exists|j: int| first_at(old, m, j) {
        let j = choose|j: int| first_at(old, m, j);
        slot_is_first(old, dev, j);
    }
    assert(first_at(new, m, i)) by {
        assert forall|k: int| 0 <= k < i implies (#[trigger] new[k]).device != m by {
            assert(new[k] == old[k]);
            if i == old.len() && old[k].device == m {
                first_exists(old, m, k);
            }
        }
    }
    slot_is_first(new, dev, i);
}

proof fn first_exists(profiles: Seq<MouseProfile>, m: DeviceMatcher, k: int)
    requires
        0 <= k < profiles.len(),
        profiles[k].device == m,
    ensures
        exists|i: int| first_at(profiles, m, i),
    decreases k,
{
    if forall|j: int| 0 <= j < k ==> (#[trigger] profiles[j]).device != m {
        assert(first_at(profiles, m, k));
    } else {
        let j = choose|j: int| 0 <= j < k && (#[trigger] profiles[j]).device == m;
        first_exists(profiles, m, j);
    }
}

/// The profile of a selection is for the selected device.
pub proof fn profile_has_its_device(profiles: Seq<MouseProfile>, dev: Option<DeviceKey>)
    ensures
        profile_of(profiles, dev).device == matcher_of(dev),
{
    if exists|i: int| first_at(profiles, matcher_of(dev), i) {
        let i = choose|i: int| first_at(profiles, matcher_of(dev), i);
        slot_is_first(profiles, dev, i);
    }
}

/// An edit never changes which device a profile is for.
pub proof fn edits_keep_the_device(p: ProfileView, e: ProfileEdit)
    ensures
        edited(p, e).device == p.device,
{
}

/// The two pointer settings do not disturb each other.
pub proof fn pointer_settings_are_independent(p: ProfileView, on: bool, speed: u32)
    ensures
        pointer_of(edited(p, ProfileEdit::DisableAcceleration(on))).acceleration == pointer_of(
            p,
        ).acceleration,
        pointer_of(edited(p, ProfileEdit::Acceleration(speed))).disable_acceleration == pointer_of(
            p,
        ).disable_acceleration,
{
}

/// Each edit sets the value that it names to what it says, as it is read back, and leaves
/// every other value of the profile alone.
pub proof fn edits_say_what_they_set(p: ProfileView, e: ProfileEdit)
    ensures
        ({
            let q = edited(p, e);
            &&& q.reverse_scroll == match e {
                ProfileEdit::ReverseScroll(on) => Some(on),
                _ => p.reverse_scroll,
            }
            &&& q.scroll_mode == match e {
                ProfileEdit::ScrollMode { mode, .. } => Some(mode@),
                _ => p.scroll_mode,
            }
            &&& q.button_mappings_enabled == match e {
                ProfileEdit::MappingsEnabled(on) => Some(on),
                _ => p.button_mappings_enabled,
            }
            &&& q.button_mappings == match e {
                ProfileEdit::Mappings(m) => m@,
                _ => p.button_mappings,
            }
            &&& e matches ProfileEdit::DisableAcceleration(on) ==> pointer_of(
                q,
            ).disable_acceleration == Some(on)
            &&& e matches ProfileEdit::Acceleration(speed) ==> pointer_of(q).acceleration == Some(
                speed,
            )
            &&& !(e is DisableAcceleration) && !(e is Acceleration) ==> q.pointer == p.pointer
            &&& !(e is LineCount) && !(e matches ProfileEdit::ScrollMode {
                line_count: Some(_),
                ..
            }) ==> q.line_count == p.line_count
        }),
{
}

/// The line count that is kept is the one asked for, or the nearer end of 1 to 10.
pub proof fn line_counts_are_kept_within_ten(n: i64, p: ProfileView, mode: String)
    ensures
        1 <= n <= 10 ==> stored_line_count(n as int) == n,
        n < 1 ==> stored_line_count(n as int) == 1,
        n > 10 ==> stored_line_count(n as int) == 10,
        edited(p, ProfileEdit::LineCount(n)).line_count == Some(stored_line_count(n as int)),
        edited(p, ProfileEdit::ScrollMode { mode, line_count: Some(n) }).line_count == Some(
            stored_line_count(n as int),
        ),
{
}

/// A pointer part that is missing sets nothing; one that is there is read as it is.
pub proof fn missing_pointer_part_sets_nothing(p: ProfileView)
    ensures
        p.pointer is None ==> pointer_of(p).disable_acceleration is None && pointer_of(
            p,
        ).acceleration is None,
        p.pointer matches Some(c) ==> pointer_of(p) == c,
{
}

/// A device selects the profile with both of its numbers, and no selection the one
/// without any; different selections have different profiles.
pub proof fn selections_name_their_profiles(a: Option<DeviceKey>, b: Option<DeviceKey>)
    ensures
        a matches Some(key) ==> matcher_of(a).vendor_id == Some(key.0) && matcher_of(a).product_id
            == Some(key.1),
        a is None ==> matcher_of(a).vendor_id is None && matcher_of(a).product_id is None,
        matcher_of(a) == matcher_of(b) ==> a == b,
{
}

/// Where profiles have been made for a selection, the first of them counts; else a
/// profile that sets nothing does.
pub proof fn first_profile_counts(profiles: Seq<MouseProfile>, dev: Option<DeviceKey>, i: int)
    ensures
        0 <= i < profiles.len() && profiles[i].device == matcher_of(dev) && (forall|j: int|
            0 <= j < i ==> (#[trigger] profiles[j]).device != matcher_of(dev)) ==> profile_of(
            profiles,
            dev,
        ) == profiles[i]@,
        (forall|j: int|
            0 <= j < profiles.len() ==> (#[trigger] profiles[j]).device != matcher_of(dev)) ==> {
            let p = profile_of(profiles, dev);
            &&& p.reverse_scroll is None && p.scroll_mode is None && p.line_count is None
            &&& p.pointer is None && p.button_mappings_enabled is None
            &&& p.button_mappings == Map::<Seq<char>, Seq<char>>::empty()
        },
{
    let m = matcher_of(dev);
    if 0 <= i < profiles.len() && profiles[i].device == m && (forall|j: int|
        0 <= j < i ==> (#[trigger] profiles[j]).device != m) {
        assert(first_at(profiles, m, i));
        slot_is_first(profiles, dev, i);
    }
    if forall|j: int| 0 <= j < profiles.len() ==> (#[trigger] profiles[j]).device != m {
        assert forall|k: int| !first_at(profiles, m, k) by {
            if first_at(profiles, m, k) {
                assert(profiles[k].device != m);
            }
        }
    }
}

/// A write touches only one profile, or adds one at the end: all others are the very ones
/// they were, in their places.
pub proof fn writes_keep_the_list(
    old: Seq<MouseProfile>,
    new: Seq<MouseProfile>,
    dev: Option<DeviceKey>,
    profile: ProfileView,
    j: int,
)
    requires
        only_profile_changed(old, new, dev, profile),
        0 <= j < old.len(),
    ensures
        old.len() <= new.len() <= old.len() + 1,
        new.len() == old.len() <==> exists|i: int|
            0 <= i < old.len() && (#[trigger] old[i]).device == matcher_of(dev),
        old[j].device != matcher_of(dev) ==> new[j] == old[j],
        old[j].device == matcher_of(dev) && (exists|i: int|
            0 <= i < j && (#[trigger] old[i]).device == matcher_of(dev)) ==> new[j] == old[j],
{
    let m = matcher_of(dev);
    if exists|i: int| 0 <= i < old.len() && (#[trigger] old[i]).device == m {
        let i = choose|i: int| 0 <= i < old.len() && (#[trigger] old[i]).device == m;
        first_exists(old, m, i);
        let f = choose|f: int| first_at(old, m, f);
        slot_is_first(old, dev, f);
    } else {
        assert forall|k: int| !first_at(old, m, k) by {
            if first_at(old, m, k) {
                assert(old[k].device == m);
            }
        }
    }
}

/// The selection follows the devices: it stays on a connected device, and else goes to
/// the first one; with none connected nothing is selected.
pub proof fn selection_follows_the_devices(
    devices: Seq<ConnectedDevice>,
    selected: Option<Option<DeviceKey>>,
    i: int,
)
    ensures
        devices.len() == 0 ==> calibrated(devices, selected) == Some(None::<DeviceKey>),
        0 <= i < devices.len() && selected == Some(
            Some((devices[i].vendor_id, devices[i].product_id)),
        ) ==> calibrated(devices, selected) == selected,
        devices.len() > 0 && calibrated(devices, selected) != selected ==> calibrated(
            devices,
            selected,
        ) == Some(Some((devices[0].vendor_id, devices[0].product_id))),
{
    if 0 <= i < devices.len() {
        assert(is_connected(devices, (devices[i].vendor_id, devices[i].product_id)));
    }
}

/// A device goes by its name, followed by its two numbers in brackets.
pub proof fn titles_start_with_the_name(d: ConnectedDevice)
    ensures
        ({
            let t = device_title(d);
            let n = d.name@.len() as int;
            let v = text::hexadecimal(d.vendor_id as nat);
            let p = text::hexadecimal(d.product_id as nat);
            &&& t.len() == n + 4 + v.len() + 3 + p.len() + 1
            &&& t.take(n) == d.name@
            &&& t[n] == ' ' && t[n + 1] == '(' && t[n + 2] == '0' && t[n + 3] == 'x'
            &&& t.subrange(n + 4, n + 4 + v.len()) == v
            &&& t[n + 4 + v.len()] == ':'
            &&& t.subrange(n + 7 + v.len(), n + 7 + v.len() + p.len()) == p
            &&& t.last() == ')'
        }),
{
    let t = device_title(d);
    let n = d.name@.len() as int;
    let v = text::hexadecimal(d.vendor_id as nat);
    let p = text::hexadecimal(d.product_id as nat);
    assert(t.take(n) =~= d.name@);
    assert(t.subrange(n + 4, n + 4 + v.len()) =~= v);
    assert(t.subrange(n + 7 + v.len(), n + 7 + v.len() + p.len()) =~= p);
}

/// A change of profiles leaves everything else of the configuration alone, the switch of the
/// mouse page as well.
pub proof fn profile_changes_stay_in_the_profiles(old: Config, new: Config)
    requires
        only_profiles_changed(old, new),
    ensures
        new.mouse.enabled == old.mouse.enabled,
        new.appearance == old.appearance && new.i18n == old.i18n && new.logging == old.logging,
        new.startup == old.startup && new.windows == old.windows && new.layout == old.layout,
        new.fonts == old.fonts && new.keyboard == old.keyboard && new.clipboard == old.clipboard,
        new.window_control == old.window_control && new.quick_actions == old.quick_actions,
        new.updates == old.updates,
{
}

/// A device is there only where one connected device has both of its numbers; another device
/// of the same vendor, or one that shares its product number, does not stand for it.
pub proof fn devices_are_known_by_both_numbers(devices: Seq<ConnectedDevice>, key: DeviceKey)
    ensures
        (forall|i: int|
            0 <= i < devices.len() ==> (#[trigger] devices[i]).vendor_id != key.0
                || devices[i].product_id != key.1) ==> !is_connected(devices, key),
        (forall|i: int|
            0 <= i < devices.len() ==> (#[trigger] devices[i]).vendor_id != key.0
                || devices[i].product_id != key.1) && devices.len() > 0 ==> calibrated(
            devices,
            Some(Some(key)),
        ) == Some(Some((devices[0].vendor_id, devices[0].product_id))),
{
}

} // verus!
