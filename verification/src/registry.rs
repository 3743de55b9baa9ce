//! Which of the enumerated devices are polled, and under which name.

use crate::classify::{line_begins_with_name, rendered};
use crate::event::RawEvent;
use crate::source::NonBlockingSource;
use vstd::prelude::*;
use vstd::string::*;

verus! {

/// The one enumeration position that is never polled, whatever device
/// occupies it.
pub const EXCLUDED_POSITION: usize = 16;

/// What the enumeration reports of one device.
#[derive(Clone, Debug)]
pub struct DeviceInfo {
    /// Whether the device reports support for key events.
    pub has_keys: bool,
    /// The name the device reports, if it reports one.
    pub name: Option<String>,
}

/// A device chosen for polling: its position in the enumeration, which is
/// also its tag, and the name it is shown under.
#[derive(Clone, Debug)]
pub struct Selection {
    pub index: usize,
    pub name: String,
}

/// A device that is polled: its position in the enumeration, the name it is
/// shown under, and its source, whose registration is tagged with the
/// position.
#[derive(Debug)]
pub struct RegistryEntry {
    index: usize,
    name: String,
    source: NonBlockingSource,
}

/// The name shown for a device that reports none.
pub open spec fn placeholder() -> Seq<char> {
    "unnamed"@
}

/// The name a device is shown under: its own, or the placeholder.
pub open spec fn display_name_of(name: Option<String>) -> Seq<char> {
    match name {
        Some(own) => own@,
        None => placeholder(),
    }
}

/// Whether the device at `position` is polled: it supports key events and
/// does not stand at the excluded position.
pub open spec fn is_selected(position: int, has_keys: bool) -> bool {
    has_keys && position != EXCLUDED_POSITION
}

/// The positions of the devices that are polled, in enumeration order.
pub open spec fn selected_positions(devices: Seq<DeviceInfo>) -> Seq<int>
    decreases devices.len(),
{
    if devices.len() == 0 {
        Seq::empty()
    } else {
        let before = selected_positions(devices.drop_last());
        let last = devices.len() - 1;
        if is_selected(last, devices.last().has_keys) {
            before.push(last)
        } else {
            before
        }
    }
}

/// Whether `entry` stands for the device at its index: the index lies in the
/// enumeration and the name is the one that device is shown under.
pub open spec fn stands_for_device(entry: Selection, devices: Seq<DeviceInfo>) -> bool {
    &&& 0 <= entry.index < devices.len()
    &&& entry.name@ == display_name_of(devices[entry.index as int].name)
}

/// Whether `chosen` is the selection made from `devices`: one entry for each
/// selected position, in enumeration order, indexed by that position and
/// named after the device there.
pub open spec fn is_selection_of(chosen: Seq<Selection>, devices: Seq<DeviceInfo>) -> bool {
    &&& chosen.len() == selected_positions(devices).len()
    &&& forall|k: int|
        0 <= k < chosen.len() ==> (#[trigger] chosen[k]).index == selected_positions(devices)[k]
    &&& forall|k: int| 0 <= k < chosen.len() ==> stands_for_device(#[trigger] chosen[k], devices)
}

/// Whether the device at `position` is polled.
pub fn selects(position: usize, has_keys: bool) -> (chosen: bool)
    ensures
        chosen == is_selected(position as int, has_keys),
{
    has_keys && position != EXCLUDED_POSITION
}

/// The name a device is shown under.
pub fn display_name(name: &Option<String>) -> (shown: String)
    ensures
        shown@ == display_name_of(*name),
{
    match name {
        Some(own) => own.clone(),
        None => String::from_str("unnamed"),
    }
}

/// Chooses the devices to poll from the enumeration, which is given in the
/// host's order. Positions are counted before anything is left out.
pub fn discover(devices: &Vec<DeviceInfo>) -> (chosen: Vec<Selection>)
    ensures
        is_selection_of(chosen@, devices@),
{
    let mut chosen: Vec<Selection> = Vec::new();
    let mut i: usize = 0;
    assert(devices@.take(0) =~= Seq::<DeviceInfo>::empty());
    while i < devices.len()
        invariant
            i <= devices.len(),
            is_selection_of(chosen@, devices@.take(i as int)),
        decreases devices.len() - i,
    {
        let ghost before = chosen@;
        let ghost seen = devices@.take(i as int);
        let ghost next = devices@.take(i + 1);
        proof {
            assert(next.drop_last() =~= seen);
            assert(next.last() == devices@[i as int]);
            assert forall|k: int| 0 <= k < before.len() implies stands_for_device(
                #[trigger] before[k],
                next,
            ) by {
                assert(stands_for_device(before[k], seen));
                assert(seen[before[k].index as int] == next[before[k].index as int]);
            }
        }
        if selects(i, devices[i].has_keys) {
            let name = display_name(&devices[i].name);
            chosen.push(Selection { index: i, name });
            proof {
                assert(selected_positions(next) == selected_positions(seen).push(i as int));
                assert forall|k: int| 0 <= k < chosen@.len() implies stands_for_device(
                    #[trigger] chosen@[k],
                    next,
                ) by {
                    if k < before.len() {
                        assert(chosen@[k] == before[k]);
                    }
                }
            }
        } else {
            assert(selected_positions(next) == selected_positions(seen));
        }
        i += 1;
    }
    assert(devices@.take(i as int) =~= devices@);
    chosen
}

/// The selection leaves out exactly the devices without key support and the
/// one at the excluded position: a position is selected if and only if it
/// lies in the enumeration, its device supports key events, and it is not the
/// excluded position. What happens to one position does not depend on any
/// other device. The selected positions keep the enumeration's order, so
/// none occurs twice.
pub proof fn selection_is_by_position_and_keys(devices: Seq<DeviceInfo>)
    ensures
        forall|p: int|
            selected_positions(devices).contains(p) <==> (0 <= p < devices.len()
                && devices[p].has_keys && p != EXCLUDED_POSITION),
        forall|j: int, k: int|
            0 <= j < k < selected_positions(devices).len() ==> selected_positions(devices)[j]
                < selected_positions(devices)[k],
        !selected_positions(devices).contains(EXCLUDED_POSITION as int),
    decreases devices.len(),
{
    let positions = selected_positions(devices);
    if devices.len() > 0 {
        let shorter = devices.drop_last();
        let before = selected_positions(shorter);
        let last = devices.len() - 1;
        selection_is_by_position_and_keys(shorter);
        assert forall|p: int| positions.contains(p) <==> (0 <= p < devices.len()
            && devices[p].has_keys && p != EXCLUDED_POSITION) by {
            if is_selected(last, devices.last().has_keys) {
                assert(positions == before.push(last));
                if positions.contains(p) {
                    let k = choose|k: int| 0 <= k < positions.len() && positions[k] == p;
                    if k < before.len() {
                        assert(before[k] == p);
                        assert(before.contains(p));
                    }
                }
                if 0 <= p < devices.len() && devices[p].has_keys && p != EXCLUDED_POSITION {
                    if p == last {
                        assert(positions[before.len() as int] == p);
                    } else {
                        assert(shorter[p] == devices[p]);
                        assert(before.contains(p));
                        let k = choose|k: int| 0 <= k < before.len() && before[k] == p;
                        assert(positions[k] == p);
                    }
                }
            } else {
                assert(positions == before);
                if 0 <= p < devices.len() - 1 {
                    assert(shorter[p] == devices[p]);
                }
                if before.contains(p) {
                    assert(0 <= p < shorter.len());
                }
            }
        }
        assert forall|j: int, k: int| 0 <= j < k < positions.len() implies positions[j]
            < positions[k] by {
            if is_selected(last, devices.last().has_keys) && k == before.len() {
                assert(before.contains(before[j]));
            }
        }
    } else {
        assert forall|p: int| !positions.contains(p) by {}
    }
}

impl Selection {
    /// The tag under which the device is registered: its position.
    pub fn tag(&self) -> (tag: u64)
        ensures
            tag == self.index,
    {
        self.index as u64
    }
}

impl RegistryEntry {
    /// The position of the device in the enumeration.
    pub closed spec fn index_spec(self) -> usize {
        self.index
    }

    /// The name the device is shown under.
    pub closed spec fn name_spec(self) -> Seq<char> {
        self.name@
    }

    /// The device's source.
    pub closed spec fn source_spec(self) -> NonBlockingSource {
        self.source
    }

    /// An entry's source is tagged with the entry's position.
    #[verifier::type_invariant]
    spec fn tagged_with_position(self) -> bool {
        self.source@.tag == self.index
    }

    /// Joins a chosen device with the source that was set up for it. The two
    /// belong together only if the source carries the device's position as
    /// its tag; otherwise there is no entry.
    pub fn new(selection: Selection, source: NonBlockingSource) -> (entry: Option<RegistryEntry>)
        ensures
            entry is Some <==> source@.tag == selection.index,
            match entry {
                Some(made) => {
                    &&& made.index_spec() == selection.index
                    &&& made.name_spec() == selection.name@
                    &&& made.source_spec() == source
                },
                None => true,
            },
    {
        if source.tag() == selection.tag() {
            Some(RegistryEntry { index: selection.index, name: selection.name, source })
        } else {
            None
        }
    }

    /// The position of the device in the enumeration, which is also the tag
    /// of its source.
    pub fn index(&self) -> (index: usize)
        ensures
            index == self.index_spec(),
            index == self.source_spec()@.tag,
    {
        proof {
            use_type_invariant(self);
        }
        self.index
    }

    /// The name the device is shown under.
    pub fn name(&self) -> (name: &str)
        ensures
            name@ == self.name_spec(),
    {
        self.name.as_str()
    }

    /// The device's source.
    pub fn source(&self) -> (source: &NonBlockingSource)
        ensures
            *source == self.source_spec(),
    {
        &self.source
    }
}

/// A device that reports no name is shown under the placeholder, and so
/// every line of its events begins with the placeholder.
pub proof fn unnamed_device_is_shown_as_placeholder(
    devices: Seq<DeviceInfo>,
    chosen: Seq<Selection>,
    k: int,
    event: RawEvent,
)
    requires
        is_selection_of(chosen, devices),
        0 <= k < chosen.len(),
        devices[chosen[k].index as int].name is None,
    ensures
        chosen[k].name@ == placeholder(),
        match rendered(chosen[k].name@, event) {
            Some(line) => (placeholder() + ": "@).is_prefix_of(line),
            None => true,
        },
{
    assert(stands_for_device(chosen[k], devices));
    line_begins_with_name(chosen[k].name@, event);
}

} // verus!
