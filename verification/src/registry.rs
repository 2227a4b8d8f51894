//! The monitor registry: which monitor object and which display mode belong
//! to each connector.
//!
//! The registry is the one structure that the controller shares with the
//! listener that receives configuration commands. It is owned by whoever
//! guards it with a lock; every operation here is one complete lookup or
//! update, so a writer that holds the lock for the length of one call never
//! leaves a half-written entry behind.
//!
//! Entries come into being on demand: the first write for a connector, by
//! either writer, creates its entry. Entries are never taken out again; when
//! a monitor goes away its handle is cleared.

use crate::error::{ContextError, Unavailable};
use crate::handle::MonitorHandle;
use vstd::prelude::*;

verus! {

/// The number of monitors that can be connected. Connector indices run from
/// zero up to, and not including, this number.
pub const MAX_MONITORS: u8 = 16;

/// A display mode that has been requested for a monitor.
#[derive(Clone, Copy, Debug, PartialEq, Eq, Structural)]
pub struct DisplayMode {
    pub width: u32,
    pub height: u32,
    pub refresh_rate: u32,
}

/// What the registry knows of one connector.
#[derive(Clone, Copy, Debug, PartialEq, Eq)]
pub struct RegistryEntry {
    /// The connector this entry is about.
    pub index: u32,
    /// The monitor object on this connector, if one exists. The registry does
    /// not own the object.
    pub monitor_object: Option<MonitorHandle>,
    /// The mode that was requested last, if any was.
    pub mode: Option<DisplayMode>,
}

/// The entry of a connector, if the table has one.
pub open spec fn entry_of(table: Map<u32, RegistryEntry>, index: u32) -> Option<RegistryEntry> {
    if table.dom().contains(index) {
        Some(table[index])
    } else {
        None
    }
}

/// The monitor object recorded for a connector.
pub open spec fn handle_of(table: Map<u32, RegistryEntry>, index: u32) -> Option<MonitorHandle> {
    if table.dom().contains(index) {
        table[index].monitor_object
    } else {
        None
    }
}

/// The mode recorded for a connector.
pub open spec fn mode_of(table: Map<u32, RegistryEntry>, index: u32) -> Option<DisplayMode> {
    if table.dom().contains(index) {
        table[index].mode
    } else {
        None
    }
}

/// The table after the monitor object of a connector has been written. The
/// connector's mode stays as it was.
pub open spec fn with_handle(
    table: Map<u32, RegistryEntry>,
    index: u32,
    handle: Option<MonitorHandle>,
) -> Map<u32, RegistryEntry> {
    table.insert(
        index,
        RegistryEntry { index, monitor_object: handle, mode: mode_of(table, index) },
    )
}

/// The table after the mode of a connector has been written. The connector's
/// monitor object stays as it was.
pub open spec fn with_mode(table: Map<u32, RegistryEntry>, index: u32, mode: DisplayMode) -> Map<
    u32,
    RegistryEntry,
> {
    table.insert(
        index,
        RegistryEntry { index, monitor_object: handle_of(table, index), mode: Some(mode) },
    )
}

/// What holds of every table that a registry can hold: each entry is filed
/// under its own connector, each connector is below the maximum, no recorded
/// monitor object is null, and there are at most [`MAX_MONITORS`] entries.
pub open spec fn table_ok(table: Map<u32, RegistryEntry>) -> bool {
    &&& table.dom().finite()
    &&& table.dom().len() <= MAX_MONITORS
    &&& forall|i: u32| #[trigger]
        table.dom().contains(i) ==> {
            &&& table[i].index == i
            &&& i < MAX_MONITORS
            &&& (table[i].monitor_object matches Some(h) ==> !h.is_null_spec())
        }
}

/// The table that a list of entries stands for: a later entry for a connector
/// replaces an earlier one.
spec fn table_of(entries: Seq<RegistryEntry>) -> Map<u32, RegistryEntry>
    decreases entries.len(),
{
    if entries.len() == 0 {
        Map::empty()
    } else {
        table_of(entries.drop_last()).insert(entries.last().index, entries.last())
    }
}

/// Some entry of the list is about this connector.
spec fn listed(entries: Seq<RegistryEntry>, index: u32) -> bool {
    exists|k: int| 0 <= k < entries.len() && #[trigger] entries[k].index == index
}

/// The list holds at most one entry for each connector, and each entry is one
/// that a registry may hold.
spec fn entries_ok(entries: Seq<RegistryEntry>) -> bool {
    &&& forall|k: int|
        0 <= k < entries.len() ==> {
            &&& (#[trigger] entries[k]).index < MAX_MONITORS
            &&& (entries[k].monitor_object matches Some(h) ==> !h.is_null_spec())
        }
    &&& forall|j: int, k: int|
        0 <= j < k < entries.len() ==> (#[trigger] entries[j]).index != (#[trigger] entries[k]).index
}

/// A finite set of numbers below `bound` has at most `bound` elements.
proof fn lemma_bounded_keys(keys: Set<u32>, bound: u32)
    requires
        keys.finite(),
        forall|i: u32| keys.contains(i) ==> i < bound,
    ensures
        keys.len() <= bound,
    decreases bound,
{
    if bound == 0 {
        assert(keys =~= Set::empty());
    } else {
        let top: u32 = (bound - 1) as u32;
        let rest = keys.remove(top);
        lemma_bounded_keys(rest, top);
        assert(keys.len() <= rest.len() + 1) by {
            if keys.contains(top) {
                assert(rest.insert(top) =~= keys);
            } else {
                assert(rest =~= keys);
            }
        }
    }
}

/// How the table follows from a list without repeated connectors: its keys
/// are the listed connectors, each key leads to its entry, and it has as many
/// keys as the list has entries.
proof fn lemma_table_of(entries: Seq<RegistryEntry>)
    requires
        entries_ok(entries),
    ensures
        forall|i: u32|
            #![trigger table_of(entries).dom().contains(i)]
            #![trigger listed(entries, i)]
            table_of(entries).dom().contains(i) <==> listed(entries, i),
        forall|k: int|
            0 <= k < entries.len() ==> table_of(entries)[(#[trigger] entries[k]).index]
                == entries[k],
        table_of(entries).dom().finite(),
        table_of(entries).dom().len() == entries.len(),
        table_ok(table_of(entries)),
    decreases entries.len(),
{
    if entries.len() == 0 {
        assert(table_of(entries).dom() =~= Set::empty());
    } else {
        let init = entries.drop_last();
        let last = entries.last();
        let n = init.len() as int;
        assert(entries[n] == last);
        assert forall|k: int| 0 <= k < n implies init[k] == entries[k] by {}
        assert(entries_ok(init)) by {
            assert forall|k: int| 0 <= k < init.len() implies {
                &&& (#[trigger] init[k]).index < MAX_MONITORS
                &&& (init[k].monitor_object matches Some(h) ==> !h.is_null_spec())
            } by {
                assert(init[k] == entries[k]);
            }
            assert forall|j: int, k: int| 0 <= j < k < init.len() implies (#[trigger] init[j]).index
                != (#[trigger] init[k]).index by {
                assert(init[j] == entries[j]);
                assert(init[k] == entries[k]);
            }
        }
        lemma_table_of(init);
        assert(!listed(init, last.index)) by {
            if listed(init, last.index) {
                let k = choose|k: int| 0 <= k < init.len() && #[trigger] init[k].index == last.index;
                assert(entries[k].index == entries[n].index);
            }
        }
        assert forall|i: u32|
            #![trigger table_of(entries).dom().contains(i)]
            #![trigger listed(entries, i)]
            table_of(entries).dom().contains(i) <==> listed(entries, i) by {
            if listed(entries, i) {
                let k = choose|k: int| 0 <= k < entries.len() && #[trigger] entries[k].index == i;
                if k < n {
                    assert(init[k].index == i);
                    assert(listed(init, i));
                }
            }
            if listed(init, i) {
                let k = choose|k: int| 0 <= k < init.len() && #[trigger] init[k].index == i;
                assert(entries[k].index == i);
            }
            if i == last.index {
                assert(entries[n].index == i);
            }
        }
        assert forall|k: int| 0 <= k < entries.len() implies table_of(entries)[(
        #[trigger] entries[k]).index] == entries[k] by {
            if k < n {
                assert(entries[k].index != entries[n].index);
                assert(table_of(init)[init[k].index] == init[k]);
            }
        }
        assert forall|i: u32| table_of(entries).dom().contains(i) implies i
            < MAX_MONITORS as u32 by {
            let k = choose|k: int| 0 <= k < entries.len() && #[trigger] entries[k].index == i;
            assert(entries[k].index < MAX_MONITORS);
        }
        lemma_bounded_keys(table_of(entries).dom(), MAX_MONITORS as u32);
        assert forall|i: u32| #[trigger] table_of(entries).dom().contains(i) implies {
            &&& table_of(entries)[i].index == i
            &&& i < MAX_MONITORS
            &&& (table_of(entries)[i].monitor_object matches Some(h) ==> !h.is_null_spec())
        } by {
            let k = choose|k: int| 0 <= k < entries.len() && #[trigger] entries[k].index == i;
            assert(table_of(entries)[entries[k].index] == entries[k]);
        }
    }
}

/// Replacing the entry of a connector in the list replaces it in the table.
proof fn lemma_table_of_update(entries: Seq<RegistryEntry>, k: int, entry: RegistryEntry)
    requires
        entries_ok(entries),
        0 <= k < entries.len(),
        entry.index == entries[k].index,
        entry.monitor_object matches Some(h) ==> !h.is_null_spec(),
    ensures
        entries_ok(entries.update(k, entry)),
        table_of(entries.update(k, entry)) == table_of(entries).insert(entry.index, entry),
{
    let after = entries.update(k, entry);
    assert forall|j: int| 0 <= j < after.len() implies (#[trigger] after[j]).index
        == entries[j].index by {}
    assert(entries_ok(after)) by {
        assert forall|j: int| 0 <= j < after.len() implies {
            &&& (#[trigger] after[j]).index < MAX_MONITORS
            &&& (after[j].monitor_object matches Some(h) ==> !h.is_null_spec())
        } by {
            assert(entries[j].index < MAX_MONITORS);
            if j != k {
                assert(after[j] == entries[j]);
            }
        }
        assert forall|i: int, j: int| 0 <= i < j < after.len() implies (#[trigger] after[i]).index
            != (#[trigger] after[j]).index by {
            assert(entries[i].index != entries[j].index);
        }
    }
    lemma_table_of(entries);
    lemma_table_of(after);
    let want = table_of(entries).insert(entry.index, entry);
    assert forall|i: u32| table_of(after).dom().contains(i) <==> want.dom().contains(i) by {
        if listed(after, i) {
            let j = choose|j: int| 0 <= j < after.len() && #[trigger] after[j].index == i;
            assert(entries[j].index == i);
        }
        if listed(entries, i) {
            let j = choose|j: int| 0 <= j < entries.len() && #[trigger] entries[j].index == i;
            assert(after[j].index == i);
        }
        if i == entry.index {
            assert(entries[k].index == i);
        }
    }
    assert forall|i: u32| table_of(after).dom().contains(i) implies table_of(after)[i]
        == want[i] by {
        let j = choose|j: int| 0 <= j < after.len() && #[trigger] after[j].index == i;
        assert(table_of(after)[after[j].index] == after[j]);
        if j != k {
            assert(after[j] == entries[j]);
            assert(table_of(entries)[entries[j].index] == entries[j]);
            if j < k {
                assert(entries[j].index != entries[k].index);
            } else {
                assert(entries[k].index != entries[j].index);
            }
        }
    }
    assert(table_of(after) =~= want);
}

/// Adding an entry for a connector that the list does not hold adds it to the
/// table.
proof fn lemma_table_of_push(entries: Seq<RegistryEntry>, entry: RegistryEntry)
    requires
        entries_ok(entries),
        !listed(entries, entry.index),
        entry.index < MAX_MONITORS,
        entry.monitor_object matches Some(h) ==> !h.is_null_spec(),
    ensures
        entries_ok(entries.push(entry)),
        table_of(entries.push(entry)) == table_of(entries).insert(entry.index, entry),
{
    let after = entries.push(entry);
    assert(after.drop_last() =~= entries);
    assert(after.last() == entry);
    assert forall|j: int| 0 <= j < entries.len() implies #[trigger] after[j] == entries[j] by {}
    assert forall|i: int, j: int| 0 <= i < j < after.len() implies (#[trigger] after[i]).index
        != (#[trigger] after[j]).index by {
        if j < entries.len() {
            assert(entries[i].index != entries[j].index);
        } else {
            assert(entries[i].index != entry.index);
        }
    }
    assert forall|j: int| 0 <= j < after.len() implies {
        &&& (#[trigger] after[j]).index < MAX_MONITORS
        &&& (after[j].monitor_object matches Some(h) ==> !h.is_null_spec())
    } by {
        if j < entries.len() {
            assert(after[j] == entries[j]);
            assert(entries[j].index < MAX_MONITORS);
        }
    }
}

/// The table of monitors, one entry for each connector that was ever written.
pub struct MonitorRegistry {
    entries: Vec<RegistryEntry>,
}

impl View for MonitorRegistry {
    type V = Map<u32, RegistryEntry>;

    closed spec fn view(&self) -> Map<u32, RegistryEntry> {
        table_of(self.entries@)
    }
}

impl MonitorRegistry {
    /// The registry's invariant. Every registry that [`MonitorRegistry::new`]
    /// made and that was changed through its methods alone meets it.
    pub closed spec fn wf(&self) -> bool {
        entries_ok(self.entries@)
    }

    /// A well-formed registry holds a table as [`table_ok`] describes it.
    pub proof fn lemma_table_ok(&self)
        requires
            self.wf(),
        ensures
            table_ok(self@),
    {
        lemma_table_of(self.entries@);
    }

    /// A registry without entries.
    pub fn new() -> (registry: MonitorRegistry)
        ensures
            registry.wf(),
            registry@ == Map::<u32, RegistryEntry>::empty(),
    {
        MonitorRegistry { entries: Vec::new() }
    }

    /// Where the entry of a connector stands in the list.
    fn position(&self, index: u32) -> (at: Option<usize>)
        ensures
            match at {
                Some(k) => k < self.entries@.len() && self.entries@[k as int].index == index,
                None => !listed(self.entries@, index),
            },
    {
        let mut k: usize = 0;
        while k < self.entries.len()
            invariant
                k <= self.entries@.len(),
                forall|j: int| 0 <= j < k ==> (#[trigger] self.entries@[j]).index != index,
            decreases self.entries@.len() - k,
        {
            if self.entries[k].index == index {
                return Some(k);
            }
            k = k + 1;
        }
        None
    }

    /// The number of connectors that have an entry.
    pub fn len(&self) -> (n: usize)
        requires
            self.wf(),
        ensures
            n == self@.dom().len(),
            n <= MAX_MONITORS,
    {
        proof {
            lemma_table_of(self.entries@);
        }
        self.entries.len()
    }

    /// The entry of a connector, if it has one.
    pub fn get(&self, index: u32) -> (entry: Option<RegistryEntry>)
        requires
            self.wf(),
        ensures
            entry == entry_of(self@, index),
    {
        proof {
            lemma_table_of(self.entries@);
        }
        match self.position(index) {
            Some(k) => Some(self.entries[k]),
            None => None,
        }
    }

    /// The monitor object on a connector, if one is recorded.
    pub fn monitor(&self, index: u32) -> (handle: Option<MonitorHandle>)
        requires
            self.wf(),
        ensures
            handle == handle_of(self@, index),
    {
        match self.get(index) {
            Some(entry) => entry.monitor_object,
            None => None,
        }
    }

    /// The mode that was requested last for a connector, if any was.
    pub fn mode(&self, index: u32) -> (mode: Option<DisplayMode>)
        requires
            self.wf(),
        ensures
            mode == mode_of(self@, index),
    {
        match self.get(index) {
            Some(entry) => entry.mode,
            None => None,
        }
    }

    /// Files an entry under its connector, in place of the one that is there
    /// or as a new one.
    fn put(&mut self, entry: RegistryEntry)
        requires
            old(self).wf(),
            entry.index < MAX_MONITORS,
            entry.monitor_object matches Some(h) ==> !h.is_null_spec(),
        ensures
            final(self).wf(),
            final(self)@ == old(self)@.insert(entry.index, entry),
    {
        match self.position(entry.index) {
            Some(k) => {
                proof {
                    lemma_table_of_update(self.entries@, k as int, entry);
                }
                self.entries.set(k, entry);
            },
            None => {
                proof {
                    lemma_table_of_push(self.entries@, entry);
                }
                self.entries.push(entry);
            },
        }
    }

    /// Records the monitor object of a connector. The connector's entry is
    /// created if it has none; its mode is kept.
    ///
    /// A connector at or above [`MAX_MONITORS`] is refused, and so is a null
    /// handle; the registry then stays as it was.
    pub fn set_handle(&mut self, index: u32, handle: MonitorHandle) -> (r: Result<
        (),
        ContextError,
    >)
        requires
            old(self).wf(),
        ensures
            final(self).wf(),
            r == set_handle_result(index, handle),
            r is Ok ==> final(self)@ == with_handle(old(self)@, index, Some(handle)),
            r is Err ==> final(self)@ == old(self)@,
    {
        if index >= MAX_MONITORS as u32 {
            return Err(ContextError::Other(Unavailable::Connector));
        }
        if handle.is_null() {
            return Err(ContextError::Other(Unavailable::MonitorObject));
        }
        let mode = self.mode(index);
        self.put(RegistryEntry { index, monitor_object: Some(handle), mode });
        Ok(())
    }

    /// Forgets the monitor object of a connector, and returns it. The entry
    /// itself stays, with its mode; a connector without an entry gets none.
    pub fn clear_handle(&mut self, index: u32) -> (cleared: Option<MonitorHandle>)
        requires
            old(self).wf(),
        ensures
            final(self).wf(),
            cleared == handle_of(old(self)@, index),
            old(self)@.dom().contains(index) ==> final(self)@ == with_handle(
                old(self)@,
                index,
                None,
            ),
            !old(self)@.dom().contains(index) ==> final(self)@ == old(self)@,
    {
        proof {
            lemma_table_of(self.entries@);
        }
        match self.get(index) {
            Some(entry) => {
                self.put(RegistryEntry { index, monitor_object: None, mode: entry.mode });
                entry.monitor_object
            },
            None => None,
        }
    }

    /// Records the mode that was requested for a connector. The connector's
    /// entry is created if it has none; its monitor object is kept.
    ///
    /// A connector at or above [`MAX_MONITORS`] is refused; the registry then
    /// stays as it was.
    pub fn set_mode(&mut self, index: u32, mode: DisplayMode) -> (r: Result<(), ContextError>)
        requires
            old(self).wf(),
        ensures
            final(self).wf(),
            r == set_mode_result(index),
            r is Ok ==> final(self)@ == with_mode(old(self)@, index, mode),
            r is Err ==> final(self)@ == old(self)@,
    {
        if index >= MAX_MONITORS as u32 {
            return Err(ContextError::Other(Unavailable::Connector));
        }
        proof {
            lemma_table_of(self.entries@);
        }
        let monitor_object = self.monitor(index);
        self.put(RegistryEntry { index, monitor_object, mode: Some(mode) });
        Ok(())
    }
}

/// Writing a monitor object touches nothing but that one field of that one
/// connector: every mode, and the monitor object of every other connector, is
/// what it was.
pub proof fn lemma_handle_write_frame(
    table: Map<u32, RegistryEntry>,
    index: u32,
    handle: Option<MonitorHandle>,
)
    ensures
        handle_of(with_handle(table, index, handle), index) == handle,
        forall|i: u32| mode_of(with_handle(table, index, handle), i) == mode_of(table, i),
        forall|i: u32|
            i != index ==> entry_of(with_handle(table, index, handle), i) == entry_of(table, i),
{
}

/// Writing a mode touches nothing but that one field of that one connector:
/// every monitor object, and the mode of every other connector, is what it
/// was.
pub proof fn lemma_mode_write_frame(table: Map<u32, RegistryEntry>, index: u32, mode: DisplayMode)
    ensures
        mode_of(with_mode(table, index, mode), index) == Some(mode),
        forall|i: u32| handle_of(with_mode(table, index, mode), i) == handle_of(table, i),
        forall|i: u32|
            i != index ==> entry_of(with_mode(table, index, mode), i) == entry_of(table, i),
{
}

/// Two writers that take turns under the lock, one recording a monitor object
/// and one recording a mode, leave the same table whichever of them comes
/// first, also when both write to one connector. In that table the monitor
/// object of the one connector is what the one writer wrote and the mode of
/// the other connector is what the other writer wrote, and every other field
/// is what it was before: no entry holds half of a write.
pub proof fn lemma_writers_commute(
    table: Map<u32, RegistryEntry>,
    handle_index: u32,
    handle: Option<MonitorHandle>,
    mode_index: u32,
    mode: DisplayMode,
)
    ensures
        with_mode(with_handle(table, handle_index, handle), mode_index, mode) == with_handle(
            with_mode(table, mode_index, mode),
            handle_index,
            handle,
        ),
        handle_of(
            with_mode(with_handle(table, handle_index, handle), mode_index, mode),
            handle_index,
        ) == handle,
        mode_of(
            with_mode(with_handle(table, handle_index, handle), mode_index, mode),
            mode_index,
        ) == Some(mode),
        forall|i: u32|
            i != handle_index ==> handle_of(
                with_mode(with_handle(table, handle_index, handle), mode_index, mode),
                i,
            ) == handle_of(table, i),
        forall|i: u32|
            i != mode_index ==> mode_of(
                with_mode(with_handle(table, handle_index, handle), mode_index, mode),
                i,
            ) == mode_of(table, i),
{
    let one = with_mode(with_handle(table, handle_index, handle), mode_index, mode);
    let other = with_handle(with_mode(table, mode_index, mode), handle_index, handle);
    assert(one =~= other);
}

/// Whether a monitor object can be recorded for a connector: the connector
/// must be below the maximum, and the handle must not be null. The connector
/// is looked at first.
pub open spec fn set_handle_result(index: u32, handle: MonitorHandle) -> Result<(), ContextError> {
    if index >= MAX_MONITORS {
        Err(ContextError::Other(Unavailable::Connector))
    } else if handle.is_null_spec() {
        Err(ContextError::Other(Unavailable::MonitorObject))
    } else {
        Ok(())
    }
}

/// Whether a mode can be recorded for a connector: the connector must be
/// below the maximum.
pub open spec fn set_mode_result(index: u32) -> Result<(), ContextError> {
    if index >= MAX_MONITORS {
        Err(ContextError::Other(Unavailable::Connector))
    } else {
        Ok(())
    }
}

} // verus!
