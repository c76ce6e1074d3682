use vstd::prelude::*;

use crate::abi::CoreId;
use crate::multicore::error::CoreError;
use crate::multicore::local::CoreLocal;
use crate::multicore::role::CoreRole;

verus! {

/// Size, capacity and epoch of a registry.
#[derive(Clone, Copy, Debug, PartialEq, Eq, Structural)]
pub struct CoreRegistryStatus {
    pub owner_core: CoreId,
    pub len: usize,
    pub capacity: usize,
    pub epoch: u64,
}

impl CoreRegistryStatus {
    pub fn owner_core(self) -> (r: CoreId)
        ensures
            r == self.owner_core,
    {
        self.owner_core
    }

    pub fn len(self) -> (r: usize)
        ensures
            r == self.len,
    {
        self.len
    }

    pub fn is_empty(self) -> (r: bool)
        ensures
            r == (self.len == 0),
    {
        self.len == 0
    }

    pub fn capacity(self) -> (r: usize)
        ensures
            r == self.capacity,
    {
        self.capacity
    }

    pub fn epoch(self) -> (r: u64)
        ensures
            r == self.epoch,
    {
        self.epoch
    }
}

/// Some registered core has id `core_id`.
pub open spec fn registered(entries: Seq<CoreLocal>, core_id: CoreId) -> bool {
    exists|i: int| 0 <= i < entries.len() && (#[trigger] entries[i]).spec_id() == core_id
}

/// The registered core with id `core_id`, if any.
pub open spec fn registered_local(entries: Seq<CoreLocal>, core_id: CoreId) -> Option<CoreLocal> {
    if registered(entries, core_id) {
        Some(entries[choose|i: int| 0 <= i < entries.len() && (#[trigger] entries[i]).spec_id() == core_id])
    } else {
        None
    }
}

/// Number of the first `n` cores that are live (booting or online).
pub open spec fn count_live(entries: Seq<CoreLocal>, n: int) -> nat
    decreases n,
{
    if n <= 0 {
        0
    } else {
        count_live(entries, n - 1) + if entries[n - 1].spec_state() is Booting
            || entries[n - 1].spec_state() is Online {
            1nat
        } else {
            0nat
        }
    }
}

/// A live count over a prefix is at most its length.
pub proof fn lemma_count_live_bound(entries: Seq<CoreLocal>, n: int)
    requires
        0 <= n,
    ensures
        count_live(entries, n) <= n,
    decreases n,
{
    if n > 0 {
        lemma_count_live_bound(entries, n - 1);
    }
}

/// Pushing a core leaves the live count of the old prefix unchanged.
proof fn lemma_count_live_push(entries: Seq<CoreLocal>, local: CoreLocal, n: int)
    requires
        0 <= n <= entries.len(),
    ensures
        count_live(entries.push(local), n) == count_live(entries, n),
    decreases n,
{
    if n > 0 {
        lemma_count_live_push(entries, local, n - 1);
    }
}

/// The cores known to one owner core, each at most once. Only the owner
/// inserts; each insertion advances the epoch.
#[derive(Debug, PartialEq, Eq)]
pub struct CoreRegistry<const CAPACITY: usize> {
    owner_core: CoreId,
    entries: Vec<CoreLocal>,
    epoch: u64,
}

impl<const CAPACITY: usize> CoreRegistry<CAPACITY> {
    pub closed spec fn spec_owner_core(&self) -> CoreId {
        self.owner_core
    }

    pub closed spec fn spec_entries(&self) -> Seq<CoreLocal> {
        self.entries@
    }

    pub closed spec fn spec_epoch(&self) -> u64 {
        self.epoch
    }

    /// At most `CAPACITY` cores and no core id twice.
    pub open spec fn wf(&self) -> bool {
        let entries = self.spec_entries();
        &&& entries.len() <= CAPACITY
        &&& forall|i: int, j: int|
            0 <= i < entries.len() && 0 <= j < entries.len() && i != j ==> (#[trigger] entries[i]).spec_id()
                != (#[trigger] entries[j]).spec_id()
    }

    /// An empty registry owned by `owner_core`.
    pub fn new(owner_core: CoreId) -> (r: Result<Self, CoreError>)
        ensures
            CAPACITY == 0 ==> r == Err::<Self, CoreError>(CoreError::CapacityZero),
            CAPACITY != 0 ==> (r matches Ok(reg) && reg.wf() && reg.spec_owner_core() == owner_core
                && reg.spec_entries().len() == 0 && reg.spec_epoch() == 0),
    {
        if CAPACITY == 0 {
            return Err(CoreError::CapacityZero);
        }
        Ok(CoreRegistry { owner_core, entries: Vec::new(), epoch: 0 })
    }

    /// The same registry at another epoch.
    pub fn with_epoch_for_test(self, epoch: u64) -> (r: Self)
        ensures
            r.spec_owner_core() == self.spec_owner_core(),
            r.spec_entries() == self.spec_entries(),
            r.spec_epoch() == epoch,
    {
        CoreRegistry { owner_core: self.owner_core, entries: self.entries, epoch }
    }

    pub fn owner_core(&self) -> (r: CoreId)
        ensures
            r == self.spec_owner_core(),
    {
        self.owner_core
    }

    /// Registers `local`; the checks come in the order owner, capacity,
    /// duplicate, epoch, and a failed one changes nothing.
    pub fn insert(&mut self, caller: CoreId, local: CoreLocal) -> (r: Result<(), CoreError>)
        requires
            old(self).wf(),
        ensures
            final(self).wf(),
            r is Err ==> *final(self) == *old(self),
            caller != old(self).spec_owner_core() ==> r == Err::<(), CoreError>(CoreError::OwnerMismatch),
            caller == old(self).spec_owner_core() ==> if old(self).spec_entries().len() == CAPACITY {
                r == Err::<(), CoreError>(CoreError::RegistryFull)
            } else if registered(old(self).spec_entries(), local.spec_id()) {
                r == Err::<(), CoreError>(CoreError::DuplicateCore)
            } else if old(self).spec_epoch() == u64::MAX {
                r == Err::<(), CoreError>(CoreError::TelemetryOverflow)
            } else {
                &&& r is Ok
                &&& final(self).spec_entries() == old(self).spec_entries().push(local)
                &&& final(self).spec_epoch() == old(self).spec_epoch() + 1
                &&& final(self).spec_owner_core() == old(self).spec_owner_core()
            },
    {
        if caller != self.owner_core {
            return Err(CoreError::OwnerMismatch);
        }
        if self.entries.len() == CAPACITY {
            return Err(CoreError::RegistryFull);
        }
        if self.contains(local.id()) {
            return Err(CoreError::DuplicateCore);
        }
        let next_epoch = match self.epoch.checked_add(1) {
            Some(epoch) => epoch,
            None => return Err(CoreError::TelemetryOverflow),
        };
        let ghost before = self.entries@;
        self.entries.push(local);
        self.epoch = next_epoch;
        proof {
            let entries = self.entries@;
            assert forall|i: int, j: int|
                0 <= i < entries.len() && 0 <= j < entries.len() && i != j implies (#[trigger] entries[i]).spec_id()
                    != (#[trigger] entries[j]).spec_id() by {
                if i < before.len() && j < before.len() {
                    assert(before[i].spec_id() != before[j].spec_id());
                } else if i < before.len() {
                    assert(before[i].spec_id() != local.spec_id());
                } else {
                    assert(before[j].spec_id() != local.spec_id());
                }
            }
        }
        Ok(())
    }

    /// Whether `core_id` is registered.
    pub fn contains(&self, core_id: CoreId) -> (r: bool)
        requires
            self.wf(),
        ensures
            r == registered(self.spec_entries(), core_id),
    {
        self.get(core_id).is_some()
    }

    /// The registered core with id `core_id`, if any.
    pub fn get(&self, core_id: CoreId) -> (r: Option<CoreLocal>)
        requires
            self.wf(),
        ensures
            r == registered_local(self.spec_entries(), core_id),
    {
        let mut index: usize = 0;
        while index < self.entries.len()
            invariant
                self.wf(),
                index <= self.entries@.len(),
                forall|j: int| 0 <= j < index ==> (#[trigger] self.entries@[j]).spec_id() != core_id,
            decreases self.entries@.len() - index,
        {
            let local = self.entries[index];
            if local.id() == core_id {
                proof {
                    let entries = self.spec_entries();
                    assert(entries[index as int].spec_id() == core_id);
                    assert(registered(entries, core_id));
                    let k = choose|i: int| 0 <= i < entries.len() && (#[trigger] entries[i]).spec_id() == core_id;
                    if k != index as int {
                        assert(entries[k].spec_id() != entries[index as int].spec_id());
                    }
                }
                return Some(local);
            }
            index += 1;
        }
        None
    }

    /// The registered core `core_id` when it holds `role`.
    pub fn require_role(&self, core_id: CoreId, role: CoreRole) -> (r: Result<CoreLocal, CoreError>)
        requires
            self.wf(),
        ensures
            match registered_local(self.spec_entries(), core_id) {
                None => r == Err::<CoreLocal, CoreError>(CoreError::UnknownCore),
                Some(local) => if local.spec_role() != role {
                    r == Err::<CoreLocal, CoreError>(CoreError::RoleMismatch)
                } else {
                    r == Ok::<CoreLocal, CoreError>(local)
                },
            },
    {
        let local = match self.get(core_id) {
            Some(local) => local,
            None => return Err(CoreError::UnknownCore),
        };
        if local.role() != role {
            return Err(CoreError::RoleMismatch);
        }
        Ok(local)
    }

    /// Number of registered cores that are booting or online.
    pub fn live_count(&self) -> (r: usize)
        ensures
            r == count_live(self.spec_entries(), self.spec_entries().len() as int),
    {
        let mut count: usize = 0;
        let mut index: usize = 0;
        while index < self.entries.len()
            invariant
                index <= self.entries@.len(),
                count == count_live(self.entries@, index as int),
            decreases self.entries@.len() - index,
        {
            proof {
                lemma_count_live_bound(self.entries@, index as int);
            }
            if self.entries[index].is_live() {
                count += 1;
            }
            index += 1;
        }
        count
    }

    /// Owner, size, capacity and epoch.
    pub fn status(&self) -> (r: CoreRegistryStatus)
        ensures
            r.owner_core == self.spec_owner_core(),
            r.len == self.spec_entries().len(),
            r.capacity == CAPACITY,
            r.epoch == self.spec_epoch(),
    {
        CoreRegistryStatus {
            owner_core: self.owner_core,
            len: self.entries.len(),
            capacity: CAPACITY,
            epoch: self.epoch,
        }
    }
}

/// Inserting a live core adds one to the live count; any other insertion
/// leaves it unchanged.
pub proof fn lemma_insert_live_count(entries: Seq<CoreLocal>, local: CoreLocal)
    ensures
        count_live(entries.push(local), entries.len() + 1int) == count_live(entries, entries.len() as int)
            + if local.spec_state() is Booting || local.spec_state() is Online {
            1int
        } else {
            0int
        },
{
    lemma_count_live_push(entries, local, entries.len() as int);
}

} // verus!
