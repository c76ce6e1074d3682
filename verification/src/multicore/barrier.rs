use vstd::prelude::*;

use crate::abi::CoreId;
use crate::multicore::error::CoreError;

verus! {

/// Participants, arrivals and seal of a boot barrier.
#[derive(Clone, Copy, Debug, PartialEq, Eq, Structural)]
pub struct BootBarrierStatus {
    pub owner_core: CoreId,
    pub participants: usize,
    pub arrivals: usize,
    pub sealed: bool,
}

impl BootBarrierStatus {
    pub fn owner_core(self) -> (r: CoreId)
        ensures
            r == self.owner_core,
    {
        self.owner_core
    }

    pub fn participants(self) -> (r: usize)
        ensures
            r == self.participants,
    {
        self.participants
    }

    pub fn is_empty(self) -> (r: bool)
        ensures
            r == (self.participants == 0),
    {
        self.participants == 0
    }

    pub fn arrivals(self) -> (r: usize)
        ensures
            r == self.arrivals,
    {
        self.arrivals
    }

    pub fn sealed(self) -> (r: bool)
        ensures
            r == self.sealed,
    {
        self.sealed
    }

    /// Sealed, and every participant has arrived.
    pub fn all_arrived(self) -> (r: bool)
        ensures
            r == (self.sealed && self.participants == self.arrivals),
    {
        self.sealed && self.participants == self.arrivals
    }
}

/// Number of `true` flags among the first `n`.
pub open spec fn count_true(flags: Seq<bool>, n: int) -> nat
    decreases n,
{
    if n <= 0 {
        0
    } else {
        count_true(flags, n - 1) + if flags[n - 1] {
            1nat
        } else {
            0nat
        }
    }
}

/// The count over a prefix is at most its length, and equals it exactly
/// when every flag of the prefix is set.
pub proof fn lemma_count_true_full(flags: Seq<bool>, n: int)
    requires
        0 <= n <= flags.len(),
    ensures
        count_true(flags, n) <= n,
        count_true(flags, n) == n <==> (forall|i: int| 0 <= i < n ==> #[trigger] flags[i]),
    decreases n,
{
    if n > 0 {
        lemma_count_true_full(flags, n - 1);
    }
}

/// Setting one unset flag adds one to every count that covers it.
proof fn lemma_count_true_set(flags: Seq<bool>, index: int, n: int)
    requires
        0 <= index < flags.len(),
        !flags[index],
        0 <= n <= flags.len(),
    ensures
        count_true(flags.update(index, true), n) == count_true(flags, n) + if index < n {
            1int
        } else {
            0int
        },
    decreases n,
{
    if n > 0 {
        lemma_count_true_set(flags, index, n - 1);
    }
}

/// Appending a flag leaves the count over the old prefix unchanged.
proof fn lemma_count_true_push(flags: Seq<bool>, flag: bool, n: int)
    requires
        0 <= n <= flags.len(),
    ensures
        count_true(flags.push(flag), n) == count_true(flags, n),
    decreases n,
{
    if n > 0 {
        lemma_count_true_push(flags, flag, n - 1);
    }
}

/// Some participant is `core_id`.
pub open spec fn is_participant(participants: Seq<CoreId>, core_id: CoreId) -> bool {
    exists|i: int| 0 <= i < participants.len() && participants[i] == core_id
}

/// The position of participant `core_id`.
pub open spec fn participant_index(participants: Seq<CoreId>, core_id: CoreId) -> int {
    choose|i: int| 0 <= i < participants.len() && participants[i] == core_id
}

/// A barrier that the owner core fills with participants and seals; after
/// the seal each participant arrives once.
#[derive(Debug, PartialEq, Eq)]
pub struct BootBarrier<const CAPACITY: usize> {
    owner_core: CoreId,
    participants: Vec<CoreId>,
    arrived: Vec<bool>,
    arrivals: usize,
    sealed: bool,
}

impl<const CAPACITY: usize> BootBarrier<CAPACITY> {
    pub closed spec fn spec_owner_core(&self) -> CoreId {
        self.owner_core
    }

    pub closed spec fn spec_participants(&self) -> Seq<CoreId> {
        self.participants@
    }

    pub closed spec fn spec_arrived(&self) -> Seq<bool> {
        self.arrived@
    }

    pub closed spec fn spec_arrivals(&self) -> usize {
        self.arrivals
    }

    pub closed spec fn spec_sealed(&self) -> bool {
        self.sealed
    }

    /// One arrival flag per participant, no participant twice, the arrival
    /// count is the number of set flags, nobody arrives before the seal and
    /// a sealed barrier is not empty.
    pub open spec fn wf(&self) -> bool {
        let parts = self.spec_participants();
        let arrived = self.spec_arrived();
        &&& parts.len() <= CAPACITY
        &&& arrived.len() == parts.len()
        &&& forall|i: int, j: int|
            0 <= i < parts.len() && 0 <= j < parts.len() && i != j ==> parts[i] != parts[j]
        &&& self.spec_arrivals() == count_true(arrived, arrived.len() as int)
        &&& !self.spec_sealed() ==> self.spec_arrivals() == 0
        &&& self.spec_sealed() ==> parts.len() > 0
    }

    /// An empty, unsealed barrier owned by `owner_core`.
    pub fn new(owner_core: CoreId) -> (r: Result<Self, CoreError>)
        ensures
            CAPACITY == 0 ==> r == Err::<Self, CoreError>(CoreError::CapacityZero),
            CAPACITY != 0 ==> (r matches Ok(b) && b.wf() && b.spec_owner_core() == owner_core
                && b.spec_participants().len() == 0 && !b.spec_sealed()),
    {
        if CAPACITY == 0 {
            return Err(CoreError::CapacityZero);
        }
        let barrier = BootBarrier {
            owner_core,
            participants: Vec::new(),
            arrived: Vec::new(),
            arrivals: 0,
            sealed: false,
        };
        proof {
            assert(barrier.arrived@.len() == 0);
        }
        Ok(barrier)
    }

    fn index_of(&self, core_id: CoreId) -> (r: Option<usize>)
        requires
            self.wf(),
        ensures
            match r {
                Some(i) => i < self.spec_participants().len() && self.spec_participants()[i as int]
                    == core_id && is_participant(self.spec_participants(), core_id) && participant_index(
                    self.spec_participants(),
                    core_id,
                ) == i,
                None => !is_participant(self.spec_participants(), core_id),
            },
    {
        let mut index: usize = 0;
        while index < self.participants.len()
            invariant
                self.wf(),
                index <= self.participants@.len(),
                forall|j: int| 0 <= j < index ==> self.participants@[j] != core_id,
            decreases self.participants@.len() - index,
        {
            if self.participants[index] == core_id {
                proof {
                    let parts = self.spec_participants();
                    assert(parts[index as int] == core_id);
                    assert(is_participant(parts, core_id));
                    let k = participant_index(parts, core_id);
                    if k != index as int {
                        assert(parts[k] != parts[index as int]);
                    }
                }
                return Some(index);
            }
            index += 1;
        }
        None
    }

    /// Adds `core_id` before the seal; the checks come in the order owner,
    /// seal, capacity, duplicate, and a failed one changes nothing.
    pub fn add_participant(&mut self, caller: CoreId, core_id: CoreId) -> (r: Result<(), CoreError>)
        requires
            old(self).wf(),
        ensures
            final(self).wf(),
            r is Err ==> *final(self) == *old(self),
            caller != old(self).spec_owner_core() ==> r == Err::<(), CoreError>(CoreError::OwnerMismatch),
            caller == old(self).spec_owner_core() ==> if old(self).spec_sealed() {
                r == Err::<(), CoreError>(CoreError::BarrierSealed)
            } else if old(self).spec_participants().len() == CAPACITY {
                r == Err::<(), CoreError>(CoreError::RegistryFull)
            } else if is_participant(old(self).spec_participants(), core_id) {
                r == Err::<(), CoreError>(CoreError::DuplicateCore)
            } else {
                &&& r is Ok
                &&& final(self).spec_participants() == old(self).spec_participants().push(core_id)
                &&& final(self).spec_arrived() == old(self).spec_arrived().push(false)
                &&& final(self).spec_arrivals() == old(self).spec_arrivals()
                &&& final(self).spec_sealed() == old(self).spec_sealed()
                &&& final(self).spec_owner_core() == old(self).spec_owner_core()
            },
    {
        if caller != self.owner_core {
            return Err(CoreError::OwnerMismatch);
        }
        if self.sealed {
            return Err(CoreError::BarrierSealed);
        }
        if self.participants.len() == CAPACITY {
            return Err(CoreError::RegistryFull);
        }
        if self.index_of(core_id).is_some() {
            return Err(CoreError::DuplicateCore);
        }
        let ghost parts_before = self.participants@;
        let ghost arrived_before = self.arrived@;
        self.participants.push(core_id);
        self.arrived.push(false);
        proof {
            let parts = self.participants@;
            assert forall|i: int, j: int|
                0 <= i < parts.len() && 0 <= j < parts.len() && i != j implies parts[i] != parts[j] by {
                if i < parts_before.len() && j < parts_before.len() {
                    assert(parts_before[i] != parts_before[j]);
                } else if i < parts_before.len() {
                    assert(parts_before[i] != core_id);
                } else {
                    assert(parts_before[j] != core_id);
                }
            }
            lemma_count_true_push(arrived_before, false, arrived_before.len() as int);
        }
        Ok(())
    }

    /// Seals a non-empty barrier; no participant can be added afterwards.
    pub fn seal(&mut self, caller: CoreId) -> (r: Result<(), CoreError>)
        requires
            old(self).wf(),
        ensures
            final(self).wf(),
            r is Err ==> *final(self) == *old(self),
            caller != old(self).spec_owner_core() ==> r == Err::<(), CoreError>(CoreError::OwnerMismatch),
            caller == old(self).spec_owner_core() ==> if old(self).spec_sealed() {
                r == Err::<(), CoreError>(CoreError::BarrierSealed)
            } else if old(self).spec_participants().len() == 0 {
                r == Err::<(), CoreError>(CoreError::UnknownCore)
            } else {
                &&& r is Ok
                &&& final(self).spec_sealed()
                &&& final(self).spec_participants() == old(self).spec_participants()
                &&& final(self).spec_arrived() == old(self).spec_arrived()
                &&& final(self).spec_arrivals() == old(self).spec_arrivals()
                &&& final(self).spec_owner_core() == old(self).spec_owner_core()
            },
    {
        if caller != self.owner_core {
            return Err(CoreError::OwnerMismatch);
        }
        if self.sealed {
            return Err(CoreError::BarrierSealed);
        }
        if self.participants.len() == 0 {
            return Err(CoreError::UnknownCore);
        }
        self.sealed = true;
        Ok(())
    }

    /// Records the arrival of participant `core_id` after the seal; each
    /// participant arrives once, and a failed arrival changes nothing.
    pub fn arrive(&mut self, core_id: CoreId) -> (r: Result<(), CoreError>)
        requires
            old(self).wf(),
        ensures
            final(self).wf(),
            r is Err ==> *final(self) == *old(self),
            if !old(self).spec_sealed() {
                r == Err::<(), CoreError>(CoreError::BarrierNotSealed)
            } else if !is_participant(old(self).spec_participants(), core_id) {
                r == Err::<(), CoreError>(CoreError::UnknownCore)
            } else if old(self).spec_arrived()[participant_index(
                old(self).spec_participants(),
                core_id,
            )] {
                r == Err::<(), CoreError>(CoreError::AlreadyArrived)
            } else {
                &&& r is Ok
                &&& final(self).spec_arrived() == old(self).spec_arrived().update(
                    participant_index(old(self).spec_participants(), core_id),
                    true,
                )
                &&& final(self).spec_arrivals() == old(self).spec_arrivals() + 1
                &&& final(self).spec_participants() == old(self).spec_participants()
                &&& final(self).spec_sealed()
                &&& final(self).spec_owner_core() == old(self).spec_owner_core()
            },
    {
        if !self.sealed {
            return Err(CoreError::BarrierNotSealed);
        }
        let index = match self.index_of(core_id) {
            Some(index) => index,
            None => return Err(CoreError::UnknownCore),
        };
        if self.arrived[index] {
            return Err(CoreError::AlreadyArrived);
        }
        let ghost arrived_before = self.arrived@;
        proof {
            lemma_count_true_full(arrived_before, arrived_before.len() as int);
            lemma_count_true_set(arrived_before, index as int, arrived_before.len() as int);
            lemma_count_true_full(
                arrived_before.update(index as int, true),
                arrived_before.len() as int,
            );
        }
        self.arrived.set(index, true);
        self.arrivals = self.arrivals + 1;
        Ok(())
    }

    /// Owner, participant and arrival counts, and the seal.
    pub fn status(&self) -> (r: BootBarrierStatus)
        ensures
            r.owner_core == self.spec_owner_core(),
            r.participants == self.spec_participants().len(),
            r.arrivals == self.spec_arrivals(),
            r.sealed == self.spec_sealed(),
    {
        BootBarrierStatus {
            owner_core: self.owner_core,
            participants: self.participants.len(),
            arrivals: self.arrivals,
            sealed: self.sealed,
        }
    }
}

/// The barrier reports that all have arrived exactly when it is sealed and
/// every participant has arrived.
pub proof fn lemma_all_arrived_iff_every_participant<const CAPACITY: usize>(
    barrier: BootBarrier<CAPACITY>,
)
    requires
        barrier.wf(),
    ensures
        (barrier.spec_sealed() && barrier.spec_participants().len() == barrier.spec_arrivals()) <==> (
        barrier.spec_sealed() && forall|i: int|
            0 <= i < barrier.spec_participants().len() ==> #[trigger] barrier.spec_arrived()[i]),
{
    lemma_count_true_full(barrier.spec_arrived(), barrier.spec_arrived().len() as int);
}

} // verus!
