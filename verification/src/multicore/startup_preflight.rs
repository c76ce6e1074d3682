use vstd::prelude::*;

use crate::abi::{CoreId, CpuHardwareId, VirtAddr};
use crate::multicore::error::CoreError;
use crate::multicore::local::CoreState;
use crate::multicore::topology::{CoreHardwareState, CoreTopologyEntry};

verus! {

/// Smallest stack an application processor may be given.
pub const MIN_AP_STACK_BYTES: u64 = 32768;

const PAGE_SIZE: u64 = 4096;

/// `value` is a multiple of the page size.
pub open spec fn page_aligned(value: u64) -> bool {
    value % 4096 == 0
}

/// Whether an application processor has descriptor tables of its own.
#[derive(Clone, Copy, Debug, PartialEq, Eq, Structural)]
pub enum ApDescriptorTableReadiness {
    SharedBootstrapOnly,
    PerCoreReady,
}

impl ApDescriptorTableReadiness {
    pub fn is_per_core_ready(self) -> (r: bool)
        ensures
            r == self is PerCoreReady,
    {
        match self {
            ApDescriptorTableReadiness::PerCoreReady => true,
            _ => false,
        }
    }
}

/// The virtual range reserved for application-processor stacks.
#[derive(Clone, Copy, PartialEq, Eq, Structural)]
pub struct ApStackRegion {
    start: VirtAddr,
    end: VirtAddr,
}

impl ApStackRegion {
    pub closed spec fn spec_start(self) -> u64 {
        self.start.0
    }

    pub closed spec fn spec_end(self) -> u64 {
        self.end.0
    }

    /// A region from `start` up to `end`: non-empty and page aligned at both
    /// ends.
    pub fn new(start: VirtAddr, end: VirtAddr) -> (r: Result<Self, CoreError>)
        ensures
            (start.0 < end.0 && page_aligned(start.0) && page_aligned(end.0)) ==> (r matches Ok(region)
                && region.spec_start() == start.0 && region.spec_end() == end.0),
            !(start.0 < end.0 && page_aligned(start.0) && page_aligned(end.0)) ==> r == Err::<
                Self,
                CoreError,
            >(CoreError::InvalidStartupStack),
    {
        if start.get() >= end.get() || !is_page_aligned(start.get()) || !is_page_aligned(end.get()) {
            return Err(CoreError::InvalidStartupStack);
        }
        Ok(ApStackRegion { start, end })
    }

    /// A region taken as given, without the checks of `new`.
    pub fn test_only(start: VirtAddr, end: VirtAddr) -> (r: Self)
        ensures
            r.spec_start() == start.0,
            r.spec_end() == end.0,
    {
        ApStackRegion { start, end }
    }

    pub fn start(self) -> (r: VirtAddr)
        ensures
            r.0 == self.spec_start(),
    {
        self.start
    }

    pub fn end(self) -> (r: VirtAddr)
        ensures
            r.0 == self.spec_end(),
    {
        self.end
    }

    fn contains_stack(self, stack_base: VirtAddr, stack_end: u64) -> (r: bool)
        ensures
            r == (stack_base.0 >= self.spec_start() && stack_end <= self.spec_end()),
    {
        stack_base.get() >= self.start.get() && stack_end <= self.end.get()
    }
}

/// A stack of `len` bytes at `base` is fit for an application processor in
/// `region`: large enough, page aligned, without overflow and inside the
/// region.
pub open spec fn stack_valid(base: u64, len: u64, region: ApStackRegion) -> bool {
    &&& len >= MIN_AP_STACK_BYTES
    &&& page_aligned(base)
    &&& page_aligned(len)
    &&& base + len <= u64::MAX
    &&& base >= region.spec_start()
    &&& base + len <= region.spec_end()
}

/// An accepted application-processor stack starts on a page boundary,
/// spans whole pages, holds at least the minimum stack of 32 KiB, and lies
/// inside its region without wrapping.
pub proof fn lemma_accepted_stack_is_whole_pages_in_region(base: u64, len: u64, region: ApStackRegion)
    requires
        stack_valid(base, len, region),
    ensures
        base % 4096 == 0,
        len % 4096 == 0,
        len >= 32768,
        region.spec_start() <= base,
        base + len <= region.spec_end(),
        base + len <= u64::MAX,
{
}

/// A planned application-processor stack.
#[derive(Clone, Copy, PartialEq, Eq, Structural)]
pub struct ApStackPlan {
    base: VirtAddr,
    len: u64,
    region: ApStackRegion,
}

impl ApStackPlan {
    pub closed spec fn spec_base(self) -> u64 {
        self.base.0
    }

    pub closed spec fn spec_len(self) -> u64 {
        self.len
    }

    pub closed spec fn spec_region(self) -> ApStackRegion {
        self.region
    }

    /// The plan is valid for its own region.
    pub open spec fn valid(self) -> bool {
        stack_valid(self.spec_base(), self.spec_len(), self.spec_region())
    }

    /// A stack plan that passes the stack checks.
    pub fn new(base: VirtAddr, len: u64, region: ApStackRegion) -> (r: Result<Self, CoreError>)
        ensures
            stack_valid(base.0, len, region) ==> (r matches Ok(plan) && plan.spec_base() == base.0
                && plan.spec_len() == len && plan.spec_region() == region),
            !stack_valid(base.0, len, region) ==> r == Err::<Self, CoreError>(
                CoreError::InvalidStartupStack,
            ),
            r matches Ok(plan) ==> plan.spec_base() % 4096 == 0 && plan.spec_len() % 4096 == 0
                && plan.spec_len() >= MIN_AP_STACK_BYTES && region.spec_start() <= plan.spec_base()
                && plan.spec_base() + plan.spec_len() <= region.spec_end(),
    {
        proof {
            if stack_valid(base.0, len, region) {
                lemma_accepted_stack_is_whole_pages_in_region(base.0, len, region);
            }
        }
        match validate_stack(base, len, region) {
            Ok(()) => Ok(ApStackPlan { base, len, region }),
            Err(_) => Err(CoreError::InvalidStartupStack),
        }
    }

    /// A plan taken as given, without the checks of `new`.
    pub fn test_only(base: VirtAddr, len: u64, region: ApStackRegion) -> (r: Self)
        ensures
            r.spec_base() == base.0,
            r.spec_len() == len,
            r.spec_region() == region,
    {
        ApStackPlan { base, len, region }
    }

    pub fn base(self) -> (r: VirtAddr)
        ensures
            r.0 == self.spec_base(),
    {
        self.base
    }

    pub fn byte_len(self) -> (r: u64)
        ensures
            r == self.spec_len(),
    {
        self.len
    }

    pub fn region(self) -> (r: ApStackRegion)
        ensures
            r == self.spec_region(),
    {
        self.region
    }

    fn end(self) -> (r: Result<u64, CoreError>)
        ensures
            self.spec_base() + self.spec_len() <= u64::MAX ==> r == Ok::<u64, CoreError>(
                (self.spec_base() + self.spec_len()) as u64,
            ),
            self.spec_base() + self.spec_len() > u64::MAX ==> r == Err::<u64, CoreError>(
                CoreError::InvalidStartupStack,
            ),
    {
        match self.base.get().checked_add(self.len) {
            Some(end) => Ok(end),
            None => Err(CoreError::InvalidStartupStack),
        }
    }
}

/// Everything an application processor needs before it may be started.
#[derive(Clone, Copy, PartialEq, Eq, Structural)]
pub struct ApStartupResource {
    pub core_id: CoreId,
    pub hardware_id: CpuHardwareId,
    pub stack: ApStackPlan,
    pub descriptor_tables: ApDescriptorTableReadiness,
    pub watchdog_ticks: u64,
}

impl ApStartupResource {
    pub open spec fn spec_core(self) -> CoreId {
        self.core_id
    }

    pub open spec fn spec_hardware_id(self) -> CpuHardwareId {
        self.hardware_id
    }

    pub open spec fn spec_stack(self) -> ApStackPlan {
        self.stack
    }

    pub open spec fn spec_descriptor_tables(self) -> ApDescriptorTableReadiness {
        self.descriptor_tables
    }

    pub open spec fn spec_watchdog_ticks(self) -> u64 {
        self.watchdog_ticks
    }

    /// Last address of the stack plus one, as an integer.
    pub open spec fn spec_stack_end(self) -> int {
        self.spec_stack().spec_base() + self.spec_stack().spec_len()
    }

    pub fn core_id(self) -> (r: CoreId)
        ensures
            r == self.spec_core(),
    {
        self.core_id
    }

    pub fn hardware_id(self) -> (r: CpuHardwareId)
        ensures
            r == self.spec_hardware_id(),
    {
        self.hardware_id
    }

    pub fn stack_base(self) -> (r: VirtAddr)
        ensures
            r.0 == self.spec_stack().spec_base(),
    {
        self.stack.base()
    }

    pub fn stack_len(self) -> (r: u64)
        ensures
            r == self.spec_stack().spec_len(),
    {
        self.stack.byte_len()
    }

    pub fn stack_region(self) -> (r: ApStackRegion)
        ensures
            r == self.spec_stack().spec_region(),
    {
        self.stack.region()
    }

    pub fn descriptor_tables(self) -> (r: ApDescriptorTableReadiness)
        ensures
            r == self.spec_descriptor_tables(),
    {
        self.descriptor_tables
    }

    pub fn watchdog_ticks(self) -> (r: u64)
        ensures
            r == self.spec_watchdog_ticks(),
    {
        self.watchdog_ticks
    }

    fn stack_end(self) -> (r: Result<u64, CoreError>)
        ensures
            self.spec_stack_end() <= u64::MAX ==> r == Ok::<u64, CoreError>(self.spec_stack_end() as u64),
            self.spec_stack_end() > u64::MAX ==> r == Err::<u64, CoreError>(
                CoreError::InvalidStartupStack,
            ),
    {
        self.stack.end()
    }
}

/// Counts over the planned resources.
#[derive(Clone, Copy, Debug, PartialEq, Eq, Structural)]
pub struct ApStartupPreflightStatus {
    pub owner_core: CoreId,
    pub planned: usize,
    pub stack_ready: usize,
    pub descriptor_ready: usize,
    pub watchdog_ready: usize,
    pub capacity: usize,
}

impl ApStartupPreflightStatus {
    pub fn owner_core(self) -> (r: CoreId)
        ensures
            r == self.owner_core,
    {
        self.owner_core
    }

    pub fn planned(self) -> (r: usize)
        ensures
            r == self.planned,
    {
        self.planned
    }

    pub fn stack_ready(self) -> (r: usize)
        ensures
            r == self.stack_ready,
    {
        self.stack_ready
    }

    pub fn descriptor_ready(self) -> (r: usize)
        ensures
            r == self.descriptor_ready,
    {
        self.descriptor_ready
    }

    pub fn watchdog_ready(self) -> (r: usize)
        ensures
            r == self.watchdog_ready,
    {
        self.watchdog_ready
    }

    pub fn capacity(self) -> (r: usize)
        ensures
            r == self.capacity,
    {
        self.capacity
    }

    /// Something is planned and every planned core is ready in every
    /// respect.
    pub open spec fn spec_execution_allowed(self) -> bool {
        &&& self.planned != 0
        &&& self.stack_ready == self.planned
        &&& self.descriptor_ready == self.planned
        &&& self.watchdog_ready == self.planned
    }

    #[verifier::when_used_as_spec(spec_execution_allowed)]
    pub fn execution_allowed(self) -> (r: bool)
        ensures
            r == self.spec_execution_allowed(),
    {
        self.planned != 0 && self.stack_ready == self.planned && self.descriptor_ready
            == self.planned && self.watchdog_ready == self.planned
    }
}

/// The resource's stack is valid.
pub open spec fn resource_stack_ready(r: ApStartupResource) -> bool {
    r.spec_stack().valid()
}

/// The resource has per-core descriptor tables.
pub open spec fn resource_descriptor_ready(r: ApStartupResource) -> bool {
    r.spec_descriptor_tables() is PerCoreReady
}

/// The resource has a startup watchdog.
pub open spec fn resource_watchdog_ready(r: ApStartupResource) -> bool {
    r.spec_watchdog_ticks() != 0
}

/// Number of the first `n` resources that satisfy `p`.
pub open spec fn count_resources(
    resources: Seq<ApStartupResource>,
    p: spec_fn(ApStartupResource) -> bool,
    n: int,
) -> nat
    decreases n,
{
    if n <= 0 {
        0
    } else {
        count_resources(resources, p, n - 1) + if p(resources[n - 1]) {
            1nat
        } else {
            0nat
        }
    }
}

/// A count over a prefix is at most its length, and equals it exactly when
/// every resource of the prefix satisfies `p`.
pub proof fn lemma_count_resources_full(
    resources: Seq<ApStartupResource>,
    p: spec_fn(ApStartupResource) -> bool,
    n: int,
)
    requires
        0 <= n <= resources.len(),
    ensures
        count_resources(resources, p, n) <= n,
        count_resources(resources, p, n) == n <==> (forall|i: int| 0 <= i < n ==> p(#[trigger] resources[i])),
    decreases n,
{
    if n > 0 {
        lemma_count_resources_full(resources, p, n - 1);
    }
}

/// The stacks of `a` and `b` overlap.
pub open spec fn stacks_overlap(a: ApStartupResource, b: ApStartupResource) -> bool {
    a.spec_stack().spec_base() < b.spec_stack_end() && b.spec_stack().spec_base() < a.spec_stack_end()
}

/// The error that an existing resource raises against a new one, if any:
/// the same core, the same hardware thread, or an overlapping stack, in that
/// order.
pub open spec fn resource_conflict(existing: ApStartupResource, resource: ApStartupResource) -> Option<
    CoreError,
> {
    if existing.spec_core() == resource.spec_core() {
        Some(CoreError::DuplicateCore)
    } else if existing.spec_hardware_id() == resource.spec_hardware_id() {
        Some(CoreError::DuplicateHardwareId)
    } else if stacks_overlap(existing, resource) {
        Some(CoreError::DuplicateStartupStack)
    } else {
        None
    }
}

/// The conflict raised by the first resource from index `i` on that raises
/// one.
pub open spec fn first_conflict(resources: Seq<ApStartupResource>, resource: ApStartupResource, i: int) -> Option<
    CoreError,
>
    decreases resources.len() - i,
{
    if i < 0 || i >= resources.len() {
        None
    } else {
        match resource_conflict(resources[i], resource) {
            Some(error) => Some(error),
            None => first_conflict(resources, resource, i + 1),
        }
    }
}

/// Some planned resource is for `core_id`.
pub open spec fn has_resource(resources: Seq<ApStartupResource>, core_id: CoreId) -> bool {
    exists|i: int| 0 <= i < resources.len() && (#[trigger] resources[i]).spec_core() == core_id
}

/// The planned resource for `core_id`, if any.
pub open spec fn resource_of(resources: Seq<ApStartupResource>, core_id: CoreId) -> Option<
    ApStartupResource,
> {
    if has_resource(resources, core_id) {
        Some(
            resources[choose|i: int|
                0 <= i < resources.len() && (#[trigger] resources[i]).spec_core() == core_id],
        )
    } else {
        None
    }
}

/// At most `capacity` resources; no core, hardware thread or stack range
/// shared by two of them; every stack end fits in 64 bits and every
/// watchdog is armed.
pub open spec fn resources_wf(resources: Seq<ApStartupResource>, capacity: usize) -> bool {
    &&& resources.len() <= capacity
    &&& forall|i: int| 0 <= i < resources.len() ==> (#[trigger] resources[i]).spec_stack_end() <= u64::MAX
    &&& forall|i: int| 0 <= i < resources.len() ==> resource_watchdog_ready(#[trigger] resources[i])
    &&& forall|i: int, j: int|
        0 <= i < resources.len() && 0 <= j < resources.len() && i != j ==> resource_conflict(
            #[trigger] resources[i],
            #[trigger] resources[j],
        ) is None
}

/// Planned resources are for distinct cores and distinct hardware threads,
/// and no two of their stacks share a byte.
pub proof fn lemma_planned_resources_disjoint(resources: Seq<ApStartupResource>, capacity: usize)
    requires
        resources_wf(resources, capacity),
    ensures
        forall|i: int, j: int|
            0 <= i < resources.len() && 0 <= j < resources.len() && i != j ==> {
                &&& (#[trigger] resources[i]).spec_core() != (#[trigger] resources[j]).spec_core()
                &&& resources[i].spec_hardware_id() != resources[j].spec_hardware_id()
                &&& (resources[i].spec_stack_end() <= resources[j].spec_stack().spec_base()
                    || resources[j].spec_stack_end() <= resources[i].spec_stack().spec_base())
            },
{
    assert forall|i: int, j: int|
        0 <= i < resources.len() && 0 <= j < resources.len() && i != j implies {
            &&& (#[trigger] resources[i]).spec_core() != (#[trigger] resources[j]).spec_core()
            &&& resources[i].spec_hardware_id() != resources[j].spec_hardware_id()
            &&& (resources[i].spec_stack_end() <= resources[j].spec_stack().spec_base()
                || resources[j].spec_stack_end() <= resources[i].spec_stack().spec_base())
        } by {
        assert(resource_conflict(resources[i], resources[j]) is None);
    }
}

/// Finds the planned resource for `core_id`.
fn find_resource(resources: &Vec<ApStartupResource>, core_id: CoreId) -> (r: Option<ApStartupResource>)
    requires
        forall|i: int, j: int|
            0 <= i < resources.len() && 0 <= j < resources.len() && i != j ==> resource_conflict(
                #[trigger] resources@[i],
                #[trigger] resources@[j],
            ) is None,
    ensures
        r == resource_of(resources@, core_id),
{
    let mut index: usize = 0;
    while index < resources.len()
        invariant
            forall|i: int, j: int|
                0 <= i < resources.len() && 0 <= j < resources.len() && i != j ==> resource_conflict(
                    #[trigger] resources@[i],
                    #[trigger] resources@[j],
                ) is None,
            index <= resources@.len(),
            forall|j: int| 0 <= j < index ==> (#[trigger] resources@[j]).spec_core() != core_id,
        decreases resources@.len() - index,
    {
        let resource = resources[index];
        if resource.core_id == core_id {
            proof {
                let s = resources@;
                assert(s[index as int].spec_core() == core_id);
                assert(has_resource(s, core_id));
                let k = choose|i: int| 0 <= i < s.len() && (#[trigger] s[i]).spec_core() == core_id;
                if k != index as int {
                    assert(resource_conflict(s[k], s[index as int]) is None);
                }
            }
            return Some(resource);
        }
        index += 1;
    }
    None
}

/// The resources planned for application-processor startup, owned by one
/// core. Execution is allowed only once every planned core has a valid
/// stack, per-core descriptor tables and a watchdog.
#[derive(PartialEq, Eq)]
pub struct ApStartupPreflight<const CAPACITY: usize> {
    owner_core: CoreId,
    resources: Vec<ApStartupResource>,
}

/// Proof that preflight passed: the resources, frozen for dispatch.
pub struct ApStartupDispatchToken<const CAPACITY: usize> {
    owner_core: CoreId,
    resources: Vec<ApStartupResource>,
}

impl<const CAPACITY: usize> ApStartupDispatchToken<CAPACITY> {
    pub closed spec fn spec_owner_core(&self) -> CoreId {
        self.owner_core
    }

    pub closed spec fn spec_resources(&self) -> Seq<ApStartupResource> {
        self.resources@
    }

    pub open spec fn wf(&self) -> bool {
        resources_wf(self.spec_resources(), CAPACITY)
    }

    pub fn owner_core(&self) -> (r: CoreId)
        ensures
            r == self.spec_owner_core(),
    {
        self.owner_core
    }

    pub fn planned(&self) -> (r: usize)
        ensures
            r == self.spec_resources().len(),
    {
        self.resources.len()
    }

    pub fn capacity(&self) -> (r: usize)
        ensures
            r == CAPACITY,
    {
        CAPACITY
    }

    /// The dispatched resource for `core_id`, if any.
    pub fn resource(&self, core_id: CoreId) -> (r: Option<ApStartupResource>)
        requires
            self.wf(),
        ensures
            r == resource_of(self.spec_resources(), core_id),
    {
        find_resource(&self.resources, core_id)
    }
}

impl<const CAPACITY: usize> ApStartupPreflight<CAPACITY> {
    pub closed spec fn spec_owner_core(&self) -> CoreId {
        self.owner_core
    }

    pub closed spec fn spec_resources(&self) -> Seq<ApStartupResource> {
        self.resources@
    }

    pub open spec fn wf(&self) -> bool {
        resources_wf(self.spec_resources(), CAPACITY)
    }

    /// The status that the planned resources give.
    pub open spec fn spec_status(&self) -> ApStartupPreflightStatus {
        let s = self.spec_resources();
        let n = s.len() as int;
        ApStartupPreflightStatus {
            owner_core: self.spec_owner_core(),
            planned: s.len() as usize,
            stack_ready: count_resources(s, |r: ApStartupResource| resource_stack_ready(r), n) as usize,
            descriptor_ready: count_resources(
                s,
                |r: ApStartupResource| resource_descriptor_ready(r),
                n,
            ) as usize,
            watchdog_ready: count_resources(s, |r: ApStartupResource| resource_watchdog_ready(r), n) as usize,
            capacity: CAPACITY,
        }
    }

    /// An empty preflight owned by `owner_core`.
    pub fn new(owner_core: CoreId) -> (r: Result<Self, CoreError>)
        ensures
            CAPACITY == 0 ==> r == Err::<Self, CoreError>(CoreError::CapacityZero),
            CAPACITY != 0 ==> (r matches Ok(p) && p.wf() && p.spec_owner_core() == owner_core
                && p.spec_resources().len() == 0),
    {
        if CAPACITY == 0 {
            return Err(CoreError::CapacityZero);
        }
        Ok(ApStartupPreflight { owner_core, resources: Vec::new() })
    }

    /// Plans the startup of a staged, booting core. The checks come in the
    /// order owner, capacity, state, watchdog, stack end, then the first
    /// planned resource that shares the core, the hardware thread or the
    /// stack range; a failed one changes nothing.
    pub fn add_staged_core(
        &mut self,
        caller: CoreId,
        entry: CoreTopologyEntry,
        stack: ApStackPlan,
        descriptor_tables: ApDescriptorTableReadiness,
        watchdog_ticks: u64,
    ) -> (r: Result<(), CoreError>)
        requires
            old(self).wf(),
        ensures
            final(self).wf(),
            r is Err ==> *final(self) == *old(self),
            ({
                let resource = ApStartupResource {
                    core_id: entry.spec_core(),
                    hardware_id: entry.spec_hardware_id(),
                    stack,
                    descriptor_tables,
                    watchdog_ticks,
                };
                if caller != old(self).spec_owner_core() {
                    r == Err::<(), CoreError>(CoreError::OwnerMismatch)
                } else if old(self).spec_resources().len() == CAPACITY {
                    r == Err::<(), CoreError>(CoreError::RegistryFull)
                } else if !(entry.spec_hardware_state() is StartupStaged
                    && entry.spec_local().spec_state() is Booting) {
                    r == Err::<(), CoreError>(CoreError::InvalidStateTransition)
                } else if watchdog_ticks == 0 {
                    r == Err::<(), CoreError>(CoreError::MissingStartupWatchdog)
                } else if resource.spec_stack_end() > u64::MAX {
                    r == Err::<(), CoreError>(CoreError::InvalidStartupStack)
                } else if first_conflict(old(self).spec_resources(), resource, 0) is Some {
                    r == Err::<(), CoreError>(
                        first_conflict(old(self).spec_resources(), resource, 0).unwrap(),
                    )
                } else {
                    &&& r is Ok
                    &&& final(self).spec_resources() == old(self).spec_resources().push(resource)
                    &&& final(self).spec_owner_core() == old(self).spec_owner_core()
                }
            }),
    {
        if caller != self.owner_core {
            return Err(CoreError::OwnerMismatch);
        }
        if self.resources.len() == CAPACITY {
            return Err(CoreError::RegistryFull);
        }
        if entry.hardware_state() != CoreHardwareState::StartupStaged || entry.local_state()
            != CoreState::Booting {
            return Err(CoreError::InvalidStateTransition);
        }
        if watchdog_ticks == 0 {
            return Err(CoreError::MissingStartupWatchdog);
        }
        let resource = ApStartupResource {
            core_id: entry.core_id(),
            hardware_id: entry.hardware_id(),
            stack,
            descriptor_tables,
            watchdog_ticks,
        };
        match self.validate_unique_resource(resource) {
            Ok(()) => {},
            Err(error) => return Err(error),
        }
        let ghost before = self.resources@;
        self.resources.push(resource);
        proof {
            let s = self.resources@;
            assert forall|i: int, j: int|
                0 <= i < s.len() && 0 <= j < s.len() && i != j implies resource_conflict(
                #[trigger] s[i],
                #[trigger] s[j],
            ) is None by {
                if i < before.len() && j < before.len() {
                    assert(resource_conflict(before[i], before[j]) is None);
                } else if i < before.len() {
                    lemma_no_first_conflict(before, resource, 0, i);
                } else {
                    lemma_no_first_conflict(before, resource, 0, j);
                }
            }
            assert forall|i: int| 0 <= i < s.len() implies (#[trigger] s[i]).spec_stack_end()
                <= u64::MAX && resource_watchdog_ready(s[i]) by {
                if i < before.len() {
                    assert(before[i].spec_stack_end() <= u64::MAX);
                    assert(resource_watchdog_ready(before[i]));
                }
            }
        }
        Ok(())
    }

    fn validate_unique_resource(&self, resource: ApStartupResource) -> (r: Result<(), CoreError>)
        requires
            self.wf(),
        ensures
            resource.spec_stack_end() > u64::MAX ==> r == Err::<(), CoreError>(
                CoreError::InvalidStartupStack,
            ),
            resource.spec_stack_end() <= u64::MAX ==> match first_conflict(
                self.spec_resources(),
                resource,
                0,
            ) {
                Some(error) => r == Err::<(), CoreError>(error),
                None => r is Ok,
            },
    {
        let end = match resource.stack_end() {
            Ok(end) => end,
            Err(error) => return Err(error),
        };
        let mut index: usize = 0;
        while index < self.resources.len()
            invariant
                self.wf(),
                index <= self.resources@.len(),
                end == resource.spec_stack_end(),
                first_conflict(self.resources@, resource, 0) == first_conflict(
                    self.resources@,
                    resource,
                    index as int,
                ),
            decreases self.resources@.len() - index,
        {
            let existing = self.resources[index];
            proof {
                assert(self.resources@[index as int].spec_stack_end() <= u64::MAX);
            }
            if existing.core_id == resource.core_id {
                return Err(CoreError::DuplicateCore);
            }
            if existing.hardware_id == resource.hardware_id {
                return Err(CoreError::DuplicateHardwareId);
            }
            let existing_end = match existing.stack_end() {
                Ok(existing_end) => existing_end,
                Err(error) => return Err(error),
            };
            if resource.stack_base().get() < existing_end && existing.stack_base().get() < end {
                return Err(CoreError::DuplicateStartupStack);
            }
            index += 1;
        }
        Ok(())
    }

    /// Counts of planned cores and of those ready in each respect.
    pub fn status(&self) -> (r: ApStartupPreflightStatus)
        requires
            self.wf(),
        ensures
            r == self.spec_status(),
    {
        let ghost s = self.resources@;
        let ghost stack_p = |r: ApStartupResource| resource_stack_ready(r);
        let ghost desc_p = |r: ApStartupResource| resource_descriptor_ready(r);
        let ghost watch_p = |r: ApStartupResource| resource_watchdog_ready(r);
        let mut stack_ready: usize = 0;
        let mut descriptor_ready: usize = 0;
        let mut watchdog_ready: usize = 0;
        let mut index: usize = 0;
        while index < self.resources.len()
            invariant
                s == self.resources@,
                index <= s.len(),
                stack_ready == count_resources(s, stack_p, index as int),
                descriptor_ready == count_resources(s, desc_p, index as int),
                watchdog_ready == count_resources(s, watch_p, index as int),
                stack_p == (|r: ApStartupResource| resource_stack_ready(r)),
                desc_p == (|r: ApStartupResource| resource_descriptor_ready(r)),
                watch_p == (|r: ApStartupResource| resource_watchdog_ready(r)),
            decreases s.len() - index,
        {
            proof {
                lemma_count_resources_full(s, stack_p, index as int);
                lemma_count_resources_full(s, desc_p, index as int);
                lemma_count_resources_full(s, watch_p, index as int);
            }
            let resource = self.resources[index];
            if validate_stack(resource.stack_base(), resource.stack_len(), resource.stack_region()).is_ok() {
                stack_ready += 1;
            }
            if resource.descriptor_tables.is_per_core_ready() {
                descriptor_ready += 1;
            }
            if resource.watchdog_ticks != 0 {
                watchdog_ready += 1;
            }
            index += 1;
        }
        ApStartupPreflightStatus {
            owner_core: self.owner_core,
            planned: self.resources.len(),
            stack_ready,
            descriptor_ready,
            watchdog_ready,
            capacity: CAPACITY,
        }
    }

    /// The planned resource for `core_id`, if any.
    pub fn resource(&self, core_id: CoreId) -> (r: Option<ApStartupResource>)
        requires
            self.wf(),
        ensures
            r == resource_of(self.spec_resources(), core_id),
    {
        find_resource(&self.resources, core_id)
    }

    /// Turns a passed preflight into a dispatch token; only the owner may,
    /// and only when something is planned and every planned core is ready.
    pub fn into_dispatch_token(self, caller: CoreId) -> (r: Result<ApStartupDispatchToken<CAPACITY>, CoreError>)
        requires
            self.wf(),
        ensures
            caller != self.spec_owner_core() ==> (r matches Err(e) && e == CoreError::OwnerMismatch),
            caller == self.spec_owner_core() && !self.spec_status().spec_execution_allowed() ==> (r matches Err(e)
                && e == CoreError::StartupPreflightBlocked),
            caller == self.spec_owner_core() && self.spec_status().spec_execution_allowed() ==> (r matches Ok(token)
                && token.wf() && token.spec_owner_core() == self.spec_owner_core()
                && token.spec_resources() == self.spec_resources()),
    {
        if caller != self.owner_core {
            return Err(CoreError::OwnerMismatch);
        }
        if !self.status().execution_allowed() {
            return Err(CoreError::StartupPreflightBlocked);
        }
        Ok(ApStartupDispatchToken { owner_core: self.owner_core, resources: self.resources })
    }
}

/// No resource from index `start` on conflicts with `resource`, so none at
/// any index `i` from `start` on does.
proof fn lemma_no_first_conflict(
    resources: Seq<ApStartupResource>,
    resource: ApStartupResource,
    start: int,
    i: int,
)
    requires
        0 <= start <= i < resources.len(),
        first_conflict(resources, resource, start) is None,
    ensures
        resource_conflict(resources[i], resource) is None,
        resource_conflict(resource, resources[i]) is None,
    decreases i - start,
{
    if start < i {
        lemma_no_first_conflict(resources, resource, start + 1, i);
    }
}

/// A preflight yields a dispatch token exactly when something is planned and
/// every planned core has a valid stack, per-core descriptor tables and a
/// watchdog.
pub proof fn lemma_execution_allowed_iff_all_ready<const CAPACITY: usize>(
    preflight: ApStartupPreflight<CAPACITY>,
)
    requires
        preflight.wf(),
    ensures
        preflight.spec_status().spec_execution_allowed() <==> {
            let s = preflight.spec_resources();
            &&& s.len() > 0
            &&& forall|i: int|
                0 <= i < s.len() ==> resource_stack_ready(#[trigger] s[i]) && resource_descriptor_ready(s[i])
                    && resource_watchdog_ready(s[i])
        },
{
    let s = preflight.spec_resources();
    let n = s.len() as int;
    let stack_p = |r: ApStartupResource| resource_stack_ready(r);
    let desc_p = |r: ApStartupResource| resource_descriptor_ready(r);
    let watch_p = |r: ApStartupResource| resource_watchdog_ready(r);
    lemma_count_resources_full(s, stack_p, n);
    lemma_count_resources_full(s, desc_p, n);
    lemma_count_resources_full(s, watch_p, n);
    if preflight.spec_status().spec_execution_allowed() {
        assert forall|i: int| 0 <= i < s.len() implies resource_stack_ready(#[trigger] s[i])
            && resource_descriptor_ready(s[i]) && resource_watchdog_ready(s[i]) by {
            assert(stack_p(s[i]));
            assert(desc_p(s[i]));
            assert(watch_p(s[i]));
        }
    }
    if s.len() > 0 && forall|i: int|
        0 <= i < s.len() ==> resource_stack_ready(#[trigger] s[i]) && resource_descriptor_ready(s[i])
            && resource_watchdog_ready(s[i]) {
        assert forall|i: int| 0 <= i < n implies stack_p(#[trigger] s[i]) by {}
        assert forall|i: int| 0 <= i < n implies desc_p(#[trigger] s[i]) by {}
        assert forall|i: int| 0 <= i < n implies watch_p(#[trigger] s[i]) by {}
    }
}

/// Checks a planned stack: large enough, page aligned, no overflow, inside
/// its region.
pub fn validate_stack(base: VirtAddr, len: u64, region: ApStackRegion) -> (r: Result<(), CoreError>)
    ensures
        stack_valid(base.0, len, region) ==> r is Ok,
        !stack_valid(base.0, len, region) ==> r == Err::<(), CoreError>(CoreError::InvalidStartupStack),
{
    let base_raw = base.get();
    if len < MIN_AP_STACK_BYTES {
        return Err(CoreError::InvalidStartupStack);
    }
    if !is_page_aligned(base_raw) || !is_page_aligned(len) {
        return Err(CoreError::InvalidStartupStack);
    }
    let end = match base_raw.checked_add(len) {
        Some(end) => end,
        None => return Err(CoreError::InvalidStartupStack),
    };
    if !region.contains_stack(base, end) {
        return Err(CoreError::InvalidStartupStack);
    }
    Ok(())
}

/// Whether `value` is a multiple of the page size.
pub fn is_page_aligned(value: u64) -> (r: bool)
    ensures
        r == page_aligned(value),
{
    assert(value & 4095 == 0 <==> value % 4096 == 0) by (bit_vector);
    value & (PAGE_SIZE - 1) == 0
}

} // verus!
