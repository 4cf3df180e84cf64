//! The keyed record store and its global invariants.
//!
//! A [`Network`] holds the records the operations mutate: the optional
//! singleton registry, one device record per owner, and one task record
//! per (owner, task id) pair.  Its well-formedness ties the registry's
//! running totals to the sums of the devices' accumulators; every
//! operation of this crate preserves it.

use vstd::prelude::*;

use crate::errors::ErrorCode;
use crate::ids::Identity;
use crate::records::Device;
use crate::records::State;
use crate::records::Task;
use crate::records::MAX_STRING_BYTES;

verus! {

/// Sum of `staked_amount` over a sequence of devices.
pub open spec fn sum_staked(devs: Seq<Device>) -> int
    decreases devs.len(),
{
    if devs.len() == 0 {
        0
    } else {
        sum_staked(devs.drop_last()) + devs.last().staked_amount
    }
}

/// Sum of `total_rewards` over a sequence of devices.
pub open spec fn sum_rewards(devs: Seq<Device>) -> int
    decreases devs.len(),
{
    if devs.len() == 0 {
        0
    } else {
        sum_rewards(devs.drop_last()) + devs.last().total_rewards
    }
}

/// Appending a device grows the staking sum by its stake.
pub proof fn lemma_sum_staked_push(devs: Seq<Device>, d: Device)
    ensures
        sum_staked(devs.push(d)) == sum_staked(devs) + d.staked_amount,
{
    assert(devs.push(d).drop_last() =~= devs);
}

/// Appending a device grows the reward sum by its rewards.
pub proof fn lemma_sum_rewards_push(devs: Seq<Device>, d: Device)
    ensures
        sum_rewards(devs.push(d)) == sum_rewards(devs) + d.total_rewards,
{
    assert(devs.push(d).drop_last() =~= devs);
}

/// Replacing one device changes the staking sum by the difference of the
/// stakes.
pub proof fn lemma_sum_staked_update(devs: Seq<Device>, i: int, d: Device)
    requires
        0 <= i < devs.len(),
    ensures
        sum_staked(devs.update(i, d)) == sum_staked(devs) - devs[i].staked_amount
            + d.staked_amount,
    decreases devs.len(),
{
    if i == devs.len() - 1 {
        assert(devs.update(i, d).drop_last() =~= devs.drop_last());
    } else {
        assert(devs.update(i, d).drop_last() =~= devs.drop_last().update(i, d));
        lemma_sum_staked_update(devs.drop_last(), i, d);
    }
}

/// Replacing one device changes the reward sum by the difference of the
/// rewards.
pub proof fn lemma_sum_rewards_update(devs: Seq<Device>, i: int, d: Device)
    requires
        0 <= i < devs.len(),
    ensures
        sum_rewards(devs.update(i, d)) == sum_rewards(devs) - devs[i].total_rewards
            + d.total_rewards,
    decreases devs.len(),
{
    if i == devs.len() - 1 {
        assert(devs.update(i, d).drop_last() =~= devs.drop_last());
    } else {
        assert(devs.update(i, d).drop_last() =~= devs.drop_last().update(i, d));
        lemma_sum_rewards_update(devs.drop_last(), i, d);
    }
}

/// Whether some device in `devs` belongs to `owner`.
pub open spec fn has_device(devs: Seq<Device>, owner: Identity) -> bool {
    exists|i: int| 0 <= i < devs.len() && devs[i].owner == owner
}

/// Index of the device owned by `owner`; meaningful only where
/// [`has_device`] holds and owners are unique.
pub open spec fn device_index(devs: Seq<Device>, owner: Identity) -> int {
    choose|i: int| 0 <= i < devs.len() && devs[i].owner == owner
}

/// Whether task `t` is stored under the key (`owner`, `task_id`).
pub open spec fn task_has_key(t: Task, owner: Identity, task_id: Seq<u8>) -> bool {
    t.owner == owner && t.task_id@ == task_id
}

/// Whether some task in `tasks` has the key (`owner`, `task_id`).
pub open spec fn has_task(tasks: Seq<Task>, owner: Identity, task_id: Seq<u8>) -> bool {
    exists|i: int| 0 <= i < tasks.len() && task_has_key(tasks[i], owner, task_id)
}

/// Index of the task with key (`owner`, `task_id`); meaningful only where
/// [`has_task`] holds and keys are unique.
pub open spec fn task_index(tasks: Seq<Task>, owner: Identity, task_id: Seq<u8>) -> int {
    choose|i: int| 0 <= i < tasks.len() && task_has_key(tasks[i], owner, task_id)
}

/// The record store: the singleton registry once bootstrapped, device
/// records keyed by owner, task records keyed by (owner, task id).
pub struct Network {
    pub registry: Option<State>,
    pub devices: Vec<Device>,
    pub tasks: Vec<Task>,
}

impl Network {
    /// Well-formedness of the store.
    ///
    /// Device owners and task keys are unique, stored strings respect
    /// their size bound, and the registry's running totals equal the sums
    /// of the devices' accumulators: `total_staked` is the sum of all
    /// `staked_amount`, and `total_rewards_distributed` the sum of all
    /// `total_rewards` (referral bonuses are tracked apart and are not in
    /// that total).  Before bootstrap both sums are zero, so the totals
    /// start true.
    pub open spec fn wf(self) -> bool {
        &&& forall|i: int, j: int|
            0 <= i < j < self.devices@.len() ==> self.devices@[i].owner != self.devices@[j].owner
        &&& forall|i: int, j: int|
            0 <= i < j < self.tasks@.len() ==> !(self.tasks@[i].owner == self.tasks@[j].owner
                && self.tasks@[i].task_id@ == self.tasks@[j].task_id@)
        &&& forall|i: int|
            0 <= i < self.devices@.len() ==> self.devices@[i].gpu_model@.len() <= MAX_STRING_BYTES
        &&& forall|i: int|
            0 <= i < self.tasks@.len() ==> self.tasks@[i].task_id@.len() <= MAX_STRING_BYTES
        &&& sum_staked(self.devices@) == match self.registry {
            Some(st) => st.total_staked as int,
            None => 0,
        }
        &&& sum_rewards(self.devices@) == match self.registry {
            Some(st) => st.total_rewards_distributed as int,
            None => 0,
        }
    }

    /// An empty store: no registry, no devices, no tasks.
    pub fn new() -> (r: Network)
        ensures
            r.wf(),
            r.registry is None,
            r.devices@.len() == 0,
            r.tasks@.len() == 0,
    {
        Network { registry: None, devices: Vec::new(), tasks: Vec::new() }
    }

    /// One-time bootstrap of the global registry.
    ///
    /// Records the admin identity and the token, reward-pool and
    /// stake-pool references, with both running totals zero.  Fails with
    /// `AlreadyInitialized` if the registry already exists, changing
    /// nothing.  Creating the token mint and the two pool balances is the
    /// external token ledger's work and happens outside this core.
    pub fn initialize(
        &mut self,
        authority: Identity,
        token_mint: Identity,
        reward_pool: Identity,
        stake_pool: Identity,
        bump: u8,
    ) -> (r: Result<(), ErrorCode>)
        requires
            old(self).wf(),
        ensures
            final(self).wf(),
            r is Err <==> old(self).registry is Some,
            r is Err ==> r == Result::<(), ErrorCode>::Err(ErrorCode::AlreadyInitialized),
            r is Err ==> *final(self) == *old(self),
            r is Ok ==> final(self).registry == Some(
                State {
                    authority,
                    bump,
                    token_mint,
                    reward_pool,
                    stake_pool,
                    total_staked: 0,
                    total_rewards_distributed: 0,
                },
            ),
            final(self).devices@ == old(self).devices@,
            final(self).tasks@ == old(self).tasks@,
    {
        if self.registry.is_some() {
            return Err(ErrorCode::AlreadyInitialized);
        }
        self.registry = Some(
            State {
                authority,
                bump,
                token_mint,
                reward_pool,
                stake_pool,
                total_staked: 0,
                total_rewards_distributed: 0,
            },
        );
        Ok(())
    }

    /// Looks up the device record of `owner`, if one exists.
    pub fn find_device(&self, owner: Identity) -> (r: Option<usize>)
        ensures
            match r {
                Some(i) => i < self.devices@.len() && self.devices@[i as int].owner == owner,
                None => !has_device(self.devices@, owner),
            },
    {
        let n = self.devices.len();
        let mut i: usize = 0;
        while i < n
            invariant
                n == self.devices@.len(),
                i <= n,
                forall|j: int| 0 <= j < i ==> self.devices@[j].owner != owner,
            decreases n - i,
        {
            if self.devices[i].owner == owner {
                return Some(i);
            }
            i = i + 1;
        }
        None
    }

    /// Looks up the task record with key (`owner`, `task_id`), if one
    /// exists.
    pub fn find_task(&self, owner: Identity, task_id: &Vec<u8>) -> (r: Option<usize>)
        ensures
            match r {
                Some(i) => i < self.tasks@.len() && task_has_key(
                    self.tasks@[i as int],
                    owner,
                    task_id@,
                ),
                None => !has_task(self.tasks@, owner, task_id@),
            },
    {
        let n = self.tasks.len();
        let mut i: usize = 0;
        while i < n
            invariant
                n == self.tasks@.len(),
                i <= n,
                forall|j: int| 0 <= j < i ==> !task_has_key(self.tasks@[j], owner, task_id@),
            decreases n - i,
        {
            if self.tasks[i].owner == owner && bytes_eq(&self.tasks[i].task_id, task_id) {
                return Some(i);
            }
            i = i + 1;
        }
        None
    }

    /// Read access to the device record of `owner`.
    pub fn device_of(&self, owner: Identity) -> (r: Option<&Device>)
        ensures
            match r {
                Some(d) => has_device(self.devices@, owner) && d.owner == owner && exists|i: int|
                    0 <= i < self.devices@.len() && self.devices@[i] == *d,
                None => !has_device(self.devices@, owner),
            },
    {
        match self.find_device(owner) {
            Some(i) => Some(&self.devices[i]),
            None => None,
        }
    }

    /// Read access to the task record with key (`owner`, `task_id`).
    pub fn task_of(&self, owner: Identity, task_id: &Vec<u8>) -> (r: Option<&Task>)
        ensures
            match r {
                Some(t) => has_task(self.tasks@, owner, task_id@) && task_has_key(
                    *t,
                    owner,
                    task_id@,
                ) && exists|i: int| 0 <= i < self.tasks@.len() && self.tasks@[i] == *t,
                None => !has_task(self.tasks@, owner, task_id@),
            },
    {
        match self.find_task(owner, task_id) {
            Some(i) => Some(&self.tasks[i]),
            None => None,
        }
    }

    /// Read access to the registry singleton.
    pub fn registry_of(&self) -> (r: Option<&State>)
        ensures
            match r {
                Some(st) => self.registry == Some(*st),
                None => self.registry is None,
            },
    {
        match &self.registry {
            Some(st) => Some(st),
            None => None,
        }
    }
}

/// Byte-wise equality of two byte vectors.
pub fn bytes_eq(a: &Vec<u8>, b: &Vec<u8>) -> (r: bool)
    ensures
        r == (a@ == b@),
{
    if a.len() != b.len() {
        return false;
    }
    let n = a.len();
    let mut i: usize = 0;
    while i < n
        invariant
            n == a@.len(),
            n == b@.len(),
            i <= n,
            forall|j: int| 0 <= j < i ==> a@[j] == b@[j],
        decreases n - i,
    {
        if a[i] != b[i] {
            return false;
        }
        i = i + 1;
    }
    proof {
        assert(a@ =~= b@);
    }
    true
}

/// Stake conservation: in a well-formed store with a bootstrapped
/// registry, the sum of all devices' `staked_amount` equals the registry's
/// `total_staked`.  Every operation of this crate preserves
/// well-formedness, so this holds after any sequence of successful
/// operations.
pub proof fn lemma_stake_conservation(s: Network, st: State)
    requires
        s.wf(),
        s.registry == Some(st),
    ensures
        sum_staked(s.devices@) == st.total_staked as int,
{
}

/// Reward conservation: in a well-formed store with a bootstrapped
/// registry, the sum of all devices' `total_rewards` equals the registry's
/// `total_rewards_distributed`.  Referral bonuses are tracked in
/// `referral_rewards` and are deliberately not part of this total.
pub proof fn lemma_reward_conservation(s: Network, st: State)
    requires
        s.wf(),
        s.registry == Some(st),
    ensures
        sum_rewards(s.devices@) == st.total_rewards_distributed as int,
{
}

} // verus!
