//! Staking: moves tokens into the stake pool and advances the staking
//! accumulators in lockstep.

use vstd::prelude::*;

use crate::errors::ErrorCode;
use crate::ids::Identity;
use crate::ids::TokenAccountRef;
use crate::network::device_index;
use crate::network::has_device;
use crate::network::lemma_sum_rewards_update;
use crate::network::lemma_sum_staked_update;
use crate::network::Network;
use crate::records::Device;
use crate::records::State;
use crate::transfers::Transfer;

verus! {

/// How a successful stake rewrites the device record: `staked_amount`
/// grows by exactly `amount` and nothing else changes.
pub open spec fn device_with_stake(d: Device, amount: u64) -> Device {
    Device { staked_amount: (d.staked_amount + amount) as u64, ..d }
}

/// How a successful stake rewrites the registry: `total_staked` grows by
/// exactly `amount` and nothing else changes.
pub open spec fn state_with_stake(st: State, amount: u64) -> State {
    State { total_staked: (st.total_staked + amount) as u64, ..st }
}

/// Why a stake is refused, if it is: a missing registry or device record
/// first, then a funding account not owned by the caller, then a stake
/// pool other than the one the registry records, then overflow of either
/// staking accumulator.
pub open spec fn stake_tokens_error(
    s: Network,
    caller: Identity,
    user_token_account: TokenAccountRef,
    stake_pool: TokenAccountRef,
    amount: u64,
) -> Option<ErrorCode> {
    if s.registry is None {
        Some(ErrorCode::NotFound)
    } else if !has_device(s.devices@, caller) {
        Some(ErrorCode::NotFound)
    } else if user_token_account.owner != caller {
        Some(ErrorCode::Unauthorized)
    } else if stake_pool.key != s.registry->Some_0.stake_pool {
        Some(ErrorCode::InvalidStakePool)
    } else if s.devices@[device_index(s.devices@, caller)].staked_amount + amount > u64::MAX
        || s.registry->Some_0.total_staked + amount > u64::MAX {
        Some(ErrorCode::ArithmeticOverflow)
    } else {
        None
    }
}

impl Network {
    /// Stakes `amount` tokens against the caller's device.
    ///
    /// The caller must own a device, fund the transfer from a token
    /// account it owns, and name the stake pool the registry records;
    /// naming any other pool fails with `InvalidStakePool`.  Either
    /// staking accumulator overflowing fails with `ArithmeticOverflow`.
    /// Any failure changes nothing.  On success `device.staked_amount`
    /// and `registry.total_staked` each grow by exactly `amount` — so
    /// the sum of all staked amounts stays equal to the registry total —
    /// and the returned transfer moves exactly `amount` from the caller's
    /// account to the stake pool, authorized by the caller, for the
    /// external token ledger to execute.  There is no unstake operation:
    /// staking only grows.
    pub fn stake_tokens(
        &mut self,
        caller: Identity,
        user_token_account: TokenAccountRef,
        stake_pool: TokenAccountRef,
        amount: u64,
    ) -> (r: Result<Transfer, ErrorCode>)
        requires
            old(self).wf(),
        ensures
            final(self).wf(),
            r is Err <==> stake_tokens_error(
                *old(self),
                caller,
                user_token_account,
                stake_pool,
                amount,
            ) is Some,
            r matches Err(e) ==> Some(e) == stake_tokens_error(
                *old(self),
                caller,
                user_token_account,
                stake_pool,
                amount,
            ),
            r is Err ==> *final(self) == *old(self),
            r is Ok ==> final(self).devices@ == old(self).devices@.update(
                device_index(old(self).devices@, caller),
                device_with_stake(
                    old(self).devices@[device_index(old(self).devices@, caller)],
                    amount,
                ),
            ),
            r is Ok ==> final(self).registry == Some(
                state_with_stake(old(self).registry->Some_0, amount),
            ),
            r matches Ok(t) ==> t == (Transfer {
                source: user_token_account.key,
                destination: stake_pool.key,
                amount,
                authority: caller,
            }),
            final(self).tasks@ == old(self).tasks@,
    {
        let st = match &self.registry {
            Some(st) => st,
            None => return Err(ErrorCode::NotFound),
        };
        let stake_pool_ref = st.stake_pool;
        let total = st.total_staked;
        let i = match self.find_device(caller) {
            Some(i) => i,
            None => return Err(ErrorCode::NotFound),
        };
        if user_token_account.owner != caller {
            return Err(ErrorCode::Unauthorized);
        }
        if stake_pool.key != stake_pool_ref {
            return Err(ErrorCode::InvalidStakePool);
        }
        proof {
            let devs = old(self).devices@;
            assert(devs[i as int].owner == caller);
            assert(has_device(devs, caller));
            let j = device_index(devs, caller);
            assert(devs[j].owner == caller);
            assert(j == i as int);
        }
        let new_staked = match self.devices[i].staked_amount.checked_add(amount) {
            Some(v) => v,
            None => return Err(ErrorCode::ArithmeticOverflow),
        };
        let new_total = match total.checked_add(amount) {
            Some(v) => v,
            None => return Err(ErrorCode::ArithmeticOverflow),
        };
        self.devices[i].staked_amount = new_staked;
        let reg = match &mut self.registry {
            Some(st) => st,
            None => return Err(ErrorCode::NotFound),
        };
        reg.total_staked = new_total;
        proof {
            let devs = old(self).devices@;
            lemma_sum_staked_update(devs, i as int, self.devices@[i as int]);
            lemma_sum_rewards_update(devs, i as int, self.devices@[i as int]);
        }
        Ok(
            Transfer {
                source: user_token_account.key,
                destination: stake_pool.key,
                amount,
                authority: caller,
            },
        )
    }
}

} // verus!
