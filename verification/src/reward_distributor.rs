//! Reward distribution: pays a device owner from the reward pool and
//! computes the referral bonus.

use vstd::prelude::*;

use crate::errors::ErrorCode;
use crate::ids::Identity;
use crate::ids::TokenAccountRef;
use crate::network::device_index;
use crate::network::has_device;
use crate::network::lemma_sum_rewards_update;
use crate::network::lemma_sum_staked_update;
use crate::network::Network;
use crate::records::Device;
use crate::records::State;
use crate::transfers::RewardPayout;
use crate::transfers::Transfer;

verus! {

/// The referral bonus a reward of `amount` earns: five percent, rounded
/// down.  Any `amount` below twenty yields zero.
pub open spec fn referral_bonus(amount: u64) -> int {
    amount * 5 / 100
}

/// Whether distributing `amount` to device `d` pays a referral bonus:
/// the device has a referrer, the bonus is positive, and the caller
/// supplied a destination for it.  With no destination supplied the
/// bonus is silently skipped — neither queued nor retried — a
/// deliberate design choice, not an oversight.
pub open spec fn pays_referral(
    d: Device,
    referrer_account: Option<TokenAccountRef>,
    amount: u64,
) -> bool {
    d.referrer is Some && referral_bonus(amount) > 0 && referrer_account is Some
}

/// Whether some checked step of a distribution would overflow: either
/// reward accumulator, the five-percent scaling (computed whenever a
/// referrer is set), or the referral accumulator when a bonus is paid.
pub open spec fn distribute_overflows(
    d: Device,
    st: State,
    referrer_account: Option<TokenAccountRef>,
    amount: u64,
) -> bool {
    ||| d.total_rewards + amount > u64::MAX
    ||| st.total_rewards_distributed + amount > u64::MAX
    ||| d.referrer is Some && amount * 5 > u64::MAX
    ||| pays_referral(d, referrer_account, amount) && d.referral_rewards + referral_bonus(amount)
        > u64::MAX
}

/// How a successful distribution rewrites the device record:
/// `total_rewards` grows by exactly `amount`, and `referral_rewards` by
/// the bonus exactly when one is paid; nothing else changes.
pub open spec fn device_with_reward(
    d: Device,
    referrer_account: Option<TokenAccountRef>,
    amount: u64,
) -> Device {
    Device {
        total_rewards: (d.total_rewards + amount) as u64,
        referral_rewards: if pays_referral(d, referrer_account, amount) {
            (d.referral_rewards + referral_bonus(amount)) as u64
        } else {
            d.referral_rewards
        },
        ..d
    }
}

/// How a successful distribution rewrites the registry:
/// `total_rewards_distributed` grows by exactly `amount` — the referral
/// bonus is deliberately not folded in, so this total undercounts pool
/// outflow whenever a bonus is paid; nothing else changes.
pub open spec fn state_with_reward(st: State, amount: u64) -> State {
    State {
        total_rewards_distributed: (st.total_rewards_distributed + amount) as u64,
        ..st
    }
}

/// Why a distribution is refused, if it is: a missing registry or device
/// record first, then a caller other than the admin, then a reward pool
/// other than the one the registry records, then a destination account
/// not owned by the device owner, then arithmetic overflow.
pub open spec fn distribute_reward_error(
    s: Network,
    authority: Identity,
    device_owner: Identity,
    reward_pool: TokenAccountRef,
    destination: TokenAccountRef,
    referrer_account: Option<TokenAccountRef>,
    amount: u64,
) -> Option<ErrorCode> {
    if s.registry is None {
        Some(ErrorCode::NotFound)
    } else if !has_device(s.devices@, device_owner) {
        Some(ErrorCode::NotFound)
    } else if authority != s.registry->Some_0.authority {
        Some(ErrorCode::Unauthorized)
    } else if reward_pool.key != s.registry->Some_0.reward_pool {
        Some(ErrorCode::InvalidStakePool)
    } else if destination.owner != device_owner {
        Some(ErrorCode::Unauthorized)
    } else if distribute_overflows(
        s.devices@[device_index(s.devices@, device_owner)],
        s.registry->Some_0,
        referrer_account,
        amount,
    ) {
        Some(ErrorCode::ArithmeticOverflow)
    } else {
        None
    }
}

impl Network {
    /// Pays `amount` from the reward pool to the owner of the device
    /// keyed by `device_owner`, and the referral bonus where one is due.
    ///
    /// Only the admin identity bound to the registry at bootstrap may
    /// distribute; the reward pool must be the one the registry records,
    /// and the destination account must belong to the device owner.  Any
    /// failure, including overflow of a checked step, changes nothing.
    /// On success `device.total_rewards` and
    /// `registry.total_rewards_distributed` each grow by exactly
    /// `amount`.  If the device has a referrer, the bonus of
    /// [`referral_bonus`] — five percent of `amount`, rounded down — is
    /// positive, and a referrer destination was supplied, the bonus is
    /// added to `device.referral_rewards` and a second transfer to that
    /// destination is returned; otherwise the bonus is skipped entirely.
    /// The registry total never includes the bonus.
    pub fn distribute_reward(
        &mut self,
        authority: Identity,
        device_owner: Identity,
        reward_pool: TokenAccountRef,
        destination: TokenAccountRef,
        referrer_account: Option<TokenAccountRef>,
        amount: u64,
    ) -> (r: Result<RewardPayout, ErrorCode>)
        requires
            old(self).wf(),
        ensures
            final(self).wf(),
            r is Err <==> distribute_reward_error(
                *old(self),
                authority,
                device_owner,
                reward_pool,
                destination,
                referrer_account,
                amount,
            ) is Some,
            r matches Err(e) ==> Some(e) == distribute_reward_error(
                *old(self),
                authority,
                device_owner,
                reward_pool,
                destination,
                referrer_account,
                amount,
            ),
            r is Err ==> *final(self) == *old(self),
            r is Ok ==> final(self).devices@ == old(self).devices@.update(
                device_index(old(self).devices@, device_owner),
                device_with_reward(
                    old(self).devices@[device_index(old(self).devices@, device_owner)],
                    referrer_account,
                    amount,
                ),
            ),
            r is Ok ==> final(self).registry == Some(
                state_with_reward(old(self).registry->Some_0, amount),
            ),
            r matches Ok(p) ==> p.reward == (Transfer {
                source: reward_pool.key,
                destination: destination.key,
                amount,
                authority,
            }),
            r matches Ok(p) ==> (p.referral is Some <==> pays_referral(
                old(self).devices@[device_index(old(self).devices@, device_owner)],
                referrer_account,
                amount,
            )),
            r matches Ok(p) ==> (p.referral matches Some(b) ==> b == (Transfer {
                source: reward_pool.key,
                destination: referrer_account->Some_0.key,
                amount: referral_bonus(amount) as u64,
                authority,
            })),
            final(self).tasks@ == old(self).tasks@,
    {
        let st = match &self.registry {
            Some(st) => st,
            None => return Err(ErrorCode::NotFound),
        };
        let st_authority = st.authority;
        let st_reward_pool = st.reward_pool;
        let st_total = st.total_rewards_distributed;
        let i = match self.find_device(device_owner) {
            Some(i) => i,
            None => return Err(ErrorCode::NotFound),
        };
        if authority != st_authority {
            return Err(ErrorCode::Unauthorized);
        }
        if reward_pool.key != st_reward_pool {
            return Err(ErrorCode::InvalidStakePool);
        }
        if destination.owner != device_owner {
            return Err(ErrorCode::Unauthorized);
        }
        proof {
            let devs = old(self).devices@;
            assert(devs[i as int].owner == device_owner);
            assert(has_device(devs, device_owner));
            let j = device_index(devs, device_owner);
            assert(devs[j].owner == device_owner);
            assert(j == i as int);
        }
        let new_rewards = match self.devices[i].total_rewards.checked_add(amount) {
            Some(v) => v,
            None => return Err(ErrorCode::ArithmeticOverflow),
        };
        let new_total = match st_total.checked_add(amount) {
            Some(v) => v,
            None => return Err(ErrorCode::ArithmeticOverflow),
        };
        let mut new_referral_rewards = self.devices[i].referral_rewards;
        let mut referral_transfer: Option<Transfer> = None;
        if self.devices[i].referrer.is_some() {
            let scaled = match amount.checked_mul(5) {
                Some(v) => v,
                None => return Err(ErrorCode::ArithmeticOverflow),
            };
            let bonus = scaled / 100;
            if bonus > 0 {
                match referrer_account {
                    Some(ra) => {
                        new_referral_rewards = match new_referral_rewards.checked_add(bonus) {
                            Some(v) => v,
                            None => return Err(ErrorCode::ArithmeticOverflow),
                        };
                        referral_transfer = Some(
                            Transfer {
                                source: reward_pool.key,
                                destination: ra.key,
                                amount: bonus,
                                authority,
                            },
                        );
                    },
                    None => {},
                }
            }
        }
        self.devices[i].total_rewards = new_rewards;
        self.devices[i].referral_rewards = new_referral_rewards;
        let reg = match &mut self.registry {
            Some(st) => st,
            None => return Err(ErrorCode::NotFound),
        };
        reg.total_rewards_distributed = new_total;
        proof {
            let devs = old(self).devices@;
            assert(self.devices@ =~= devs.update(i as int, self.devices@[i as int]));
            lemma_sum_staked_update(devs, i as int, self.devices@[i as int]);
            lemma_sum_rewards_update(devs, i as int, self.devices@[i as int]);
        }
        Ok(
            RewardPayout {
                reward: Transfer {
                    source: reward_pool.key,
                    destination: destination.key,
                    amount,
                    authority,
                },
                referral: referral_transfer,
            },
        )
    }
}

} // verus!
