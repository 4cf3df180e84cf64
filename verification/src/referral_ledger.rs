//! Referral bonus claims: pays out the accrued balance and resets it.

use vstd::prelude::*;

use crate::errors::ErrorCode;
use crate::ids::Identity;
use crate::ids::TokenAccountRef;
use crate::network::device_index;
use crate::network::has_device;
use crate::network::lemma_sum_rewards_update;
use crate::network::lemma_sum_staked_update;
use crate::network::Network;
use crate::records::Device;
use crate::transfers::Transfer;

verus! {

/// How a successful claim rewrites the device record: the referral
/// balance is reset to zero and nothing else changes.
pub open spec fn device_after_claim(d: Device) -> Device {
    Device { referral_rewards: 0, ..d }
}

/// Why a claim is refused, if it is: a missing registry or device record
/// first, then a payout account not owned by the caller, then a reward
/// pool other than the one the registry records, then a zero referral
/// balance.
pub open spec fn claim_referral_rewards_error(
    s: Network,
    caller: Identity,
    user_token_account: TokenAccountRef,
    reward_pool: TokenAccountRef,
) -> Option<ErrorCode> {
    if s.registry is None {
        Some(ErrorCode::NotFound)
    } else if !has_device(s.devices@, caller) {
        Some(ErrorCode::NotFound)
    } else if user_token_account.owner != caller {
        Some(ErrorCode::Unauthorized)
    } else if reward_pool.key != s.registry->Some_0.reward_pool {
        Some(ErrorCode::InvalidStakePool)
    } else if s.devices@[device_index(s.devices@, caller)].referral_rewards == 0 {
        Some(ErrorCode::NoRewardsToClaim)
    } else {
        None
    }
}

impl Network {
    /// Pays the caller's accrued referral bonuses out of the reward pool
    /// and resets the balance to zero.
    ///
    /// The caller must own a device and a payout account, and name the
    /// reward pool the registry records.  A zero balance fails with
    /// `NoRewardsToClaim` — so a second claim right after a successful
    /// one fails cleanly instead of paying twice.  Any failure changes
    /// nothing.  On success the returned transfer moves exactly the old
    /// `referral_rewards` balance from the reward pool to the caller's
    /// account, authorized by the registry's admin, and
    /// `device.referral_rewards` becomes zero; the registry totals do
    /// not change.
    pub fn claim_referral_rewards(
        &mut self,
        caller: Identity,
        user_token_account: TokenAccountRef,
        reward_pool: TokenAccountRef,
    ) -> (r: Result<Transfer, ErrorCode>)
        requires
            old(self).wf(),
        ensures
            final(self).wf(),
            r is Err <==> claim_referral_rewards_error(
                *old(self),
                caller,
                user_token_account,
                reward_pool,
            ) is Some,
            r matches Err(e) ==> Some(e) == claim_referral_rewards_error(
                *old(self),
                caller,
                user_token_account,
                reward_pool,
            ),
            r is Err ==> *final(self) == *old(self),
            r is Ok ==> final(self).devices@ == old(self).devices@.update(
                device_index(old(self).devices@, caller),
                device_after_claim(
                    old(self).devices@[device_index(old(self).devices@, caller)],
                ),
            ),
            r matches Ok(t) ==> t == (Transfer {
                source: reward_pool.key,
                destination: user_token_account.key,
                amount: old(self).devices@[device_index(
                    old(self).devices@,
                    caller,
                )].referral_rewards,
                authority: old(self).registry->Some_0.authority,
            }),
            final(self).registry == old(self).registry,
            final(self).tasks@ == old(self).tasks@,
    {
        let st = match &self.registry {
            Some(st) => st,
            None => return Err(ErrorCode::NotFound),
        };
        let st_authority = st.authority;
        let st_reward_pool = st.reward_pool;
        let i = match self.find_device(caller) {
            Some(i) => i,
            None => return Err(ErrorCode::NotFound),
        };
        if user_token_account.owner != caller {
            return Err(ErrorCode::Unauthorized);
        }
        if reward_pool.key != st_reward_pool {
            return Err(ErrorCode::InvalidStakePool);
        }
        proof {
            let devs = old(self).devices@;
            assert(devs[i as int].owner == caller);
            assert(has_device(devs, caller));
            let j = device_index(devs, caller);
            assert(devs[j].owner == caller);
            assert(j == i as int);
        }
        let unclaimed = self.devices[i].referral_rewards;
        if unclaimed == 0 {
            return Err(ErrorCode::NoRewardsToClaim);
        }
        self.devices[i].referral_rewards = 0;
        proof {
            let devs = old(self).devices@;
            lemma_sum_staked_update(devs, i as int, self.devices@[i as int]);
            lemma_sum_rewards_update(devs, i as int, self.devices@[i as int]);
        }
        Ok(
            Transfer {
                source: reward_pool.key,
                destination: user_token_account.key,
                amount: unclaimed,
                authority: st_authority,
            },
        )
    }
}

} // verus!
