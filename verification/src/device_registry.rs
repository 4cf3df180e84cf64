//! Device registration and status updates.

use vstd::prelude::*;

use crate::errors::ErrorCode;
use crate::ids::Identity;
use crate::network::has_device;
use crate::network::device_index;
use crate::network::lemma_sum_rewards_push;
use crate::network::lemma_sum_rewards_update;
use crate::network::lemma_sum_staked_push;
use crate::network::lemma_sum_staked_update;
use crate::network::Network;
use crate::records::Device;
use crate::records::MAX_STRING_BYTES;

verus! {

/// The device record registration creates: active, stamped with the
/// current clock reading, referrer stored verbatim, all accumulators
/// zero.
pub open spec fn fresh_device(
    owner: Identity,
    gpu_model: Vec<u8>,
    vram: u64,
    hash_rate: u64,
    referrer: Option<Identity>,
    now: u64,
) -> Device {
    Device {
        owner,
        gpu_model,
        vram,
        hash_rate,
        is_active: true,
        last_active: now,
        total_rewards: 0,
        referrer,
        referral_rewards: 0,
        staked_amount: 0,
    }
}

/// How `update_device_status` rewrites a device record: the activity flag
/// is set and `last_active` refreshed; nothing else changes.
pub open spec fn device_with_status(d: Device, is_active: bool, now: u64) -> Device {
    Device { is_active, last_active: now, ..d }
}

/// Why a registration is refused, if it is: an oversized `gpu_model` is
/// rejected first, then a duplicate owner.
pub open spec fn register_device_error(
    s: Network,
    owner: Identity,
    gpu_model: Seq<u8>,
) -> Option<ErrorCode> {
    if gpu_model.len() > MAX_STRING_BYTES {
        Some(ErrorCode::InvalidStringLength)
    } else if has_device(s.devices@, owner) {
        Some(ErrorCode::AlreadyRegistered)
    } else {
        None
    }
}

/// Why a status update is refused, if it is: a caller other than the
/// device owner is rejected first, then a missing device record.
pub open spec fn update_device_status_error(
    s: Network,
    caller: Identity,
    owner: Identity,
) -> Option<ErrorCode> {
    if caller != owner {
        Some(ErrorCode::Unauthorized)
    } else if !has_device(s.devices@, owner) {
        Some(ErrorCode::NotFound)
    } else {
        None
    }
}

impl Network {
    /// Registers a device for `owner`.
    ///
    /// Fails with `InvalidStringLength` if `gpu_model` exceeds
    /// [`MAX_STRING_BYTES`] bytes and with `AlreadyRegistered` if a device
    /// already exists for `owner`; a failed registration changes nothing.
    /// Otherwise stores exactly [`fresh_device`]: active, `last_active`
    /// set to the supplied clock reading `now`, the referrer kept verbatim
    /// (it is not checked to be a registered device), and every
    /// accumulator zero.
    pub fn register_device(
        &mut self,
        owner: Identity,
        gpu_model: Vec<u8>,
        vram: u64,
        hash_rate: u64,
        referrer: Option<Identity>,
        now: u64,
    ) -> (r: Result<(), ErrorCode>)
        requires
            old(self).wf(),
        ensures
            final(self).wf(),
            r is Err <==> register_device_error(*old(self), owner, gpu_model@) is Some,
            r matches Err(e) ==> Some(e) == register_device_error(*old(self), owner, gpu_model@),
            r is Err ==> *final(self) == *old(self),
            r is Ok ==> final(self).devices@ == old(self).devices@.push(
                fresh_device(owner, gpu_model, vram, hash_rate, referrer, now),
            ),
            final(self).registry == old(self).registry,
            final(self).tasks@ == old(self).tasks@,
    {
        if gpu_model.len() > MAX_STRING_BYTES {
            return Err(ErrorCode::InvalidStringLength);
        }
        if self.find_device(owner).is_some() {
            return Err(ErrorCode::AlreadyRegistered);
        }
        let d = Device {
            owner,
            gpu_model,
            vram,
            hash_rate,
            is_active: true,
            last_active: now,
            total_rewards: 0,
            referrer,
            referral_rewards: 0,
            staked_amount: 0,
        };
        proof {
            lemma_sum_staked_push(self.devices@, d);
            lemma_sum_rewards_push(self.devices@, d);
        }
        self.devices.push(d);
        Ok(())
    }

    /// Sets the activity flag of the caller's device.
    ///
    /// Fails with `Unauthorized` if `caller` is not `owner` and with
    /// `NotFound` if `owner` has no device; a failed update changes
    /// nothing.  Otherwise the device becomes exactly
    /// [`device_with_status`]: `is_active` as supplied and `last_active`
    /// refreshed to the clock reading `now`, with no other field touched.
    pub fn update_device_status(
        &mut self,
        caller: Identity,
        owner: Identity,
        is_active: bool,
        now: u64,
    ) -> (r: Result<(), ErrorCode>)
        requires
            old(self).wf(),
        ensures
            final(self).wf(),
            r is Err <==> update_device_status_error(*old(self), caller, owner) is Some,
            r matches Err(e) ==> Some(e) == update_device_status_error(*old(self), caller, owner),
            r is Err ==> *final(self) == *old(self),
            r is Ok ==> final(self).devices@ == old(self).devices@.update(
                device_index(old(self).devices@, owner),
                device_with_status(
                    old(self).devices@[device_index(old(self).devices@, owner)],
                    is_active,
                    now,
                ),
            ),
            final(self).registry == old(self).registry,
            final(self).tasks@ == old(self).tasks@,
    {
        if caller != owner {
            return Err(ErrorCode::Unauthorized);
        }
        let i = match self.find_device(owner) {
            Some(i) => i,
            None => return Err(ErrorCode::NotFound),
        };
        let d = &mut self.devices[i];
        d.is_active = is_active;
        d.last_active = now;
        proof {
            let devs = old(self).devices@;
            let j = device_index(devs, owner);
            assert(devs[i as int].owner == owner);
            assert(has_device(devs, owner));
            assert(devs[j].owner == owner);
            assert(j == i as int);
            lemma_sum_staked_update(devs, i as int, self.devices@[i as int]);
            lemma_sum_rewards_update(devs, i as int, self.devices@[i as int]);
        }
        Ok(())
    }
}

} // verus!
