//! The persisted record kinds: the global registry, devices and tasks.

use vstd::prelude::*;

use crate::ids::Identity;

verus! {

/// Longest accepted byte length of `gpu_model` and `task_id`.
pub const MAX_STRING_BYTES: usize = 64;

/// The singleton global registry: admin identity, token references and the
/// running totals kept in lockstep with the devices' accumulators.
#[derive(Clone, Debug)]
pub struct State {
    pub authority: Identity,
    pub bump: u8,
    pub token_mint: Identity,
    pub reward_pool: Identity,
    pub stake_pool: Identity,
    pub total_staked: u64,
    pub total_rewards_distributed: u64,
}

/// One registered GPU device, keyed by its owner (at most one per owner).
#[derive(Clone, Debug)]
pub struct Device {
    pub owner: Identity,
    /// Capability label, at most [`MAX_STRING_BYTES`] bytes.
    pub gpu_model: Vec<u8>,
    pub vram: u64,
    pub hash_rate: u64,
    pub is_active: bool,
    pub last_active: u64,
    /// Rewards paid to this device, excluding referral bonuses.
    pub total_rewards: u64,
    /// Identity stored verbatim at registration; never checked to be a
    /// registered device itself.
    pub referrer: Option<Identity>,
    /// Referral bonuses accrued and not yet claimed.
    pub referral_rewards: u64,
    pub staked_amount: u64,
}

/// Lifecycle states of a task.  The intended order is pending, then
/// processing, then completed; completion is terminal.
#[derive(Clone, Copy, Debug, PartialEq, Eq, Structural)]
pub enum TaskStatus {
    Pending,
    Processing,
    Completed,
}

/// Capability floor a task asks of a device.
#[derive(Clone, Copy, Debug, PartialEq, Eq, Structural)]
pub struct TaskRequirements {
    pub min_vram: u64,
    pub min_hash_rate: u64,
    pub priority: u8,
}

/// Outcome a device reports on completing a task.
#[derive(Clone, Copy, Debug, PartialEq, Eq, Structural)]
pub struct TaskResult {
    pub compute_time: u64,
    pub hash_rate: u64,
    pub success: bool,
}

/// One compute task, keyed by its owner together with its `task_id`.
#[derive(Clone, Debug)]
pub struct Task {
    pub owner: Identity,
    /// Key component, at most [`MAX_STRING_BYTES`] bytes.
    pub task_id: Vec<u8>,
    pub requirements: TaskRequirements,
    pub assigned_device: Option<Identity>,
    pub status: TaskStatus,
    pub start_time: u64,
    pub end_time: Option<u64>,
    pub result: Option<TaskResult>,
    /// Reward set aside for the work; none of the operations here
    /// changes it once the record exists.
    pub reward_amount: u64,
}

/// Position of a status on the intended lifecycle path.
pub open spec fn status_rank(s: TaskStatus) -> int {
    match s {
        TaskStatus::Pending => 0,
        TaskStatus::Processing => 1,
        TaskStatus::Completed => 2,
    }
}

} // verus!
