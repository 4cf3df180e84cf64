//! State-transition and accounting core of a decentralized compute
//! marketplace.
//!
//! Owners register GPU devices, create compute tasks, have tasks assigned
//! and completed, stake a fungible token against their devices, and receive
//! reward payouts with optional referral bonuses.  This crate holds the
//! business rules alone: the task lifecycle state machine, the staking
//! ledger, and the reward and referral arithmetic.  The host that applies
//! operations atomically, verifies signatures, stores records, moves token
//! balances and supplies timestamps is an external collaborator: operations
//! take the clock reading as a plain argument and return the token transfers
//! they require as plain values, to be executed by the token ledger.

pub mod device_registry;
pub mod errors;
pub mod ids;
pub mod network;
pub mod records;
pub mod referral_ledger;
pub mod reward_distributor;
pub mod stake_manager;
pub mod task_marketplace;
pub mod transfers;
