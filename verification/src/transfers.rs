//! Token movements an operation asks of the external token ledger.
//!
//! The core never holds balances.  An operation that pays or collects
//! tokens returns the exact transfer it requires; the host hands it to the
//! token ledger, which applies it atomically with the record mutations.

use vstd::prelude::*;

use crate::ids::Identity;

verus! {

/// One exact-amount transfer between two token accounts, authorized by a
/// principal.
#[derive(Clone, Copy, Debug, PartialEq, Eq, Structural)]
pub struct Transfer {
    pub source: Identity,
    pub destination: Identity,
    pub amount: u64,
    pub authority: Identity,
}

/// The transfers a reward distribution requires: the main payout and, when
/// a referral bonus is due and a destination was supplied, the bonus.
#[derive(Clone, Copy, Debug, PartialEq, Eq, Structural)]
pub struct RewardPayout {
    pub reward: Transfer,
    pub referral: Option<Transfer>,
}

} // verus!
