//! Error kinds of the marketplace core.
//!
//! Every error is terminal for its operation: an operation that fails
//! leaves every record exactly as it found it, and each operation's
//! contract says so.

use vstd::prelude::*;

verus! {

/// Why an operation was refused.
#[derive(Clone, Copy, Debug, PartialEq, Eq, Structural)]
pub enum ErrorCode {
    /// A string field exceeds its maximum allowed size.
    InvalidStringLength,
    /// A claim was attempted against a zero referral balance.
    NoRewardsToClaim,
    /// A supplied pool reference does not match the one the registry
    /// records.
    InvalidStakePool,
    /// The singleton registry already exists.
    AlreadyInitialized,
    /// A device already exists for this owner.
    AlreadyRegistered,
    /// A task already exists under this key.
    AlreadyExists,
    /// A checked addition or multiplication would overflow.
    ArithmeticOverflow,
    /// The caller does not match the required owner or admin identity.
    Unauthorized,
    /// A referenced record is absent.
    NotFound,
}

} // verus!
