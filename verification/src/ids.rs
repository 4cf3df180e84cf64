//! Opaque principal and token-account references.
//!
//! An `Identity` stands for a principal reference (a caller, an owner, a
//! mint or a pool address).  The core compares identities only for
//! equality; nothing else about them matters here.

use vstd::prelude::*;

verus! {

/// An opaque unique principal reference, compared only for equality.
#[derive(Clone, Copy, Debug, PartialEq, Eq, Structural)]
pub struct Identity {
    pub id: u64,
}

/// What the core reads of a token-ledger account: its address and the
/// principal that owns its balance.  The balance itself belongs to the
/// external token ledger and is never read here.
#[derive(Clone, Copy, Debug, PartialEq, Eq, Structural)]
pub struct TokenAccountRef {
    /// Address of the account, used to name it in transfers and to match
    /// it against the registry's recorded pool references.
    pub key: Identity,
    /// Principal that owns the account's balance.
    pub owner: Identity,
}

} // verus!
