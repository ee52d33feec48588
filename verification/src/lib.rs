//! An escrow-style payment ledger: a sender locks funds for a receiver, who
//! must present a one-time passcode within a bounded time window to claim
//! them. Policy parameters (minimum transfer threshold, expiry duration) are
//! tunable by a fixed administrator.

use vstd::prelude::*;

pub mod codec;
pub mod errors;
pub mod hashing;
pub mod laws;
pub mod ledger;
pub mod otp;
pub mod record;
pub mod store;

verus! {

/// A fungible balance quantity.
pub type Balance = u128;

/// A point in time, in the host environment's clock unit.
pub type Timestamp = u64;

/// An opaque, equality-comparable account identifier.
#[derive(Clone, Copy, PartialEq, Eq, Structural, Debug)]
pub struct AccountId {
    pub id: u128,
}

} // verus!
