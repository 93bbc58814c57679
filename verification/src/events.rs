//! Notifications the three mutating operations emit. Handlers return the
//! event as a plain value; appending it to the host's log channel is the
//! caller's concern.

use vstd::prelude::*;

use crate::identity::Identity;

verus! {

/// A deposit was credited.
#[derive(Clone, Copy, PartialEq, Eq, Structural, Debug)]
pub struct EventBoughtBeans {
    pub user_address: Identity,
    pub ref_address: Identity,
    /// The lamports deposited.
    pub sol_amount: u64,
    /// Bean balance before the credit.
    pub beans_from: u64,
    /// Bean balance after the credit.
    pub beans_to: u64,
}

/// An accrued reward was compounded into the balance.
#[derive(Clone, Copy, PartialEq, Eq, Structural, Debug)]
pub struct EventBaked {
    pub user_address: Identity,
    /// The account's recorded referrer.
    pub ref_address: Identity,
    pub beans_from: u64,
    pub beans_to: u64,
}

/// An accrued reward was withdrawn.
#[derive(Clone, Copy, PartialEq, Eq, Structural, Debug)]
pub struct EventAte {
    pub user_address: Identity,
    /// Lamports actually transferred to the withdrawer.
    pub sol_to_eat: u64,
    /// The accrued beans the withdrawal was computed from.
    pub beans_before_fee: u64,
}

} // verus!
