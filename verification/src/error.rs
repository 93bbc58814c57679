//! Failure taxonomy. Every variant is a terminal validation failure: the
//! operation that raises it leaves all state exactly as it was, and the host
//! transaction carrying it aborts with no partial effect.

use vstd::prelude::*;

verus! {

/// Why an operation was refused.
#[derive(Clone, Copy, PartialEq, Eq, Structural, Debug)]
pub enum BeanError {
    /// Re-initialization attempted by someone other than the administrator.
    NotAllowedAuthority,
    /// The pool's balance would not stay strictly above the rent floor after
    /// a withdrawal's transfers.
    InsufficientAmount,
    /// Reserved: a user record did not match the acting identity.
    IncorrectUserState,
    /// Reserved: a referral argument did not match any record.
    IncorrectReferral,
    /// Deposit below the minimum amount.
    InsufficientDeposit,
    /// The wallet's cumulative deposit had already reached the ceiling
    /// before this deposit.
    TotalDepositReached,
    /// Registration named the reserved null identity.
    ZeroAddressDetected,
    /// The named referrer is not the administrator and has never deposited.
    ReferrerShouldInvest,
    /// The bean balance is already at the per-wallet ceiling.
    WalletTvlReached,
    /// Compound or withdrawal attempted with no lifetime deposit.
    InvalidAction,
    /// Rebake-only compound whose accrued reward is under the minimum.
    UnderMinBake,
    /// The lifetime payout ceiling has already been paid out.
    MaxPayoutReached,
}

} // verus!
