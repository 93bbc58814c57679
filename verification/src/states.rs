//! Persistent records: the singleton global registry and one record per
//! participant. The registry is plain data; a participant record carries two
//! identity lists and therefore has a mathematical view ([`UserStateView`])
//! that the contracts speak of.

use vstd::prelude::*;

use crate::constants::MAX_WALLET_TVL_IN_SOL;
use crate::constants::SOL_PER_BEAN;
use crate::identity::Identity;

verus! {

/// Singleton registry: administrator, fee destinations, pool identity and the
/// count of participants that have made a first deposit.
#[derive(Clone, Copy, PartialEq, Eq, Structural, Debug)]
pub struct GlobalState {
    /// 1 once initialization has run; guards against re-initialization.
    pub is_initialized: u8,
    /// Authority allowed to re-run initialization.
    pub authority: Identity,
    /// The pooled-funds account.
    pub vault: Identity,
    pub dev_account: Identity,
    pub marketing_account: Identity,
    pub giveaway_account: Identity,
    pub ceo_account: Identity,
    /// Accounts that have ever made a first deposit.
    pub total_bakers: u64,
}

/// Per-participant record. Times are unix seconds, 0 meaning unset; currency
/// amounts are lamports; `beans` is the accruing point balance.
#[derive(Clone, Debug)]
pub struct UserState {
    /// Owner of the record, immutable once created.
    pub user: Identity,
    /// Cumulative lamports ever deposited.
    pub total_deposit: u64,
    /// Cumulative lamports ever credited as payout.
    pub total_payout: u64,
    pub first_deposit_time: u64,
    /// Time of the last withdrawal (0 = never).
    pub ate_at: u64,
    /// Time of the last compound (0 = never).
    pub baked_at: u64,
    /// Current bean balance, never above [`bean_cap`].
    pub beans: u64,
    /// The referrer, set at most once.
    pub upline: Identity,
    /// 1 once a referrer has been recorded.
    pub has_referred: u8,
    /// Every account that named this one as referrer, in insertion order.
    pub referrals: Vec<Identity>,
    /// Referred accounts whose cumulative deposit crossed the bonus
    /// threshold: insertion order, no duplicates.
    pub bonus_eligible_referrals: Vec<Identity>,
}

/// Mathematical view of a participant record: counters as unbounded integers,
/// the identity lists as sequences.
#[verifier::ext_equal]
pub struct UserStateView {
    pub user: Identity,
    pub total_deposit: int,
    pub total_payout: int,
    pub first_deposit_time: int,
    pub ate_at: int,
    pub baked_at: int,
    pub beans: int,
    pub upline: Identity,
    pub has_referred: int,
    pub referrals: Seq<Identity>,
    pub bonus_eligible_referrals: Seq<Identity>,
}

impl View for UserState {
    type V = UserStateView;

    open spec fn view(&self) -> UserStateView {
        UserStateView {
            user: self.user,
            total_deposit: self.total_deposit as int,
            total_payout: self.total_payout as int,
            first_deposit_time: self.first_deposit_time as int,
            ate_at: self.ate_at as int,
            baked_at: self.baked_at as int,
            beans: self.beans as int,
            upline: self.upline,
            has_referred: self.has_referred as int,
            referrals: self.referrals@,
            bonus_eligible_referrals: self.bonus_eligible_referrals@,
        }
    }
}

/// The per-wallet bean ceiling: the wallet TVL limit converted to beans.
pub open spec fn bean_cap() -> int {
    MAX_WALLET_TVL_IN_SOL as int / SOL_PER_BEAN as int
}

/// No identity occurs twice in the sequence.
pub open spec fn no_duplicates(s: Seq<Identity>) -> bool {
    forall|i: int, j: int| 0 <= i < j < s.len() ==> s[i] != s[j]
}

impl UserStateView {
    /// Well-formedness every operation establishes and preserves: the bean
    /// balance respects the wallet cap, the referrer flag is boolean, and the
    /// bonus-eligible list is duplicate-free.
    pub open spec fn wf(self) -> bool {
        &&& 0 <= self.beans <= bean_cap()
        &&& 0 <= self.has_referred <= 1
        &&& no_duplicates(self.bonus_eligible_referrals)
    }
}

/// The view of a freshly created record for `user`: all counters and times
/// zero, no referrer, empty referral lists.
pub open spec fn is_fresh_user(v: UserStateView, user: Identity) -> bool {
    &&& v.user == user
    &&& v.total_deposit == 0
    &&& v.total_payout == 0
    &&& v.first_deposit_time == 0
    &&& v.ate_at == 0
    &&& v.baked_at == 0
    &&& v.beans == 0
    &&& v.upline.spec_is_zero()
    &&& v.has_referred == 0
    &&& v.referrals == Seq::<Identity>::empty()
    &&& v.bonus_eligible_referrals == Seq::<Identity>::empty()
}

impl UserState {
    /// A fresh record for `user`: all counters and times zero, no referrer,
    /// empty referral lists.
    pub fn new(user: Identity) -> (r: UserState)
        ensures
            is_fresh_user(r@, user),
            r@.wf(),
    {
        let r = UserState {
            user,
            total_deposit: 0,
            total_payout: 0,
            first_deposit_time: 0,
            ate_at: 0,
            baked_at: 0,
            beans: 0,
            upline: Identity::zero(),
            has_referred: 0,
            referrals: Vec::new(),
            bonus_eligible_referrals: Vec::new(),
        };
        proof {
            assert(r@.referrals =~= Seq::<Identity>::empty());
            assert(r@.bonus_eligible_referrals =~= Seq::<Identity>::empty());
        }
        r
    }
}

} // verus!
