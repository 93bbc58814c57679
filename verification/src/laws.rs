//! Laws of the deposit transition that go beyond any single call's
//! postcondition: the bonus-eligible referral set only ever grows, stays
//! duplicate-free, and the referrer's first-deposit bonus is unrepeatable.
//! Withdrawal and compounding never touch these lists (their contracts say
//! so directly), so the deposit transition is the only one these laws need
//! to speak about.

use vstd::prelude::*;

use crate::buy_beans::buy_ref_after;
use crate::buy_beans::buy_user_after;
use crate::buy_beans::grants_first_deposit_bonus;
use crate::eat_beans::eat_user_after;
use crate::identity::Identity;
use crate::states::no_duplicates;
use crate::states::UserStateView;
use crate::utils::lemma_rewarded_beans_nonneg;
use crate::utils::lemma_tax_range;
use crate::utils::spec_action_reference;
use crate::utils::spec_days_since_last_eat;
use crate::utils::spec_eat_reference;
use crate::utils::spec_max_payout;
use crate::utils::spec_rewarded_beans;
use crate::utils::spec_tax_percent;

verus! {

/// Membership in the bonus-eligible referral set is monotonic: an identity
/// present before a deposit is still present after it.
pub proof fn lemma_bonus_referrals_monotonic(
    u: UserStateView,
    refu: UserStateView,
    user_key: Identity,
    sol_amount: int,
    member: Identity,
)
    requires
        refu.bonus_eligible_referrals.contains(member),
    ensures
        buy_ref_after(u, refu, user_key, sol_amount).bonus_eligible_referrals.contains(member),
{
    let before = refu.bonus_eligible_referrals;
    let after = buy_ref_after(u, refu, user_key, sol_amount).bonus_eligible_referrals;
    let i = choose|i: int| 0 <= i < before.len() && before[i] == member;
    assert(after[i] == member);
}

/// The bonus-eligible referral set never acquires a duplicate: a deposit
/// appends the depositor only if it is not yet a member.
pub proof fn lemma_bonus_referrals_no_duplicates(
    u: UserStateView,
    refu: UserStateView,
    user_key: Identity,
    sol_amount: int,
)
    requires
        no_duplicates(refu.bonus_eligible_referrals),
    ensures
        no_duplicates(buy_ref_after(u, refu, user_key, sol_amount).bonus_eligible_referrals),
{
    let before = refu.bonus_eligible_referrals;
    let after = buy_ref_after(u, refu, user_key, sol_amount).bonus_eligible_referrals;
    if after != before {
        assert(!before.contains(user_key));
        assert(forall|i: int| 0 <= i < before.len() ==> before[i] != user_key);
    }
}

/// The cumulative counters never decrease: a deposit grows the deposit total
/// and leaves the payout total alone.
pub proof fn lemma_deposit_counters_monotonic(
    u: UserStateView,
    ref_user: Identity,
    sol_amount: int,
    now: int,
)
    requires
        sol_amount >= 0,
    ensures
        buy_user_after(u, ref_user, sol_amount, now).total_deposit >= u.total_deposit,
        buy_user_after(u, ref_user, sol_amount, now).total_payout == u.total_payout,
{
}

/// The cumulative counters never decrease: a withdrawal that has not yet met
/// the ceiling grows the payout total and leaves the deposit total alone.
pub proof fn lemma_payout_counter_monotonic(u: UserStateView, now: int)
    requires
        u.wf(),
        now >= spec_action_reference(u),
        now >= spec_eat_reference(u),
        u.total_payout <= spec_max_payout(u),
    ensures
        eat_user_after(u, now).total_payout >= u.total_payout,
        eat_user_after(u, now).total_deposit == u.total_deposit,
{
    lemma_rewarded_beans_nonneg(u, now);
    lemma_tax_range(spec_days_since_last_eat(u, now));
    let gross = spec_rewarded_beans(u, now) * 1000;
    let keep = 100 - spec_tax_percent(u, now);
    assert(gross * keep >= 0) by (nonlinear_arith)
        requires
            gross >= 0,
            keep >= 0,
    ;
}

/// The referral link is written at most once: a deposit records the named
/// referrer only while none is recorded yet, and from then on neither the
/// link nor the flag guarding it ever changes.
pub proof fn lemma_referrer_immutable(
    u: UserStateView,
    ref_user: Identity,
    sol_amount: int,
    now: int,
)
    ensures
        u.has_referred == 0 ==> buy_user_after(u, ref_user, sol_amount, now).upline == ref_user
            && buy_user_after(u, ref_user, sol_amount, now).has_referred == 1,
        u.has_referred != 0 ==> buy_user_after(u, ref_user, sol_amount, now).upline == u.upline
            && buy_user_after(u, ref_user, sol_amount, now).has_referred == u.has_referred,
{
}

/// The first-deposit bonus is granted only on the depositor's very first
/// deposit, and a deposit extinguishes the possibility for good: after any
/// accepted deposit the depositor's record can never grant it again.
pub proof fn lemma_first_deposit_bonus_once(
    u: UserStateView,
    ref_user: Identity,
    sol_amount: int,
    now: int,
)
    ensures
        grants_first_deposit_bonus(u) ==> u.total_deposit == 0,
        !grants_first_deposit_bonus(buy_user_after(u, ref_user, sol_amount, now)),
{
}

} // verus!
