//! Compounding ("baking"): credits the accrued reward to the bean balance
//! without moving funds. Requires a lifetime deposit and a balance below the
//! wallet cap; a rebake-only request additionally demands that the accrued
//! reward, in currency, exceeds the minimum bake amount.

use vstd::prelude::*;

use crate::constants::MIN_BAKE;
use crate::error::BeanError;
use crate::events::EventBaked;
use crate::identity::Identity;
use crate::states::bean_cap;
use crate::states::UserState;
use crate::states::UserStateView;
use crate::utils::add_beans;
use crate::utils::beans_to_sol;
use crate::utils::max_tvl_reached;
use crate::utils::reward_fits;
use crate::utils::rewarded_beans;
use crate::utils::spec_action_reference;
use crate::utils::spec_add_beans;
use crate::utils::spec_beans_to_sol;
use crate::utils::spec_rewarded_beans;

verus! {

/// Whether a compound request succeeds against this record at time `now`.
pub open spec fn bake_accepted(u: UserStateView, only_rebaking: int, now: int) -> bool {
    &&& u.beans < bean_cap()
    &&& u.total_deposit > 0
    &&& (only_rebaking == 1 ==> spec_beans_to_sol(spec_rewarded_beans(u, now)) > MIN_BAKE)
}

/// Credits the accrued reward to the balance (saturating at the wallet cap)
/// and stamps the compound time. On refusal the record is untouched.
pub fn handle(user_state: &mut UserState, user_key: Identity, only_rebaking: u8, now: u64) -> (r:
    Result<EventBaked, BeanError>)
    requires
        old(user_state)@.wf(),
        old(user_state)@.user == user_key,
        now >= spec_action_reference(old(user_state)@),
        reward_fits(old(user_state)@, now as int),
    ensures
        r is Err ==> *final(user_state) == *old(user_state),
        (r == Err::<EventBaked, BeanError>(BeanError::WalletTvlReached)) <==> old(
            user_state,
        )@.beans >= bean_cap(),
        (r == Err::<EventBaked, BeanError>(BeanError::InvalidAction)) <==> (old(user_state)@.beans
            < bean_cap() && old(user_state)@.total_deposit == 0),
        (r == Err::<EventBaked, BeanError>(BeanError::UnderMinBake)) <==> (old(user_state)@.beans
            < bean_cap() && old(user_state)@.total_deposit > 0 && only_rebaking == 1
            && spec_beans_to_sol(spec_rewarded_beans(old(user_state)@, now as int)) <= MIN_BAKE),
        r is Ok <==> bake_accepted(old(user_state)@, only_rebaking as int, now as int),
        r is Ok ==> final(user_state)@.beans == spec_add_beans(
            old(user_state)@.beans,
            spec_rewarded_beans(old(user_state)@, now as int),
        ),
        r is Ok ==> final(user_state)@.baked_at == now,
        r is Ok ==> {
            &&& final(user_state)@.user == old(user_state)@.user
            &&& final(user_state)@.total_deposit == old(user_state)@.total_deposit
            &&& final(user_state)@.total_payout == old(user_state)@.total_payout
            &&& final(user_state)@.first_deposit_time == old(user_state)@.first_deposit_time
            &&& final(user_state)@.ate_at == old(user_state)@.ate_at
            &&& final(user_state)@.upline == old(user_state)@.upline
            &&& final(user_state)@.has_referred == old(user_state)@.has_referred
            &&& final(user_state)@.referrals == old(user_state)@.referrals
            &&& final(user_state)@.bonus_eligible_referrals == old(
                user_state,
            )@.bonus_eligible_referrals
        },
        final(user_state)@.wf(),
        r matches Ok(ev) ==> {
            &&& ev.user_address == user_key
            &&& ev.ref_address == old(user_state).upline
            &&& ev.beans_from == old(user_state).beans
            &&& ev.beans_to == final(user_state).beans
        },
{
    if max_tvl_reached(user_state) {
        return Err(BeanError::WalletTvlReached);
    }
    if user_state.total_deposit == 0 {
        return Err(BeanError::InvalidAction);
    }
    if only_rebaking == 1 {
        let rewarded = rewarded_beans(user_state, now);
        if beans_to_sol(rewarded) <= MIN_BAKE {
            return Err(BeanError::UnderMinBake);
        }
    }
    let beans_from = user_state.beans;
    let beans_from_rewards = rewarded_beans(user_state, now);
    let total_beans = add_beans(user_state, beans_from_rewards);
    user_state.beans = total_beans;
    user_state.baked_at = now;
    Ok(
        EventBaked {
            user_address: user_key,
            ref_address: user_state.upline,
            beans_from,
            beans_to: user_state.beans,
        },
    )
}

} // verus!
