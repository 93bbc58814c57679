//! Deposits ("buying beans"): credits the fee-reduced deposit as beans,
//! records the referral link on the first deposit with a referrer, grants the
//! referrer a one-time first-deposit bonus, tracks bonus-eligible referrals,
//! and splits the collected fee among the fixed recipients, the remainder
//! going to the pool with the deposit itself.
//!
//! The handler mutates the registry and the two participant records and
//! returns the four transfers the host must execute from the depositor, plus
//! the notification event. On any refusal nothing is changed.

use vstd::prelude::*;

use vstd::arithmetic::div_mod::lemma_div_is_ordered;
use vstd::arithmetic::div_mod::lemma_div_nonincreasing;

use crate::constants::CEO_FEE;
use crate::constants::DEPOSIT_FEE;
use crate::constants::DEV_FEE;
use crate::constants::FIRST_DEPOSIT_REF_BONUS;
use crate::constants::MARKETING_FEE;
use crate::constants::MAX_WALLET_TVL_IN_SOL;
use crate::constants::MIN_DEPOSIT;
use crate::constants::MIN_REF_DEPOSIT_FOR_BONUS;
use crate::error::BeanError;
use crate::events::EventBoughtBeans;
use crate::identity::Identity;
use crate::states::GlobalState;
use crate::states::UserState;
use crate::states::UserStateView;
use crate::utils::add_beans;
use crate::utils::percent_from_amount;
use crate::utils::ref_exists;
use crate::utils::sol_to_beans;
use crate::utils::spec_add_beans;
use crate::utils::spec_percent_from_amount;
use crate::utils::spec_sol_to_beans;

verus! {

/// The lamports transfers a deposit triggers, all paid by the depositor:
/// three fee shares and the pool's part (the fee-reduced deposit plus
/// whatever the three shares left of the fee).
#[derive(Clone, Copy, PartialEq, Eq, Structural, Debug)]
pub struct BuyTransfers {
    pub dev_fee: u64,
    pub marketing_fee: u64,
    pub ceo_fee: u64,
    pub vault_amount: u64,
}

/// The fee collected on a deposit.
pub open spec fn buy_fee(sol_amount: int) -> int {
    spec_percent_from_amount(sol_amount, DEPOSIT_FEE as int)
}

/// The beans a deposit credits: the fee-reduced amount, converted.
pub open spec fn buy_beans_bought(sol_amount: int) -> int {
    spec_sol_to_beans(sol_amount - buy_fee(sol_amount))
}

/// Whether a deposit is accepted: at least the minimum, the wallet's
/// cumulative deposit before this one not yet over the ceiling, and a
/// referrer who is the administrator or has deposited.
pub open spec fn buy_accepted(
    g: GlobalState,
    u: UserStateView,
    refu: UserStateView,
    ref_user: Identity,
    sol_amount: int,
) -> bool {
    &&& sol_amount >= MIN_DEPOSIT
    &&& u.total_deposit <= MAX_WALLET_TVL_IN_SOL
    &&& (ref_user == g.authority || refu.total_deposit > 0)
}

/// Whether this deposit grants the referrer the one-time first-deposit
/// bonus: only when it establishes the referral link and is the depositor's
/// very first deposit.
pub open spec fn grants_first_deposit_bonus(u: UserStateView) -> bool {
    u.has_referred == 0 && u.total_deposit == 0
}

/// The depositor's record after an accepted deposit.
pub open spec fn buy_user_after(
    u: UserStateView,
    ref_user: Identity,
    sol_amount: int,
    now: int,
) -> UserStateView {
    UserStateView {
        user: u.user,
        total_deposit: u.total_deposit + sol_amount,
        total_payout: u.total_payout,
        first_deposit_time: if u.total_deposit == 0 {
            now
        } else {
            u.first_deposit_time
        },
        ate_at: u.ate_at,
        baked_at: u.baked_at,
        beans: spec_add_beans(u.beans, buy_beans_bought(sol_amount)),
        upline: if u.has_referred == 0 {
            ref_user
        } else {
            u.upline
        },
        has_referred: if u.has_referred == 0 {
            1
        } else {
            u.has_referred
        },
        referrals: u.referrals,
        bonus_eligible_referrals: u.bonus_eligible_referrals,
    }
}

/// The first-deposit bonus in beans: a fixed percentage of the whole
/// deposit's bean value.
pub open spec fn first_deposit_bonus(sol_amount: int) -> int {
    spec_percent_from_amount(spec_sol_to_beans(sol_amount), FIRST_DEPOSIT_REF_BONUS as int)
}

/// The referrer's record after an accepted deposit by `u` of `sol_amount`:
/// the depositor is appended to `referrals` when the link is first made, the
/// one-time bonus credited when it is also a first deposit, and the
/// depositor added to the bonus-eligible set once its cumulative deposit
/// crosses the threshold.
pub open spec fn buy_ref_after(
    u: UserStateView,
    refu: UserStateView,
    user_key: Identity,
    sol_amount: int,
) -> UserStateView {
    let referrals = if u.has_referred == 0 {
        refu.referrals.push(user_key)
    } else {
        refu.referrals
    };
    let beans = if grants_first_deposit_bonus(u) {
        spec_add_beans(refu.beans, first_deposit_bonus(sol_amount))
    } else {
        refu.beans
    };
    let has_referred_now = if u.has_referred == 0 {
        1int
    } else {
        u.has_referred
    };
    let bonus_eligible_referrals = if has_referred_now == 1 && u.total_deposit + sol_amount
        >= MIN_REF_DEPOSIT_FOR_BONUS && !refu.bonus_eligible_referrals.contains(user_key) {
        refu.bonus_eligible_referrals.push(user_key)
    } else {
        refu.bonus_eligible_referrals
    };
    UserStateView {
        user: refu.user,
        total_deposit: refu.total_deposit,
        total_payout: refu.total_payout,
        first_deposit_time: refu.first_deposit_time,
        ate_at: refu.ate_at,
        baked_at: refu.baked_at,
        beans,
        upline: refu.upline,
        has_referred: refu.has_referred,
        referrals,
        bonus_eligible_referrals,
    }
}

/// The registry after an accepted deposit: the participant count grows by
/// one on a first deposit.
pub open spec fn buy_global_after(g: GlobalState, u: UserStateView) -> GlobalState {
    GlobalState {
        is_initialized: g.is_initialized,
        authority: g.authority,
        vault: g.vault,
        dev_account: g.dev_account,
        marketing_account: g.marketing_account,
        giveaway_account: g.giveaway_account,
        ceo_account: g.ceo_account,
        total_bakers: if u.total_deposit == 0 {
            (g.total_bakers + 1) as u64
        } else {
            g.total_bakers
        },
    }
}

/// Processes a deposit of `sol_amount` lamports by `user_key`, naming
/// `ref_user` as referrer. Returns the transfers the depositor must make and
/// the notification event; on refusal every record is left untouched.
pub fn handle(
    global_state: &mut GlobalState,
    user_state: &mut UserState,
    ref_user_state: &mut UserState,
    user_key: Identity,
    ref_user: Identity,
    sol_amount: u64,
    now: u64,
) -> (r: Result<(BuyTransfers, EventBoughtBeans), BeanError>)
    requires
        old(user_state)@.wf(),
        old(ref_user_state)@.wf(),
        old(user_state)@.user == user_key,
        old(ref_user_state)@.user == ref_user,
        user_key != ref_user,
        old(user_state)@.total_deposit + sol_amount <= u64::MAX,
        old(global_state).total_bakers < u64::MAX,
    ensures
        r is Err ==> *final(global_state) == *old(global_state) && *final(user_state) == *old(
            user_state,
        ) && *final(ref_user_state) == *old(ref_user_state),
        (r == Err::<(BuyTransfers, EventBoughtBeans), BeanError>(BeanError::InsufficientDeposit))
            <==> sol_amount < MIN_DEPOSIT,
        (r == Err::<(BuyTransfers, EventBoughtBeans), BeanError>(BeanError::TotalDepositReached))
            <==> (sol_amount >= MIN_DEPOSIT && old(user_state)@.total_deposit
            > MAX_WALLET_TVL_IN_SOL),
        (r == Err::<(BuyTransfers, EventBoughtBeans), BeanError>(BeanError::ReferrerShouldInvest))
            <==> (sol_amount >= MIN_DEPOSIT && old(user_state)@.total_deposit
            <= MAX_WALLET_TVL_IN_SOL && !(ref_user == old(global_state).authority || old(
            ref_user_state,
        )@.total_deposit > 0)),
        r is Ok <==> buy_accepted(
            *old(global_state),
            old(user_state)@,
            old(ref_user_state)@,
            ref_user,
            sol_amount as int,
        ),
        r is Ok ==> final(user_state)@ == buy_user_after(
            old(user_state)@,
            ref_user,
            sol_amount as int,
            now as int,
        ),
        r is Ok ==> final(ref_user_state)@ == buy_ref_after(
            old(user_state)@,
            old(ref_user_state)@,
            user_key,
            sol_amount as int,
        ),
        r is Ok ==> *final(global_state) == buy_global_after(
            *old(global_state),
            old(user_state)@,
        ),
        r is Ok ==> final(user_state)@.beans == spec_add_beans(
            old(user_state)@.beans,
            spec_sol_to_beans(
                sol_amount - spec_percent_from_amount(sol_amount as int, DEPOSIT_FEE as int),
            ),
        ),
        final(user_state)@.wf(),
        final(ref_user_state)@.wf(),
        r matches Ok((t, ev)) ==> {
            &&& t.dev_fee == spec_percent_from_amount(buy_fee(sol_amount as int), DEV_FEE as int)
            &&& t.marketing_fee == spec_percent_from_amount(
                buy_fee(sol_amount as int),
                MARKETING_FEE as int,
            )
            &&& t.ceo_fee == spec_percent_from_amount(buy_fee(sol_amount as int), CEO_FEE as int)
            &&& t.vault_amount == sol_amount - t.dev_fee - t.marketing_fee - t.ceo_fee
            &&& ev.user_address == user_key
            &&& ev.ref_address == ref_user
            &&& ev.sol_amount == sol_amount
            &&& ev.beans_from == old(user_state).beans
            &&& ev.beans_to == final(user_state).beans
        },
{
    if sol_amount < MIN_DEPOSIT {
        return Err(BeanError::InsufficientDeposit);
    }
    if user_state.total_deposit > MAX_WALLET_TVL_IN_SOL {
        return Err(BeanError::TotalDepositReached);
    }
    if !(ref_user == global_state.authority || ref_user_state.total_deposit > 0) {
        return Err(BeanError::ReferrerShouldInvest);
    }

    let beans_from = user_state.beans;
    let total_sol_fee = percent_from_amount(sol_amount, DEPOSIT_FEE);
    proof {
        lemma_div_nonincreasing(sol_amount as int, 100);
        lemma_div_is_ordered(sol_amount as int, u64::MAX as int, 100);
    }
    let sol_value = sol_amount - total_sol_fee;
    let beans_bought = sol_to_beans(sol_value);
    proof {
        lemma_div_is_ordered(sol_value as int, u64::MAX as int, 1000);
    }
    let total_beans_bought = add_beans(user_state, beans_bought);
    user_state.beans = total_beans_bought;

    if user_state.has_referred == 0 {
        user_state.has_referred = 1;
        user_state.upline = ref_user;
        ref_user_state.referrals.push(user_key);
        if user_state.total_deposit == 0 {
            proof {
                lemma_div_is_ordered(sol_amount as int, u64::MAX as int, 1000);
            }
            let ref_bonus = percent_from_amount(sol_to_beans(sol_amount), FIRST_DEPOSIT_REF_BONUS);
            let ref_total = add_beans(ref_user_state, ref_bonus);
            ref_user_state.beans = ref_total;
        }
    }

    if user_state.total_deposit == 0 {
        user_state.first_deposit_time = now;
        global_state.total_bakers = global_state.total_bakers + 1;
    }

    user_state.total_deposit = user_state.total_deposit + sol_amount;

    if user_state.has_referred == 1 && user_state.total_deposit >= MIN_REF_DEPOSIT_FOR_BONUS
        && !ref_exists(ref_user_state, user_key) {
        ref_user_state.bonus_eligible_referrals.push(user_key);
    }

    let dev_fee = percent_from_amount(total_sol_fee, DEV_FEE);
    let market_fee = percent_from_amount(total_sol_fee, MARKETING_FEE);
    let ceo_fee = percent_from_amount(total_sol_fee, CEO_FEE);
    proof {
        assert(total_sol_fee * 10 / 100 + total_sol_fee * 19 / 100 + total_sol_fee * 66 / 100
            <= total_sol_fee) by (nonlinear_arith);
    }
    let remained_fee = total_sol_fee - dev_fee - market_fee - ceo_fee;

    let transfers = BuyTransfers {
        dev_fee,
        marketing_fee: market_fee,
        ceo_fee,
        vault_amount: sol_value + remained_fee,
    };
    let event = EventBoughtBeans {
        user_address: user_key,
        ref_address: ref_user,
        sol_amount,
        beans_from,
        beans_to: user_state.beans,
    };
    proof {
        assert(user_state@ =~= buy_user_after(
            old(user_state)@,
            ref_user,
            sol_amount as int,
            now as int,
        ));
        assert(ref_user_state@ =~= buy_ref_after(
            old(user_state)@,
            old(ref_user_state)@,
            user_key,
            sol_amount as int,
        ));
    }
    Ok((transfers, event))
}

} // verus!
