//! Withdrawal ("eating beans"): converts the accrued reward to currency,
//! takes the withdrawal fee, earmarks half the tax share of the fee-reduced
//! amount for the giveaway recipient, applies the decaying tax, clamps
//! against the lifetime payout ceiling, and pays out from the pool.
//!
//! Two asymmetries of the scheme are preserved deliberately: the giveaway is
//! computed on the fee-reduced amount before the tax, and the running payout
//! total in the unclamped case is advanced by the tax-adjusted *gross* value
//! while the actual transfer uses the tax-adjusted fee-reduced value.
//!
//! The handler only succeeds if the pool's balance stays strictly above the
//! rent floor after all five transfers; otherwise, as on every refusal, the
//! record is left untouched and no transfer is returned.

use vstd::prelude::*;

use crate::constants::CEO_FEE;
use crate::constants::DEV_FEE;
use crate::constants::MARKETING_FEE;
use crate::constants::MAX_DAILY_REWARDS_IN_SOL;
use crate::constants::WITHDRAWAL_FEE;
use crate::error::BeanError;
use crate::events::EventAte;
use crate::identity::Identity;
use crate::states::UserState;
use crate::states::UserStateView;
use crate::utils::add_withdrawal_taxes;
use crate::utils::beans_to_sol;
use crate::utils::calc_giveaway_amount;
use crate::utils::max_payout;
use crate::utils::max_payout_reached;
use crate::utils::percent_from_amount;
use crate::utils::reward_fits;
use crate::utils::rewarded_beans;
use crate::utils::spec_action_reference;
use crate::utils::spec_beans_to_sol;
use crate::utils::spec_eat_reference;
use crate::utils::spec_max_payout;
use crate::utils::spec_percent_from_amount;
use crate::utils::spec_rewarded_beans;
use crate::utils::spec_tax_percent;

verus! {

/// The lamports transfers a withdrawal triggers, all paid by the pool.
#[derive(Clone, Copy, PartialEq, Eq, Structural, Debug)]
pub struct EatTransfers {
    pub giveaway: u64,
    pub dev_fee: u64,
    pub marketing_fee: u64,
    pub ceo_fee: u64,
    pub payout: u64,
}

/// The accrued reward converted to lamports, before any fee.
pub open spec fn eat_gross(u: UserStateView, now: int) -> int {
    spec_beans_to_sol(spec_rewarded_beans(u, now))
}

/// The withdrawal fee taken from the gross value.
pub open spec fn eat_fee(u: UserStateView, now: int) -> int {
    spec_percent_from_amount(eat_gross(u, now), WITHDRAWAL_FEE as int)
}

/// The fee-reduced withdrawal value the tax then applies to.
pub open spec fn eat_tentative(u: UserStateView, now: int) -> int {
    eat_gross(u, now) - eat_fee(u, now)
}

/// The giveaway earmark: half the tax-rate share of the fee-reduced value.
pub open spec fn eat_giveaway(u: UserStateView, now: int) -> int {
    spec_percent_from_amount(eat_tentative(u, now), spec_tax_percent(u, now)) / 2
}

/// Whether this withdrawal runs into the lifetime ceiling.
pub open spec fn eat_clamped(u: UserStateView, now: int) -> bool {
    eat_gross(u, now) + u.total_payout >= spec_max_payout(u)
}

/// What the pool actually pays the withdrawer: the remainder up to the
/// ceiling when clamped, otherwise the tax-adjusted fee-reduced value.
pub open spec fn eat_payout_transfer(u: UserStateView, now: int) -> int {
    if eat_clamped(u, now) {
        spec_max_payout(u) - u.total_payout
    } else {
        spec_percent_from_amount(eat_tentative(u, now), 100 - spec_tax_percent(u, now))
    }
}

/// The running payout total afterwards: the ceiling when clamped, otherwise
/// advanced by the tax-adjusted *gross* value (not the fee-reduced one that
/// is actually transferred).
pub open spec fn eat_total_payout_after(u: UserStateView, now: int) -> int {
    if eat_clamped(u, now) {
        spec_max_payout(u)
    } else {
        u.total_payout + spec_percent_from_amount(eat_gross(u, now), 100 - spec_tax_percent(u, now))
    }
}

/// Everything that leaves the pool: giveaway, the three fee shares, and the
/// payout itself.
pub open spec fn eat_total_out(u: UserStateView, now: int) -> int {
    eat_giveaway(u, now) + spec_percent_from_amount(eat_fee(u, now), DEV_FEE as int)
        + spec_percent_from_amount(eat_fee(u, now), MARKETING_FEE as int)
        + spec_percent_from_amount(eat_fee(u, now), CEO_FEE as int) + eat_payout_transfer(u, now)
}

/// Whether a withdrawal succeeds: a lifetime deposit exists, the ceiling is
/// not yet reached, and the pool stays strictly above the rent floor after
/// all transfers.
pub open spec fn eat_accepted(u: UserStateView, now: int, vault_balance: int, rent_floor: int) -> bool {
    &&& u.total_deposit > 0
    &&& u.total_payout < spec_max_payout(u)
    &&& vault_balance - eat_total_out(u, now) > rent_floor
}

/// The withdrawer's record after an accepted withdrawal: payout total
/// advanced, both action times stamped, balances otherwise untouched.
pub open spec fn eat_user_after(u: UserStateView, now: int) -> UserStateView {
    UserStateView {
        user: u.user,
        total_deposit: u.total_deposit,
        total_payout: eat_total_payout_after(u, now),
        first_deposit_time: u.first_deposit_time,
        ate_at: now,
        baked_at: now,
        beans: u.beans,
        upline: u.upline,
        has_referred: u.has_referred,
        referrals: u.referrals,
        bonus_eligible_referrals: u.bonus_eligible_referrals,
    }
}

/// Processes a withdrawal by `user_key` at time `now`, against the pool's
/// current balance and the host's rent floor. Returns the five transfers the
/// pool must make and the notification event; on refusal the record is left
/// untouched.
pub fn handle(
    user_state: &mut UserState,
    user_key: Identity,
    now: u64,
    vault_balance: u64,
    rent_floor: u64,
) -> (r: Result<(EatTransfers, EventAte), BeanError>)
    requires
        old(user_state)@.wf(),
        old(user_state)@.user == user_key,
        now >= spec_action_reference(old(user_state)@),
        now >= spec_eat_reference(old(user_state)@),
        reward_fits(old(user_state)@, now as int),
        3 * old(user_state)@.total_deposit + MAX_DAILY_REWARDS_IN_SOL <= u64::MAX,
    ensures
        r is Err ==> *final(user_state) == *old(user_state),
        (r == Err::<(EatTransfers, EventAte), BeanError>(BeanError::InvalidAction)) <==> old(
            user_state,
        )@.total_deposit == 0,
        (r == Err::<(EatTransfers, EventAte), BeanError>(BeanError::MaxPayoutReached)) <==> (old(
            user_state,
        )@.total_deposit > 0 && old(user_state)@.total_payout >= spec_max_payout(
            old(user_state)@,
        )),
        (r == Err::<(EatTransfers, EventAte), BeanError>(BeanError::InsufficientAmount)) <==> (old(
            user_state,
        )@.total_deposit > 0 && old(user_state)@.total_payout < spec_max_payout(old(user_state)@)
            && vault_balance - eat_total_out(old(user_state)@, now as int) <= rent_floor),
        r is Ok <==> eat_accepted(
            old(user_state)@,
            now as int,
            vault_balance as int,
            rent_floor as int,
        ),
        r is Ok ==> final(user_state)@ == eat_user_after(old(user_state)@, now as int),
        r is Ok ==> final(user_state)@.total_payout <= spec_max_payout(final(user_state)@),
        final(user_state)@.wf(),
        r matches Ok((t, ev)) ==> {
            &&& t.giveaway == eat_giveaway(old(user_state)@, now as int)
            &&& t.dev_fee == spec_percent_from_amount(
                eat_fee(old(user_state)@, now as int),
                DEV_FEE as int,
            )
            &&& t.marketing_fee == spec_percent_from_amount(
                eat_fee(old(user_state)@, now as int),
                MARKETING_FEE as int,
            )
            &&& t.ceo_fee == spec_percent_from_amount(
                eat_fee(old(user_state)@, now as int),
                CEO_FEE as int,
            )
            &&& t.payout == eat_payout_transfer(old(user_state)@, now as int)
            &&& ev.user_address == user_key
            &&& ev.sol_to_eat == t.payout
            &&& ev.beans_before_fee == spec_rewarded_beans(old(user_state)@, now as int)
        },
{
    if user_state.total_deposit == 0 {
        return Err(BeanError::InvalidAction);
    }
    if max_payout_reached(user_state) {
        return Err(BeanError::MaxPayoutReached);
    }

    let beans_before_fee = rewarded_beans(user_state, now);
    let beans_in_sol_before_fee = beans_to_sol(beans_before_fee);
    let total_sol_fee = percent_from_amount(beans_in_sol_before_fee, WITHDRAWAL_FEE);
    proof {
        assert(beans_in_sol_before_fee * 5 / 100 <= beans_in_sol_before_fee) by (nonlinear_arith)
            requires
                beans_in_sol_before_fee >= 0,
        ;
    }
    let tentative = beans_in_sol_before_fee - total_sol_fee;
    let for_giveway = calc_giveaway_amount(user_state, tentative, now);
    let taxed_tentative = add_withdrawal_taxes(user_state, tentative, now);

    let maxp = max_payout(user_state);
    let clamped = beans_in_sol_before_fee + user_state.total_payout >= maxp;
    let payout_transfer: u64;
    let total_payout_after: u64;
    if clamped {
        payout_transfer = maxp - user_state.total_payout;
        total_payout_after = maxp;
    } else {
        let after_tax = add_withdrawal_taxes(user_state, beans_in_sol_before_fee, now);
        proof {
            let tax = spec_tax_percent(user_state@, now as int);
            assert(beans_in_sol_before_fee * (100 - tax) / 100 <= beans_in_sol_before_fee)
                by (nonlinear_arith)
                requires
                    0 <= tax <= 90,
                    beans_in_sol_before_fee >= 0,
            ;
        }
        payout_transfer = taxed_tentative;
        total_payout_after = user_state.total_payout + after_tax;
    }

    let dev_fee = percent_from_amount(total_sol_fee, DEV_FEE);
    let market_fee = percent_from_amount(total_sol_fee, MARKETING_FEE);
    let ceo_fee = percent_from_amount(total_sol_fee, CEO_FEE);

    let total_out: u128 = (for_giveway as u128) + (dev_fee as u128) + (market_fee as u128) + (
    ceo_fee as u128) + (payout_transfer as u128);
    if (vault_balance as u128) <= (rent_floor as u128) + total_out {
        return Err(BeanError::InsufficientAmount);
    }

    user_state.total_payout = total_payout_after;
    user_state.ate_at = now;
    user_state.baked_at = now;

    let transfers = EatTransfers {
        giveaway: for_giveway,
        dev_fee,
        marketing_fee: market_fee,
        ceo_fee,
        payout: payout_transfer,
    };
    let event = EventAte { user_address: user_key, sol_to_eat: payout_transfer, beans_before_fee };
    proof {
        assert(user_state@ =~= eat_user_after(old(user_state)@, now as int));
    }
    Ok((transfers, event))
}

} // verus!
