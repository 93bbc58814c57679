//! The formula library: pure conversions between currency and beans, fee and
//! tax percentages, time-prorated reward accrual and payout ceilings. Each
//! executable function mirrors a spec function over the mathematical view of
//! the participant record; operations that depended on the wall clock take
//! the current time as an argument.
//!
//! All arithmetic is integer arithmetic with floor division. Preconditions
//! exclude exactly the inputs on which the original arithmetic would abort:
//! products past `u64::MAX` and clock values earlier than a stored timestamp.

use vstd::prelude::*;

use crate::constants::MAX_DAILY_REWARDS_IN_SOL;
use crate::constants::MAX_WALLET_TVL_IN_SOL;
use crate::constants::SECONDS_PER_DAY;
use crate::constants::SOL_PER_BEAN;
use crate::identity::Identity;
use crate::states::bean_cap;
use crate::states::UserState;
use crate::states::UserStateView;

verus! {

/// `amount * pct / 100`, the integer percentage used for every fee and tax.
pub open spec fn spec_percent_from_amount(amount: int, fee: int) -> int {
    amount * fee / 100
}

/// Currency to beans: floor division by the conversion rate.
pub open spec fn spec_sol_to_beans(sol_amount: int) -> int {
    sol_amount / (SOL_PER_BEAN as int)
}

/// Beans to currency: exact multiplication by the conversion rate.
pub open spec fn spec_beans_to_sol(beans_amount: int) -> int {
    beans_amount * (SOL_PER_BEAN as int)
}

/// Saturating credit: `min(beans + delta, bean_cap())`. Excess accrual above
/// the per-wallet cap is silently discarded.
pub open spec fn spec_add_beans(beans: int, delta: int) -> int {
    if beans + delta > bean_cap() {
        bean_cap()
    } else {
        beans + delta
    }
}

/// Lifetime payout ceiling: three times everything ever deposited.
pub open spec fn spec_max_payout(u: UserStateView) -> int {
    u.total_deposit * 3
}

/// Reference time for the withdrawal tax: the last withdrawal, or the first
/// deposit if the account has never withdrawn.
pub open spec fn spec_eat_reference(u: UserStateView) -> int {
    if u.ate_at != 0 {
        u.ate_at
    } else {
        u.first_deposit_time
    }
}

/// Reference time for reward accrual: the last compound, else the last
/// withdrawal, else the first deposit.
pub open spec fn spec_action_reference(u: UserStateView) -> int {
    if u.baked_at != 0 {
        u.baked_at
    } else if u.ate_at != 0 {
        u.ate_at
    } else {
        u.first_deposit_time
    }
}

/// Whole days elapsed since the tax reference time.
pub open spec fn spec_days_since_last_eat(u: UserStateView, now: int) -> int {
    (now - spec_eat_reference(u)) / (SECONDS_PER_DAY as int)
}

/// The decaying tax table: day `d` since the last withdrawal is taxed at
/// `90 - 10 * (d % 10)` percent, so the rate falls from 90 to 0 over ten
/// days and then cycles.
pub open spec fn spec_tax_for_days(days_passed: int) -> int {
    let last_digit = days_passed % 10;
    if last_digit == 0 {
        90
    } else if last_digit == 1 {
        80
    } else if last_digit == 2 {
        70
    } else if last_digit == 3 {
        60
    } else if last_digit == 4 {
        50
    } else if last_digit == 5 {
        40
    } else if last_digit == 6 {
        30
    } else if last_digit == 7 {
        20
    } else if last_digit == 8 {
        10
    } else {
        0
    }
}

/// The withdrawal tax rate for an account at time `now`.
pub open spec fn spec_tax_percent(u: UserStateView, now: int) -> int {
    spec_tax_for_days(spec_days_since_last_eat(u, now))
}

/// Nominal daily reward rate in millionths per day, stepped by how many
/// referred accounts have crossed the bonus deposit threshold.
pub open spec fn spec_daily_reward(ref_count: int) -> int {
    if ref_count < 10 {
        30000
    } else if ref_count < 25 {
        35000
    } else if ref_count < 50 {
        40000
    } else if ref_count < 100 {
        45000
    } else if ref_count < 150 {
        50000
    } else if ref_count < 250 {
        55000
    } else {
        60000
    }
}

/// Beans rewarded per day at the given rate: the rate applied as a
/// percentage of the balance.
pub open spec fn spec_reward_per_day(beans: int, daily_reward_factor: int) -> int {
    spec_percent_from_amount(beans, daily_reward_factor)
}

/// Scaled per-second reward, before proration by elapsed time.
pub open spec fn spec_rewards_per_second(beans: int, daily_reward_factor: int) -> int {
    spec_reward_per_day(beans, daily_reward_factor) * 1000 / (SECONDS_PER_DAY as int)
}

/// Simple interest: the per-second reward times the elapsed seconds, with
/// the scaling divided back out.
pub open spec fn spec_beans_reward(beans: int, daily_reward_factor: int, seconds_passed: int) -> int {
    spec_rewards_per_second(beans, daily_reward_factor) * seconds_passed / 10_000_000
}

/// Ceiling on one accrual, in beans.
pub open spec fn spec_daily_reward_cap() -> int {
    MAX_DAILY_REWARDS_IN_SOL as int / (SOL_PER_BEAN as int)
}

/// The reward rate an account currently earns.
pub open spec fn spec_user_daily_reward(u: UserStateView) -> int {
    spec_daily_reward(u.bonus_eligible_referrals.len() as int)
}

/// The accrued, not yet credited reward of an account at time `now`: simple
/// interest on the balance since the last action, capped per accrual.
pub open spec fn spec_rewarded_beans(u: UserStateView, now: int) -> int {
    let raw = spec_beans_reward(u.beans, spec_user_daily_reward(u), now - spec_action_reference(u));
    if raw >= spec_daily_reward_cap() {
        spec_daily_reward_cap()
    } else {
        raw
    }
}

/// Holds when the accrual arithmetic for this account at time `now` stays
/// within `u64`; the only factor not already bounded by well-formedness.
pub open spec fn reward_fits(u: UserStateView, now: int) -> bool {
    spec_rewards_per_second(u.beans, spec_user_daily_reward(u)) * (now - spec_action_reference(u))
        <= u64::MAX
}

/// `amount * fee / 100`, integer percentage with floor division.
pub fn percent_from_amount(amount: u64, fee: u64) -> (r: u64)
    requires
        amount * fee <= u64::MAX,
    ensures
        r == spec_percent_from_amount(amount as int, fee as int),
{
    amount * fee / 100
}

/// Converts lamports to whole beans (floor).
pub fn sol_to_beans(sol_amount: u64) -> (r: u64)
    ensures
        r == spec_sol_to_beans(sol_amount as int),
{
    sol_amount / SOL_PER_BEAN
}

/// Converts whole beans to lamports (exact).
pub fn beans_to_sol(beans_amount: u64) -> (r: u64)
    requires
        beans_amount * SOL_PER_BEAN <= u64::MAX,
    ensures
        r == spec_beans_to_sol(beans_amount as int),
{
    beans_amount * SOL_PER_BEAN
}

/// Credits beans to the account's balance, saturating at the wallet cap:
/// once the cap is reached, further credits change nothing.
pub fn add_beans(user_state: &UserState, beans_to_add: u64) -> (r: u64)
    requires
        user_state@.beans + beans_to_add <= u64::MAX,
    ensures
        r == spec_add_beans(user_state@.beans, beans_to_add as int),
        r <= bean_cap(),
{
    let total_beans = user_state.beans + beans_to_add;
    let max_beans = sol_to_beans(MAX_WALLET_TVL_IN_SOL);
    if total_beans > max_beans {
        max_beans
    } else {
        total_beans
    }
}

/// True once the bean balance has reached the per-wallet cap.
pub fn max_tvl_reached(user_state: &UserState) -> (r: bool)
    ensures
        r == (user_state@.beans >= bean_cap()),
{
    user_state.beans >= sol_to_beans(MAX_WALLET_TVL_IN_SOL)
}

/// The lifetime payout ceiling: exactly three times the cumulative deposit.
pub fn max_payout(user_state: &UserState) -> (r: u64)
    requires
        user_state@.total_deposit * 3 <= u64::MAX,
    ensures
        r == spec_max_payout(user_state@),
{
    user_state.total_deposit * 3
}

/// True once everything the ceiling allows has been paid out.
pub fn max_payout_reached(user_state: &UserState) -> (r: bool)
    requires
        user_state@.total_deposit * 3 <= u64::MAX,
    ensures
        r == (user_state@.total_payout >= spec_max_payout(user_state@)),
{
    user_state.total_payout >= max_payout(user_state)
}

/// Seconds elapsed since the tax reference time.
pub fn seconds_since_last_eat(user_state: &UserState, now: u64) -> (r: u64)
    requires
        now >= spec_eat_reference(user_state@),
    ensures
        r == now - spec_eat_reference(user_state@),
{
    let mut last_ate_or_first_deposit = user_state.ate_at;
    if last_ate_or_first_deposit == 0 {
        last_ate_or_first_deposit = user_state.first_deposit_time;
    }
    now - last_ate_or_first_deposit
}

/// Whole days elapsed since the tax reference time.
pub fn days_since_last_eat(user_state: &UserState, now: u64) -> (r: u64)
    requires
        now >= spec_eat_reference(user_state@),
    ensures
        r == spec_days_since_last_eat(user_state@, now as int),
{
    let seconds_passed = seconds_since_last_eat(user_state, now);
    seconds_passed / SECONDS_PER_DAY
}

/// The current withdrawal tax rate in percent: 90 on the day of the last
/// withdrawal, falling by ten points per day to 0, cycling every ten days.
pub fn has_bean_taxed(user_state: &UserState, now: u64) -> (r: u64)
    requires
        now >= spec_eat_reference(user_state@),
    ensures
        r == spec_tax_percent(user_state@, now as int),
        r <= 90,
{
    let days_passed: u64 = days_since_last_eat(user_state, now);
    let last_digit = days_passed % 10;
    match last_digit {
        0 => 90,
        1 => 80,
        2 => 70,
        3 => 60,
        4 => 50,
        5 => 40,
        6 => 30,
        7 => 20,
        8 => 10,
        _ => 0,
    }
}

/// Seconds elapsed since the accrual reference time.
pub fn seconds_since_last_action(user_state: &UserState, now: u64) -> (r: u64)
    requires
        now >= spec_action_reference(user_state@),
    ensures
        r == now - spec_action_reference(user_state@),
{
    let mut last_timestamp = user_state.baked_at;
    if last_timestamp == 0 {
        last_timestamp = user_state.ate_at;
    }
    if last_timestamp == 0 {
        last_timestamp = user_state.first_deposit_time;
    }
    now - last_timestamp
}

/// The account's current daily reward rate, stepped by its bonus-eligible
/// referral count.
pub fn daily_reward(user_state: &UserState) -> (r: u64)
    ensures
        r == spec_user_daily_reward(user_state@),
        30000 <= r <= 60000,
{
    let ref_count = user_state.bonus_eligible_referrals.len();
    if ref_count < 10 {
        30000
    } else if ref_count < 25 {
        35000
    } else if ref_count < 50 {
        40000
    } else if ref_count < 100 {
        45000
    } else if ref_count < 150 {
        50000
    } else if ref_count < 250 {
        55000
    } else {
        60000
    }
}

/// Simple interest on the balance: per-second reward times elapsed seconds.
pub fn calc_beans_reward(user_state: &UserState, seconds_passed: u64, daily_reward_factor: u64) -> (r: u64)
    requires
        user_state@.beans * daily_reward_factor <= u64::MAX,
        spec_reward_per_day(user_state@.beans, daily_reward_factor as int) * 1000 <= u64::MAX,
        spec_rewards_per_second(user_state@.beans, daily_reward_factor as int) * seconds_passed
            <= u64::MAX,
    ensures
        r == spec_beans_reward(user_state@.beans, daily_reward_factor as int, seconds_passed as int),
{
    let reward_per_day = percent_from_amount(user_state.beans, daily_reward_factor);
    let rewards_per_second = reward_per_day * 1000 / SECONDS_PER_DAY;
    let beans_rewarded = rewards_per_second * seconds_passed / 10_000_000;
    beans_rewarded
}

/// The reward an account has accrued since its last action at time `now`,
/// capped at the per-accrual ceiling.
pub fn rewarded_beans(user_state: &UserState, now: u64) -> (r: u64)
    requires
        user_state@.wf(),
        now >= spec_action_reference(user_state@),
        reward_fits(user_state@, now as int),
    ensures
        r == spec_rewarded_beans(user_state@, now as int),
        r <= spec_daily_reward_cap(),
{
    let seconds_passed = seconds_since_last_action(user_state, now);
    let daily_reward_factor = daily_reward(user_state);
    proof {
        assert(user_state@.beans * daily_reward_factor <= bean_cap() * 60000) by (nonlinear_arith)
            requires
                0 <= user_state@.beans <= bean_cap(),
                30000 <= daily_reward_factor <= 60000,
        ;
    }
    let beans_rewarded = calc_beans_reward(user_state, seconds_passed, daily_reward_factor);
    let reward_cap = sol_to_beans(MAX_DAILY_REWARDS_IN_SOL);
    if beans_rewarded >= reward_cap {
        reward_cap
    } else {
        beans_rewarded
    }
}

/// The decaying tax applied to a withdrawal amount: the complement of the
/// current tax rate, as a percentage of the amount.
pub fn add_withdrawal_taxes(user_state: &UserState, sol_withdrawal_amt: u64, now: u64) -> (r: u64)
    requires
        now >= spec_eat_reference(user_state@),
        sol_withdrawal_amt * 100 <= u64::MAX,
    ensures
        r == spec_percent_from_amount(
            sol_withdrawal_amt as int,
            100 - spec_tax_percent(user_state@, now as int),
        ),
{
    let tax = has_bean_taxed(user_state, now);
    proof {
        assert(sol_withdrawal_amt * (100 - tax) <= sol_withdrawal_amt * 100) by (nonlinear_arith)
            requires
                tax <= 90,
        ;
    }
    percent_from_amount(sol_withdrawal_amt, 100 - tax)
}

/// Half of the tax-rate share of a withdrawal amount, earmarked for the
/// giveaway recipient. Computed on the post-fee amount.
pub fn calc_giveaway_amount(user_state: &UserState, sol_withdrawal_amount: u64, now: u64) -> (r: u64)
    requires
        now >= spec_eat_reference(user_state@),
        sol_withdrawal_amount * 100 <= u64::MAX,
    ensures
        r == spec_percent_from_amount(
            sol_withdrawal_amount as int,
            spec_tax_percent(user_state@, now as int),
        ) / 2,
{
    let tax = has_bean_taxed(user_state, now);
    proof {
        assert(sol_withdrawal_amount * tax <= sol_withdrawal_amount * 100) by (nonlinear_arith)
            requires
                tax <= 90,
        ;
    }
    percent_from_amount(sol_withdrawal_amount, tax) / 2
}

/// Whether `user_key` is already among the referrer's bonus-eligible
/// referrals.
pub fn ref_exists(ref_user_state: &UserState, user_key: Identity) -> (r: bool)
    ensures
        r == ref_user_state@.bonus_eligible_referrals.contains(user_key),
{
    let n = ref_user_state.bonus_eligible_referrals.len();
    let mut i: usize = 0;
    while i < n
        invariant
            0 <= i <= n,
            n == ref_user_state@.bonus_eligible_referrals.len(),
            forall|j: int| 0 <= j < i ==> ref_user_state@.bonus_eligible_referrals[j] != user_key,
        decreases n - i,
    {
        if ref_user_state.bonus_eligible_referrals[i] == user_key {
            return true;
        }
        i += 1;
    }
    false
}

/// The tax table only ever yields rates between 0 and 90 percent.
pub proof fn lemma_tax_range(days_passed: int)
    ensures
        0 <= spec_tax_for_days(days_passed) <= 90,
{
}

/// An accrual is never negative: with a well-formed record and a clock at or
/// past the reference time, the reward formula yields at least zero.
pub proof fn lemma_rewarded_beans_nonneg(u: UserStateView, now: int)
    requires
        u.wf(),
        now >= spec_action_reference(u),
    ensures
        spec_rewarded_beans(u, now) >= 0,
{
    let factor = spec_user_daily_reward(u);
    let secs = now - spec_action_reference(u);
    assert(u.beans * factor >= 0) by (nonlinear_arith)
        requires
            u.beans >= 0,
            factor >= 0,
    ;
    let rps = spec_rewards_per_second(u.beans, factor);
    assert(rps * secs >= 0) by (nonlinear_arith)
        requires
            rps >= 0,
            secs >= 0,
    ;
}

/// Once the balance sits at the wallet cap, crediting any further amount
/// leaves it unchanged.
pub proof fn lemma_add_beans_fixed_at_cap(beans: int, delta: int)
    requires
        beans == bean_cap(),
        delta >= 0,
    ensures
        spec_add_beans(beans, delta) == beans,
{
}

/// The tax table in closed form: day `d` is taxed at `90 - 10 * (d % 10)`.
pub proof fn lemma_tax_closed_form(days_passed: int)
    ensures
        spec_tax_for_days(days_passed) == 90 - 10 * (days_passed % 10),
{
}

/// The withdrawal tax rate is periodic in the day count with period ten.
pub proof fn lemma_tax_periodic(days_passed: int)
    requires
        days_passed >= 0,
    ensures
        spec_tax_for_days(days_passed + 10) == spec_tax_for_days(days_passed),
{
    assert((days_passed + 10) % 10 == days_passed % 10) by (nonlinear_arith)
        requires
            days_passed >= 0,
    ;
}

/// Within one ten-day period the tax rate is strictly decreasing: a later
/// day of the period is taxed strictly less than an earlier one.
pub proof fn lemma_tax_strictly_decreasing(d1: int, d2: int)
    requires
        d1 >= 0,
        d2 >= 0,
        d1 % 10 < d2 % 10,
    ensures
        spec_tax_for_days(d2) < spec_tax_for_days(d1),
{
}

} // verus!
