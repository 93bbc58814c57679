use baked_beans::identity::Identity;
use baked_beans::states::UserState;
use baked_beans::utils::add_beans;
use baked_beans::utils::add_withdrawal_taxes;
use baked_beans::utils::beans_to_sol;
use baked_beans::utils::calc_beans_reward;
use baked_beans::utils::calc_giveaway_amount;
use baked_beans::utils::daily_reward;
use baked_beans::utils::days_since_last_eat;
use baked_beans::utils::has_bean_taxed;
use baked_beans::utils::max_payout;
use baked_beans::utils::max_payout_reached;
use baked_beans::utils::max_tvl_reached;
use baked_beans::utils::percent_from_amount;
use baked_beans::utils::ref_exists;
use baked_beans::utils::rewarded_beans;
use baked_beans::utils::seconds_since_last_action;
use baked_beans::utils::seconds_since_last_eat;
use baked_beans::utils::sol_to_beans;

const BEAN_CAP: u64 = 200_000_000;

fn id(n: u64) -> Identity {
    Identity { w0: n, w1: 0, w2: 0, w3: 0 }
}

fn user(n: u64) -> UserState {
    UserState::new(id(n))
}

#[test]
fn percent_exact_values() {
    assert_eq!(percent_from_amount(10_000_000, 1), 100_000);
    assert_eq!(percent_from_amount(100_000, 30000), 30_000_000);
    assert_eq!(percent_from_amount(99, 1), 0);
    assert_eq!(percent_from_amount(0, 66), 0);
    assert_eq!(percent_from_amount(149_950, 19), 28_490);
}

#[test]
fn sol_bean_conversions() {
    assert_eq!(sol_to_beans(9_900_000), 9900);
    assert_eq!(sol_to_beans(999), 0);
    assert_eq!(beans_to_sol(9900), 9_900_000);
    assert_eq!(beans_to_sol(0), 0);
}

#[test]
fn add_beans_below_cap() {
    let mut u = user(1);
    u.beans = 100;
    assert_eq!(add_beans(&u, 50), 150);
}

#[test]
fn add_beans_saturates_at_cap() {
    let mut u = user(1);
    u.beans = BEAN_CAP - 10;
    assert_eq!(add_beans(&u, 11), BEAN_CAP);
}

#[test]
fn add_beans_idempotent_at_cap() {
    let mut u = user(1);
    u.beans = BEAN_CAP;
    assert_eq!(add_beans(&u, 0), BEAN_CAP);
    assert_eq!(add_beans(&u, 1), BEAN_CAP);
    assert_eq!(add_beans(&u, 123_456_789), BEAN_CAP);
}

#[test]
fn tvl_reached_boundary() {
    let mut u = user(1);
    u.beans = BEAN_CAP - 1;
    assert!(!max_tvl_reached(&u));
    u.beans = BEAN_CAP;
    assert!(max_tvl_reached(&u));
}

#[test]
fn max_payout_is_three_times_deposit() {
    let mut u = user(1);
    u.total_deposit = 10_000_000;
    assert_eq!(max_payout(&u), 30_000_000);
    u.total_payout = 29_999_999;
    assert!(!max_payout_reached(&u));
    u.total_payout = 30_000_000;
    assert!(max_payout_reached(&u));
}

#[test]
fn tax_table_decreases_over_ten_days() {
    let mut u = user(1);
    u.ate_at = 1_000_000;
    let expected: [u64; 10] = [90, 80, 70, 60, 50, 40, 30, 20, 10, 0];
    let mut previous: Option<u64> = None;
    for (day, want) in expected.iter().enumerate() {
        let now = 1_000_000 + (day as u64) * 86400;
        let rate = has_bean_taxed(&u, now);
        assert_eq!(rate, *want);
        if let Some(p) = previous {
            assert!(rate < p);
        }
        previous = Some(rate);
    }
}

#[test]
fn tax_table_is_periodic() {
    let mut u = user(1);
    u.ate_at = 1_000_000;
    assert_eq!(has_bean_taxed(&u, 1_000_000 + 10 * 86400), 90);
    assert_eq!(has_bean_taxed(&u, 1_000_000 + 13 * 86400), 60);
    assert_eq!(has_bean_taxed(&u, 1_000_000 + 29 * 86400), 0);
}

#[test]
fn eat_reference_prefers_last_eat() {
    let mut u = user(1);
    u.first_deposit_time = 500;
    assert_eq!(seconds_since_last_eat(&u, 800), 300);
    assert_eq!(days_since_last_eat(&u, 500 + 2 * 86400 + 5), 2);
    u.ate_at = 700;
    assert_eq!(seconds_since_last_eat(&u, 800), 100);
}

#[test]
fn action_reference_precedence() {
    let mut u = user(1);
    u.first_deposit_time = 100;
    assert_eq!(seconds_since_last_action(&u, 1000), 900);
    u.ate_at = 400;
    assert_eq!(seconds_since_last_action(&u, 1000), 600);
    u.baked_at = 900;
    assert_eq!(seconds_since_last_action(&u, 1000), 100);
}

#[test]
fn daily_reward_tiers() {
    let mut u = user(1);
    let tiers: [(u64, u64); 7] = [
        (0, 30000),
        (10, 35000),
        (25, 40000),
        (50, 45000),
        (100, 50000),
        (150, 55000),
        (250, 60000),
    ];
    for (count, want) in tiers.iter() {
        u.bonus_eligible_referrals = (0..*count).map(|i| id(1000 + i)).collect();
        assert_eq!(daily_reward(&u), *want);
    }
    u.bonus_eligible_referrals = (0..9).map(|i| id(1000 + i)).collect();
    assert_eq!(daily_reward(&u), 30000);
    u.bonus_eligible_referrals = (0..24).map(|i| id(1000 + i)).collect();
    assert_eq!(daily_reward(&u), 35000);
    u.bonus_eligible_referrals = (0..249).map(|i| id(1000 + i)).collect();
    assert_eq!(daily_reward(&u), 55000);
}

#[test]
fn beans_reward_one_day_scenario() {
    let mut u = user(1);
    u.beans = 100_000;
    // reward per day 30_000_000; per second 347_222; one day accrues
    // 347_222 * 86_400 / 10_000_000 = 2999 beans (floor).
    assert_eq!(calc_beans_reward(&u, 86_400, 30000), 2999);
}

#[test]
fn rewarded_beans_uses_elapsed_time() {
    let mut u = user(1);
    u.beans = 100_000;
    u.first_deposit_time = 1_000_000;
    u.total_deposit = 10_000_000;
    assert_eq!(rewarded_beans(&u, 1_000_000 + 86_400), 2999);
    assert_eq!(rewarded_beans(&u, 1_000_000), 0);
}

#[test]
fn rewarded_beans_capped_per_accrual() {
    let mut u = user(1);
    u.beans = BEAN_CAP;
    u.first_deposit_time = 1_000_000;
    // At the wallet cap the uncapped accrual over a year dwarfs the
    // per-accrual ceiling of 5_000_000 beans.
    assert_eq!(rewarded_beans(&u, 1_000_000 + 365 * 86_400), 5_000_000);
}

#[test]
fn withdrawal_tax_complement() {
    let mut u = user(1);
    u.ate_at = 1_000_000;
    // one day since the last eat: tax 80, keep 20 percent
    assert_eq!(add_withdrawal_taxes(&u, 2_849_050, 1_000_000 + 86_400), 569_810);
    // same day: tax 90, keep 10 percent
    assert_eq!(add_withdrawal_taxes(&u, 1000, 1_000_000), 100);
}

#[test]
fn giveaway_half_of_tax_share() {
    let mut u = user(1);
    u.ate_at = 1_000_000;
    // one day since the last eat: tax 80
    assert_eq!(calc_giveaway_amount(&u, 2_849_050, 1_000_000 + 86_400), 1_139_620);
}

#[test]
fn ref_exists_checks_bonus_list() {
    let mut u = user(1);
    u.bonus_eligible_referrals = vec![id(7), id(8)];
    u.referrals = vec![id(9)];
    assert!(ref_exists(&u, id(7)));
    assert!(ref_exists(&u, id(8)));
    assert!(!ref_exists(&u, id(9)));
    assert!(!ref_exists(&user(2), id(7)));
}
