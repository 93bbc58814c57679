use baked_beans::eat_beans;
use baked_beans::error::BeanError;
use baked_beans::identity::Identity;
use baked_beans::states::UserState;

fn id(n: u64) -> Identity {
    Identity { w0: n, w1: 0, w2: 0, w3: 0 }
}

fn depositor(n: u64, beans: u64, first_deposit_time: u64) -> UserState {
    let mut u = UserState::new(id(n));
    u.total_deposit = 10_000_000;
    u.beans = beans;
    u.first_deposit_time = first_deposit_time;
    u
}

const T0: u64 = 1_700_000_000;

// One day after the only deposit, with 100_000 beans and no referrals:
// accrued 2999 beans, gross 2_999_000, fee 149_950, tentative 2_849_050,
// tax on day one is 80.
#[test]
fn eat_one_day_after_deposit_exact_amounts() {
    let mut u = depositor(10, 100_000, T0);
    let now = T0 + 86_400;
    let r = eat_beans::handle(&mut u, id(10), now, 10_000_000, 890_880);
    let (t, event) = r.unwrap();

    assert_eq!(t.giveaway, 1_139_620); // 80% of tentative, halved
    assert_eq!(t.dev_fee, 14_995); // 10% of the fee
    assert_eq!(t.marketing_fee, 28_490); // 19% of the fee
    assert_eq!(t.ceo_fee, 98_967); // 66% of the fee
    assert_eq!(t.payout, 569_810); // 20% of tentative is kept

    // the running total advances by 20% of the gross value, more than was
    // actually transferred — the scheme's deliberate dual-base bookkeeping
    assert_eq!(u.total_payout, 599_800);
    assert!(u.total_payout > t.payout);

    assert_eq!(u.ate_at, now);
    assert_eq!(u.baked_at, now);
    // withdrawing never reduces the bean balance
    assert_eq!(u.beans, 100_000);
    assert_eq!(u.total_deposit, 10_000_000);

    assert_eq!(event.user_address, id(10));
    assert_eq!(event.sol_to_eat, 569_810);
    assert_eq!(event.beans_before_fee, 2999);
}

#[test]
fn eat_without_deposit_refused() {
    let mut u = UserState::new(id(10));
    u.first_deposit_time = T0;
    let r = eat_beans::handle(&mut u, id(10), T0 + 86_400, 10_000_000, 890_880);
    assert_eq!(r.unwrap_err(), BeanError::InvalidAction);
    assert_eq!(u.total_payout, 0);
    assert_eq!(u.ate_at, 0);
}

#[test]
fn eat_at_payout_ceiling_refused() {
    let mut u = depositor(10, 100_000, T0);
    u.total_payout = 30_000_000; // exactly 3x the 10_000_000 deposited
    let before = u.clone();
    let r = eat_beans::handle(&mut u, id(10), T0 + 86_400, 10_000_000, 890_880);
    assert_eq!(r.unwrap_err(), BeanError::MaxPayoutReached);
    // nothing mutated, no transfer issued
    assert_eq!(u.total_payout, before.total_payout);
    assert_eq!(u.ate_at, before.ate_at);
    assert_eq!(u.baked_at, before.baked_at);
    assert_eq!(u.beans, before.beans);
}

#[test]
fn eat_leaving_pool_at_rent_floor_refused() {
    let mut u = depositor(10, 100_000, T0);
    let now = T0 + 86_400;
    // total outflow for this scenario: 1_139_620 + 14_995 + 28_490 +
    // 98_967 + 569_810 = 1_851_882. A pool of exactly rent floor plus that
    // outflow would be left exactly at the floor: refused, and the whole
    // withdrawal rolls back with no state change.
    let rent_floor = 890_880;
    let r = eat_beans::handle(&mut u, id(10), now, rent_floor + 1_851_882, rent_floor);
    assert_eq!(r.unwrap_err(), BeanError::InsufficientAmount);
    assert_eq!(u.total_payout, 0);
    assert_eq!(u.ate_at, 0);
    assert_eq!(u.baked_at, 0);

    // one lamport more and the same withdrawal goes through
    let r = eat_beans::handle(&mut u, id(10), now, rent_floor + 1_851_883, rent_floor);
    assert!(r.is_ok());
    assert_eq!(u.ate_at, now);
}

#[test]
fn eat_clamps_payout_at_lifetime_ceiling() {
    let mut u = depositor(10, 100_000, T0);
    u.total_payout = 29_000_000; // ceiling 30_000_000, gross 2_999_000 crosses it
    let now = T0 + 86_400;
    let r = eat_beans::handle(&mut u, id(10), now, 100_000_000, 890_880);
    let (t, _event) = r.unwrap();
    assert_eq!(t.payout, 1_000_000); // only the remainder up to the ceiling
    assert_eq!(u.total_payout, 30_000_000);
    // the ceiling is never exceeded
    assert!(u.total_payout <= 3 * u.total_deposit);

    // a further withdrawal is refused outright
    let r = eat_beans::handle(&mut u, id(10), now + 86_400, 100_000_000, 890_880);
    assert_eq!(r.unwrap_err(), BeanError::MaxPayoutReached);
}

#[test]
fn eat_tax_depends_on_days_since_last_eat() {
    // eight days of waiting bring the tax down to 10: 90% of tentative kept
    let mut u = depositor(10, 100_000, T0);
    let now = T0 + 8 * 86_400;
    let r = eat_beans::handle(&mut u, id(10), now, 100_000_000, 890_880);
    let (t, _event) = r.unwrap();
    // eight days accrue 23_999 beans: gross 23_999_000, fee 1_199_950,
    // tentative 22_799_050; tax 10 keeps 90% = 20_519_145
    assert_eq!(t.payout, 20_519_145);
    assert_eq!(t.giveaway, 1_139_952); // 10% of tentative, halved
    assert_eq!(u.total_payout, 21_599_100); // 90% of gross

    // a ninth day reaches the zero-tax day of the cycle: everything after
    // the fee is kept
    let mut u2 = depositor(11, 100_000, T0);
    let r = eat_beans::handle(&mut u2, id(11), T0 + 9 * 86_400, 100_000_000, 890_880);
    let (t2, _event) = r.unwrap();
    assert_eq!(t2.payout, 25_649_050); // the full tentative amount
    assert_eq!(t2.giveaway, 0);
    assert_eq!(u2.total_payout, 26_999_000); // the full gross amount
}
