use baked_beans::bake_beans;
use baked_beans::error::BeanError;
use baked_beans::identity::Identity;
use baked_beans::states::UserState;

const BEAN_CAP: u64 = 200_000_000;

fn id(n: u64) -> Identity {
    Identity { w0: n, w1: 0, w2: 0, w3: 0 }
}

fn depositor(n: u64, beans: u64, first_deposit_time: u64) -> UserState {
    let mut u = UserState::new(id(n));
    u.total_deposit = 10_000_000;
    u.beans = beans;
    u.first_deposit_time = first_deposit_time;
    u
}

#[test]
fn bake_compounds_one_day_of_accrual() {
    let t0 = 1_700_000_000;
    let mut u = depositor(10, 100_000, t0);
    let r = bake_beans::handle(&mut u, id(10), 0, t0 + 86_400);
    let event = r.unwrap();
    // 30000 millionths per day on 100_000 beans accrues 2999 beans
    assert_eq!(u.beans, 102_999);
    assert_eq!(u.baked_at, t0 + 86_400);
    assert_eq!(u.ate_at, 0);
    assert_eq!(event.user_address, id(10));
    assert_eq!(event.beans_from, 100_000);
    assert_eq!(event.beans_to, 102_999);
}

#[test]
fn bake_without_deposit_refused() {
    let mut u = UserState::new(id(10));
    u.first_deposit_time = 1_700_000_000;
    let r = bake_beans::handle(&mut u, id(10), 0, 1_700_000_100);
    assert_eq!(r.unwrap_err(), BeanError::InvalidAction);
    assert_eq!(u.beans, 0);
    assert_eq!(u.baked_at, 0);
}

#[test]
fn bake_at_wallet_cap_refused() {
    let t0 = 1_700_000_000;
    let mut u = depositor(10, BEAN_CAP, t0);
    let r = bake_beans::handle(&mut u, id(10), 0, t0 + 86_400);
    assert_eq!(r.unwrap_err(), BeanError::WalletTvlReached);
    assert_eq!(u.beans, BEAN_CAP);
    assert_eq!(u.baked_at, 0);
}

#[test]
fn rebake_only_under_minimum_refused() {
    let t0 = 1_700_000_000;
    let mut u = depositor(10, 100_000, t0);
    // one day accrues 2999 beans = 2_999_000 lamports, under the
    // 10_000_000 rebake minimum
    let r = bake_beans::handle(&mut u, id(10), 1, t0 + 86_400);
    assert_eq!(r.unwrap_err(), BeanError::UnderMinBake);
    assert_eq!(u.beans, 100_000);
    assert_eq!(u.baked_at, 0);
}

#[test]
fn rebake_only_over_minimum_accepted() {
    let t0 = 1_700_000_000;
    let mut u = depositor(10, 100_000_000, t0);
    // one day on 100_000_000 beans accrues 2_999_999 beans, comfortably
    // above the minimum in lamports
    let r = bake_beans::handle(&mut u, id(10), 1, t0 + 86_400);
    assert!(r.is_ok());
    assert_eq!(u.beans, 102_999_999);
}

#[test]
fn bake_accrual_saturates_at_wallet_cap() {
    let t0 = 1_700_000_000;
    let mut u = depositor(10, BEAN_CAP - 100, t0);
    let r = bake_beans::handle(&mut u, id(10), 0, t0 + 86_400);
    assert!(r.is_ok());
    assert_eq!(u.beans, BEAN_CAP);
}

#[test]
fn bake_uses_last_action_reference() {
    let t0 = 1_700_000_000;
    let mut u = depositor(10, 100_000, t0);
    u.baked_at = t0 + 86_400;
    // only half a day since the last bake: accrual prorated accordingly,
    // 347_222 * 43_200 / 10_000_000 = 1499 beans
    let r = bake_beans::handle(&mut u, id(10), 0, t0 + 86_400 + 43_200);
    assert!(r.is_ok());
    assert_eq!(u.beans, 101_499);
}
