use quantum_kapital::middleware::rate_limit::{saturate_millis, RateLimiter};

#[test]
fn budget_counts_down_and_rejects_when_spent() {
    let mut limiter = RateLimiter::new(3);
    assert_eq!(limiter.check_and_update_at("market_data", 10_000), Ok(2));
    assert_eq!(limiter.check_and_update_at("market_data", 10_100), Ok(1));
    assert_eq!(limiter.check_and_update_at("market_data", 10_200), Ok(0));
    assert_eq!(
        limiter.check_and_update_at("market_data", 10_250),
        Err("Rate limit exceeded for market_data. Try again in 750 ms".to_string())
    );
    assert_eq!(limiter.get_remaining_at("market_data", 10_300), 0);
}

#[test]
fn a_new_window_restores_the_budget() {
    let mut limiter = RateLimiter::new(2);
    assert_eq!(limiter.check_and_update_at("orders", 500), Ok(1));
    assert_eq!(limiter.check_and_update_at("orders", 600), Ok(0));
    assert!(limiter.check_and_update_at("orders", 1499).is_err());
    assert_eq!(limiter.get_remaining_at("orders", 1500), 2);
    assert_eq!(limiter.check_and_update_at("orders", 1500), Ok(1));
}

#[test]
fn rejection_at_the_start_of_a_window_waits_a_whole_window() {
    let mut limiter = RateLimiter::new(0);
    assert_eq!(
        limiter.check_and_update_at("x", 42),
        Err("Rate limit exceeded for x. Try again in 1000 ms".to_string())
    );
    assert_eq!(
        limiter.check_and_update_at("x", 1041),
        Err("Rate limit exceeded for x. Try again in 1 ms".to_string())
    );
}

#[test]
fn endpoints_are_budgeted_apart() {
    let mut limiter = RateLimiter::new(1);
    assert_eq!(limiter.check_and_update_at("a", 0), Ok(0));
    assert_eq!(limiter.check_and_update_at("b", 0), Ok(0));
    assert!(limiter.check_and_update_at("a", 1).is_err());
    assert_eq!(limiter.get_remaining_at("c", 1), 1);
}

#[test]
fn set_limit_keeps_the_count_of_a_known_endpoint() {
    let mut limiter = RateLimiter::new(5);
    assert_eq!(limiter.check_and_update_at("a", 100), Ok(4));
    limiter.set_limit_at("a", 2, 150);
    assert_eq!(limiter.get_remaining_at("a", 160), 1);
    assert_eq!(limiter.check_and_update_at("a", 170), Ok(0));
    assert!(limiter.check_and_update_at("a", 180).is_err());
    limiter.set_limit_at("b", 7, 200);
    assert_eq!(limiter.get_remaining_at("b", 200), 7);
    assert_eq!(limiter.check_and_update_at("b", 1250), Ok(6));
}

#[test]
fn lowering_a_ceiling_below_the_count_leaves_nothing() {
    let mut limiter = RateLimiter::new(5);
    assert_eq!(limiter.check_and_update_at("a", 0), Ok(4));
    assert_eq!(limiter.check_and_update_at("a", 1), Ok(3));
    limiter.set_limit_at("a", 1, 2);
    assert_eq!(limiter.get_remaining_at("a", 3), 0);
    assert!(limiter.check_and_update_at("a", 3).is_err());
}

#[test]
fn a_clock_that_steps_back_stays_in_the_window() {
    let mut limiter = RateLimiter::new(1);
    assert_eq!(limiter.check_and_update_at("a", 5000), Ok(0));
    assert_eq!(
        limiter.check_and_update_at("a", 4000),
        Err("Rate limit exceeded for a. Try again in 1000 ms".to_string())
    );
}

#[test]
fn the_clocked_calls_use_one_window() {
    let mut limiter = RateLimiter::new(1_000_000);
    let first = limiter.check_and_update("clock").unwrap();
    assert_eq!(first, 999_999);
    limiter.set_limit("other", 3);
    assert_eq!(limiter.get_remaining("other"), 3);
    assert_eq!(limiter.get_remaining("unseen"), 1_000_000);
}

#[test]
fn the_limiter_has_a_clock_of_its_own() {
    let mut limiter = RateLimiter::new(2);
    let first = limiter.now();
    let second = limiter.now();
    assert!(second >= first);
    assert!(first < 60_000);
    assert_eq!(limiter.check_and_update_at("a", first), Ok(1));
    assert!(limiter.check_and_update("a").is_ok());
}

#[test]
fn clock_readings_are_brought_into_64_bits() {
    assert_eq!(saturate_millis(0), 0);
    assert_eq!(saturate_millis(1_500), 1_500);
    assert_eq!(saturate_millis(u64::MAX as u128), u64::MAX);
    assert_eq!(saturate_millis(u64::MAX as u128 + 1), u64::MAX);
    assert_eq!(saturate_millis(u128::MAX), u64::MAX);
}
