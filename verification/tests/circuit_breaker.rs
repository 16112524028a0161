use fusionserve_gateway::admission::circuit_breaker::{CircuitBreaker, State};
use fusionserve_gateway::config::CircuitBreakerConfig;
use std::time::{Duration, Instant};

fn cfg() -> CircuitBreakerConfig {
    CircuitBreakerConfig {
        failure_threshold: 3,
        open_cooldown_ms: 20,
        half_open_success_threshold: 2,
    }
}

fn wait(ms: u64) {
    let start = Instant::now();
    while start.elapsed() < Duration::from_millis(ms) {}
}

#[test]
fn opens_after_threshold_failures() {
    let mut cb = CircuitBreaker::new(&cfg());
    assert!(cb.allow());
    cb.on_failure();
    cb.on_failure();
    assert_eq!(cb.state(), State::Closed);
    cb.on_failure(); // 3rd
    assert_eq!(cb.state(), State::Open);
    assert!(!cb.allow());
}

#[test]
fn half_open_recovers_to_closed() {
    let mut cb = CircuitBreaker::new(&cfg());
    for _ in 0..3 {
        cb.on_failure();
    }
    assert_eq!(cb.state(), State::Open);
    wait(25);
    // Cooldown elapsed → allow() flips to half-open and admits a trial.
    assert!(cb.allow());
    assert_eq!(cb.state(), State::HalfOpen);
    cb.on_success();
    assert!(cb.allow());
    cb.on_success(); // meets half_open_success_threshold
    assert_eq!(cb.state(), State::Closed);
}

#[test]
fn half_open_failure_reopens() {
    let mut cb = CircuitBreaker::new(&cfg());
    for _ in 0..3 {
        cb.on_failure();
    }
    wait(25);
    assert!(cb.allow());
    assert_eq!(cb.state(), State::HalfOpen);
    cb.on_failure();
    assert_eq!(cb.state(), State::Open);
}

#[test]
fn success_in_closed_resets_failures() {
    let mut cb = CircuitBreaker::new(&cfg());
    cb.on_failure();
    cb.on_failure();
    cb.on_success();
    cb.on_failure();
    cb.on_failure();
    // Only two consecutive failures after the reset → still closed.
    assert_eq!(cb.state(), State::Closed);
}

#[test]
fn half_open_allows_only_one_probe_at_a_time() {
    let mut cb = CircuitBreaker::new(&cfg());
    for _ in 0..3 {
        cb.on_failure();
    }
    wait(25);
    assert!(cb.allow());
    assert!(!cb.allow());
    cb.on_success();
    assert!(cb.allow());
}

#[test]
fn open_breaker_rejects_before_cooldown_at_any_earlier_time() {
    let mut cb = CircuitBreaker::new(&cfg());
    for _ in 0..3 {
        cb.on_failure();
    }
    // 19.999999 ms after opening: still rejected, and still open.
    assert!(!cb.allow_after(19_999_999));
    assert_eq!(cb.state(), State::Open);
    // Exactly at the cooldown: the trial is admitted.
    assert!(cb.allow_after(20_000_000));
    assert_eq!(cb.state(), State::HalfOpen);
    // A second request during the trial is rejected.
    assert!(!cb.allow_after(u128::MAX));
}

#[test]
fn failures_in_open_state_change_nothing() {
    let mut cb = CircuitBreaker::new(&cfg());
    for _ in 0..5 {
        cb.on_failure();
    }
    assert_eq!(cb.state(), State::Open);
    cb.on_success();
    assert_eq!(cb.state(), State::Open);
}

#[test]
fn zero_failure_threshold_opens_on_first_failure() {
    let mut cb = CircuitBreaker::new(&CircuitBreakerConfig {
        failure_threshold: 0,
        open_cooldown_ms: 0,
        half_open_success_threshold: 0,
    });
    cb.on_failure();
    assert_eq!(cb.state(), State::Open);
    // No cooldown: the next request is the trial; one success closes.
    assert!(cb.allow());
    assert_eq!(cb.state(), State::HalfOpen);
    cb.on_success();
    assert_eq!(cb.state(), State::Closed);
}

#[test]
fn state_gauge_codes() {
    assert_eq!(State::Closed.code(), 0);
    assert_eq!(State::HalfOpen.code(), 1);
    assert_eq!(State::Open.code(), 2);
}

#[test]
fn failed_trial_restarts_the_cooldown() {
    let mut cb = CircuitBreaker::new(&cfg());
    for _ in 0..3 {
        cb.on_failure();
    }
    wait(25);
    assert!(cb.allow());
    assert_eq!(cb.state(), State::HalfOpen);
    cb.on_failure_at(Instant::now());
    assert_eq!(cb.state(), State::Open);
    // The cooldown runs again from the failed trial.
    assert!(!cb.allow());
    // A failure while open does not restart it.
    wait(15);
    cb.on_failure();
    wait(15);
    assert!(cb.allow());
    assert_eq!(cb.state(), State::HalfOpen);
}
