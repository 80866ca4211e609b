use redactor::{Breaker, BreakerState, CircuitState, Policy};

fn policy(threshold: u64, min: u64, max: u64) -> Policy {
    Policy { enabled: true, threshold, backoff_min: min, backoff_max: max }
}

fn breaker(threshold: u64, min: u64, max: u64) -> Breaker {
    Breaker::new(policy(threshold, min, max)).unwrap()
}

#[test]
fn fresh_breaker_is_closed_with_minimal_backoff() {
    let b = breaker(3, 100, 1600);
    assert_eq!(
        b.state(),
        BreakerState { circuit: CircuitState::Closed, failures: 0, backoff: 100 }
    );
    assert_eq!(b.policy(), policy(3, 100, 1600));
    assert!(b.is_active());
}

#[test]
fn breaker_refuses_bounds_out_of_order() {
    assert!(Breaker::new(policy(3, 5, 4)).is_none());
    assert!(Breaker::new(policy(3, 5, 5)).is_some());
    assert!(Breaker::new(policy(3, 0, 0)).is_some());
}

#[test]
fn closed_circuit_lets_every_call_through() {
    let mut b = breaker(3, 100, 1600);
    assert!(b.would_allow(0));
    assert!(b.arrive(0));
    assert!(b.arrive(u64::MAX));
    assert_eq!(
        b.state(),
        BreakerState { circuit: CircuitState::Closed, failures: 0, backoff: 100 }
    );
}

#[test]
fn circuit_opens_at_the_threshold() {
    let mut b = breaker(3, 100, 1600);
    b.record_failure(10);
    assert_eq!(
        b.state(),
        BreakerState { circuit: CircuitState::Closed, failures: 1, backoff: 200 }
    );
    b.record_failure(20);
    assert_eq!(
        b.state(),
        BreakerState { circuit: CircuitState::Closed, failures: 2, backoff: 400 }
    );
    assert!(b.arrive(25));
    b.record_failure(30);
    assert_eq!(
        b.state(),
        BreakerState { circuit: CircuitState::Open { since: 30 }, failures: 3, backoff: 800 }
    );
    assert!(!b.arrive(31));
    assert_eq!(
        b.state(),
        BreakerState { circuit: CircuitState::Open { since: 30 }, failures: 3, backoff: 800 }
    );
}

#[test]
fn threshold_of_one_opens_on_the_first_failure() {
    let mut b = breaker(1, 50, 50);
    b.record_failure(7);
    assert_eq!(
        b.state(),
        BreakerState { circuit: CircuitState::Open { since: 7 }, failures: 1, backoff: 50 }
    );
    assert!(!b.arrive(56));
    assert!(b.arrive(57));
}

#[test]
fn open_circuit_rejects_until_the_backoff_has_elapsed() {
    let mut b = breaker(1, 100, 1600);
    b.record_failure(1000);
    assert_eq!(b.state().backoff, 200);
    assert!(!b.would_allow(1000));
    assert!(!b.arrive(1199));
    assert_eq!(b.state().circuit, CircuitState::Open { since: 1000 });
    assert!(b.would_allow(1200));
    assert!(b.arrive(1200));
    assert_eq!(b.state().circuit, CircuitState::HalfOpen);
}

#[test]
fn clock_reading_before_the_opening_is_rejected() {
    let mut b = breaker(1, 10, 10);
    b.record_failure(1000);
    assert!(!b.arrive(0));
    assert!(!b.arrive(999));
    assert_eq!(b.state().circuit, CircuitState::Open { since: 1000 });
}

#[test]
fn half_open_circuit_allows_a_single_trial() {
    let mut b = breaker(1, 10, 10);
    b.record_failure(0);
    assert!(b.arrive(10));
    assert!(!b.arrive(10));
    assert!(!b.arrive(1_000_000));
    assert!(!b.would_allow(u64::MAX));
    assert_eq!(b.state().circuit, CircuitState::HalfOpen);
}

#[test]
fn successful_trial_closes_the_circuit() {
    let mut b = breaker(2, 10, 80);
    b.record_failure(0);
    b.record_failure(1);
    assert!(b.arrive(41));
    b.record_success();
    assert_eq!(
        b.state(),
        BreakerState { circuit: CircuitState::Closed, failures: 0, backoff: 10 }
    );
    assert!(b.arrive(41));
    assert!(b.arrive(42));
}

#[test]
fn failed_trial_reopens_with_grown_backoff() {
    let mut b = breaker(2, 10, 80);
    b.record_failure(0);
    b.record_failure(1);
    assert_eq!(b.state().backoff, 40);
    assert!(b.arrive(41));
    b.record_failure(45);
    assert_eq!(
        b.state(),
        BreakerState { circuit: CircuitState::Open { since: 45 }, failures: 3, backoff: 80 }
    );
    assert!(!b.arrive(124));
    assert!(b.arrive(125));
}

#[test]
fn backoff_doubles_up_to_the_maximum() {
    let mut b = breaker(1, 3, 20);
    let mut seen = vec![b.state().backoff];
    for t in 0..5u64 {
        b.record_failure(t);
        seen.push(b.state().backoff);
    }
    assert_eq!(seen, vec![3, 6, 12, 20, 20, 20]);
    assert_eq!(b.state().circuit, CircuitState::Open { since: 0 });
    assert_eq!(b.state().failures, 5);
}

#[test]
fn backoff_near_the_top_of_the_range_does_not_overflow() {
    let mut b = breaker(1, u64::MAX - 1, u64::MAX);
    b.record_failure(0);
    assert_eq!(b.state().backoff, u64::MAX);
    b.record_failure(0);
    assert_eq!(b.state().backoff, u64::MAX);
    let mut c = breaker(1, u64::MAX / 2, u64::MAX);
    c.record_failure(0);
    assert_eq!(c.state().backoff, u64::MAX - 1);
    c.record_failure(0);
    assert_eq!(c.state().backoff, u64::MAX);
}

#[test]
fn zero_backoff_lets_the_next_call_through_as_trial() {
    let mut b = breaker(1, 0, 0);
    b.record_failure(5);
    assert_eq!(
        b.state(),
        BreakerState { circuit: CircuitState::Open { since: 5 }, failures: 1, backoff: 0 }
    );
    assert!(b.arrive(5));
    assert_eq!(b.state().circuit, CircuitState::HalfOpen);
}

#[test]
fn success_resets_the_count_of_failures() {
    let mut b = breaker(3, 1, 100);
    b.record_failure(0);
    b.record_failure(1);
    b.record_success();
    b.record_failure(2);
    b.record_failure(3);
    assert_eq!(
        b.state(),
        BreakerState { circuit: CircuitState::Closed, failures: 2, backoff: 4 }
    );
    b.record_failure(4);
    assert_eq!(b.state().circuit, CircuitState::Open { since: 4 });
}

#[test]
fn disabled_breaker_is_a_pass_through() {
    let p = Policy { enabled: false, threshold: 1, backoff_min: 10, backoff_max: 20 };
    let mut b = Breaker::new(p).unwrap();
    assert!(!b.is_active());
    for t in 0..10u64 {
        assert!(b.arrive(t));
        b.record_failure(t);
    }
    b.record_success();
    assert_eq!(
        b.state(),
        BreakerState { circuit: CircuitState::Closed, failures: 0, backoff: 10 }
    );
}

#[test]
fn zero_threshold_is_a_pass_through() {
    let mut b = breaker(0, 10, 20);
    assert!(!b.is_active());
    for t in 0..10u64 {
        assert!(b.arrive(t));
        b.record_failure(t);
    }
    assert_eq!(
        b.state(),
        BreakerState { circuit: CircuitState::Closed, failures: 0, backoff: 10 }
    );
}
