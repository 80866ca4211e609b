//! What holds of the resilience policy and of the dispatcher on every input.

use vstd::prelude::*;
use vstd::arithmetic::power2::{lemma_pow2_unfold, pow2};
use crate::actor::RedisActor;
use crate::config::RedisConfig;
use crate::dispatch::{Action, Event};
use crate::error::ErrorKind;
use crate::policy::{BreakerState, CircuitState, Policy};

verus! {

/// The smaller of two numbers.
pub open spec fn least(a: int, b: int) -> int {
    if a <= b {
        a
    } else {
        b
    }
}

/// Every transition keeps the backoff between the policy's bounds.
pub proof fn lemma_backoff_stays_within_bounds(policy: Policy, s: BreakerState, now: u64)
    requires
        policy.inv(s),
    ensures
        policy.inv(policy.initial()),
        policy.inv(policy.after_arrival(s, now)),
        policy.inv(policy.after_success(s)),
        policy.inv(policy.after_failure(s, now)),
{
}

/// A breaker that is disabled, or whose threshold is zero, is a pass-through:
/// it lets every call through and no event changes its state.
pub proof fn lemma_inactive_breaker_passes_through(policy: Policy, s: BreakerState, now: u64)
    requires
        !policy.active(),
    ensures
        policy.allows(s, now),
        policy.after_arrival(s, now) == s,
        policy.after_success(s) == s,
        policy.after_failure(s, now) == s,
{
}

/// While the circuit is closed every call is let through, and a call that
/// arrives leaves the state as it was.
pub proof fn lemma_closed_circuit_lets_through(policy: Policy, s: BreakerState, now: u64)
    requires
        s.circuit is Closed,
    ensures
        policy.allows(s, now),
        policy.after_arrival(s, now) == s,
{
}

/// Fewer failures in a row than the threshold, counted from a closed
/// circuit without failures, leave the circuit closed; exactly as many as
/// the threshold leave it open since the last of them.
pub proof fn lemma_failures_count_up_to_threshold(
    policy: Policy,
    start: BreakerState,
    times: Seq<u64>,
)
    requires
        policy.active(),
        start.circuit is Closed,
        start.failures == 0,
        times.len() <= policy.threshold,
    ensures
        policy.after_failures(start, times).failures == times.len(),
        times.len() < policy.threshold ==> policy.after_failures(start, times).circuit
            is Closed,
        times.len() == policy.threshold ==> policy.after_failures(start, times).circuit
            == (CircuitState::Open { since: times.last() }),
    decreases times.len(),
{
    if times.len() > 0 {
        lemma_failures_count_up_to_threshold(policy, start, times.drop_last());
    }
}

/// Breaker activation. With an active breaker of threshold `k`, after `k`
/// failures in a row, counted from a closed circuit without failures, the
/// circuit is open since the last of them, and a call that arrives before
/// the current backoff has elapsed is rejected and changes nothing.
pub proof fn lemma_breaker_opens_at_threshold(
    policy: Policy,
    start: BreakerState,
    times: Seq<u64>,
    now: u64,
)
    requires
        policy.active(),
        start.circuit is Closed,
        start.failures == 0,
        times.len() == policy.threshold,
        !policy.cooled(policy.after_failures(start, times), now),
    ensures
        policy.after_failures(start, times).circuit == (CircuitState::Open {
            since: times.last(),
        }),
        policy.after_failures(start, times).failures == policy.threshold,
        !policy.allows(policy.after_failures(start, times), now),
        policy.after_arrival(policy.after_failures(start, times), now) == policy.after_failures(
            start,
            times,
        ),
{
    lemma_failures_count_up_to_threshold(policy, start, times);
}

/// Breaker recovery. Of an open circuit of an active breaker:
/// a call that arrives at `early`, before the current backoff has elapsed,
/// is rejected and changes nothing; a call that arrives at `due`, once it has
/// elapsed, is let through and makes the circuit half-open; while the circuit
/// is half-open a call at any time `later` is rejected; a success then closes
/// the circuit and clears the failure count, after which every call is let
/// through; a failure at `later` instead opens the circuit anew, since
/// `later`, with the backoff grown.
pub proof fn lemma_breaker_recovers_through_one_trial(
    policy: Policy,
    s: BreakerState,
    early: u64,
    due: u64,
    later: u64,
)
    requires
        policy.active(),
        s.circuit is Open,
        !policy.cooled(s, early),
        policy.cooled(s, due),
    ensures
        !policy.allows(s, early),
        policy.after_arrival(s, early) == s,
        policy.allows(s, due),
        policy.after_arrival(s, due) == (BreakerState { circuit: CircuitState::HalfOpen, ..s }),
        !policy.allows(policy.after_arrival(s, due), later),
        policy.after_arrival(policy.after_arrival(s, due), later) == policy.after_arrival(s, due),
        policy.after_success(policy.after_arrival(s, due)).circuit is Closed,
        policy.after_success(policy.after_arrival(s, due)).failures == 0,
        policy.allows(policy.after_success(policy.after_arrival(s, due)), later),
        policy.after_failure(policy.after_arrival(s, due), later).circuit == (CircuitState::Open {
            since: later,
        }),
        policy.after_failure(policy.after_arrival(s, due), later).backoff == policy.grown(
            s.backoff,
        ),
{
}

/// Backoff growth, one step. A failure recorded by an active breaker makes
/// the backoff twice as long, or as long as the maximum where twice as long
/// would exceed it; while the circuit is open it stays open since the same
/// moment.
pub proof fn lemma_failure_doubles_backoff(policy: Policy, s: BreakerState, now: u64)
    requires
        policy.active(),
    ensures
        policy.after_failure(s, now).backoff == least(2 * s.backoff, policy.backoff_max as int),
        policy.after_failure(s, now).backoff <= policy.backoff_max,
        s.circuit is Open ==> policy.after_failure(s, now).circuit == s.circuit,
{
}

/// Backoff growth, many steps. After `times.len()` failures in a row the
/// backoff of an active breaker is the backoff it started from, doubled that
/// many times, or the maximum where that would exceed it.
pub proof fn lemma_failures_double_backoff(policy: Policy, s: BreakerState, times: Seq<u64>)
    requires
        policy.active(),
        s.backoff <= policy.backoff_max,
    ensures
        policy.after_failures(s, times).backoff == least(
            s.backoff * pow2(times.len()),
            policy.backoff_max as int,
        ),
    decreases times.len(),
{
    if times.len() == 0 {
        assert(pow2(0) == 1) by {
            vstd::arithmetic::power2::lemma2_to64();
        }
    } else {
        let shorter = times.drop_last();
        lemma_failures_double_backoff(policy, s, shorter);
        lemma_pow2_unfold(times.len());
        let before = s.backoff * pow2(shorter.len());
        assert(s.backoff * pow2(times.len()) == 2 * before) by (nonlinear_arith)
            requires
                pow2(times.len()) == 2 * pow2(shorter.len()),
                before == s.backoff * pow2(shorter.len()),
        ;
    }
}

/// While an open circuit keeps failing, it stays open since the same moment.
pub proof fn lemma_open_circuit_stays_open_under_failures(
    policy: Policy,
    s: BreakerState,
    times: Seq<u64>,
)
    requires
        s.circuit is Open,
    ensures
        policy.after_failures(s, times).circuit == s.circuit,
    decreases times.len(),
{
    if times.len() > 0 {
        lemma_open_circuit_stays_open_under_failures(policy, s, times.drop_last());
    }
}

/// Fast failure. With an active breaker of threshold `k`, after `k` failures
/// in a row, counted from a closed circuit without failures, a command
/// submitted before the current backoff has elapsed is answered at once by a
/// `CircuitOpen` error: no connection is asked for, and the state stays as
/// it is.
pub proof fn lemma_open_circuit_fails_fast<V>(
    policy: Policy,
    start: BreakerState,
    times: Seq<u64>,
    now: u64,
    action: Action<V>,
)
    requires
        policy.active(),
        start.circuit is Closed,
        start.failures == 0,
        times.len() == policy.threshold,
        !policy.cooled(policy.after_failures(start, times), now),
        policy.answers(policy.after_failures(start, times), now, Event::<V>::Submitted, action),
    ensures
        action matches Action::Reply(Err(e)) && e.kind == ErrorKind::CircuitOpen,
        !(action is Connect),
        policy.after_event(policy.after_failures(start, times), now, Event::<V>::Submitted)
            == policy.after_failures(start, times),
{
    lemma_breaker_opens_at_threshold(policy, start, times, now);
}

/// Round trip. What the store answered is what the caller gets, unchanged,
/// whatever state the breaker is in.
pub proof fn lemma_answer_reaches_caller_unchanged<V>(
    policy: Policy,
    s: BreakerState,
    now: u64,
    value: V,
    action: Action<V>,
)
    requires
        policy.answers(s, now, Event::Completed(value), action),
    ensures
        action == Action::Reply(Ok(value)),
{
}

/// Batch ordering. The reply to a pipeline holds as many values as the
/// store returned, and at each index the value that the store returned
/// there.
pub proof fn lemma_pipeline_reply_keeps_order<T>(
    policy: Policy,
    s: BreakerState,
    now: u64,
    values: Vec<T>,
    action: Action<Vec<T>>,
)
    requires
        policy.answers(s, now, Event::Completed(values), action),
    ensures
        action matches Action::Reply(Ok(reply)) && reply@.len() == values@.len() && forall|
            i: int,
        |
            0 <= i < values@.len() ==> reply@[i] == values@[i],
{
}

/// Idempotent configuration. Two configurations of the same values are
/// accepted or refused alike, and dispatchers made from them have the same
/// settings and start in the same state: the circuit closed, no failure
/// counted, the backoff at its minimum.
pub proof fn lemma_same_configuration_same_dispatcher(
    a: RedisConfig,
    b: RedisConfig,
    x: RedisActor,
    y: RedisActor,
)
    requires
        a@ == b@,
        x.fresh_from(a@),
        y.fresh_from(b@),
    ensures
        a@.rejection() == b@.rejection(),
        x.config() == y.config(),
        x.policy() == y.policy(),
        x@ == y@,
        x@.circuit is Closed,
        x@.failures == 0,
        x@.backoff == a.backoff_min,
{
}

} // verus!
