//! The resilience policy as a state machine over plain values.
//!
//! A [`Policy`] holds the settings of a circuit breaker, a [`BreakerState`]
//! what the breaker remembers between calls. The transitions are spec
//! functions of the policy: what an arriving call, a success and a failure
//! each do to the state. Time is a reading of the caller's monotonic clock in
//! the unit of the backoff bounds.
//!
//! Two points that the state machine settles:
//!
//! * A breaker is *active* when it is enabled and its threshold is at least
//!   one. With a threshold of zero there is no count of failures that a call
//!   could reach, so such a breaker behaves as a disabled one: it never
//!   rejects and never changes state.
//! * Every recorded failure doubles the current backoff, capped at the
//!   maximum, whatever state the circuit is in; every recorded success
//!   restores the minimum, clears the failure count and closes the circuit.

use vstd::prelude::*;

verus! {

/// The settings of a circuit breaker.
#[derive(Clone, Copy, Debug, PartialEq, Eq, Structural)]
pub struct Policy {
    /// Whether the breaker takes part at all.
    pub enabled: bool,
    /// The number of consecutive failures at which the circuit opens.
    pub threshold: u64,
    /// The backoff after a success, and at the start.
    pub backoff_min: u64,
    /// The bound that the backoff never exceeds.
    pub backoff_max: u64,
}

/// The position of the circuit.
#[derive(Clone, Copy, Debug, PartialEq, Eq, Structural)]
pub enum CircuitState {
    /// Calls pass.
    Closed,
    /// Calls are rejected until the backoff has elapsed since `since`.
    Open { since: u64 },
    /// One trial call is under way; all others are rejected.
    HalfOpen,
}

/// What a breaker remembers between calls.
#[derive(Clone, Copy, Debug, PartialEq, Eq, Structural)]
pub struct BreakerState {
    /// The position of the circuit.
    pub circuit: CircuitState,
    /// The number of failures since the last success, held at `u64::MAX`
    /// once it has got there.
    pub failures: u64,
    /// The current backoff: the cooldown of an open circuit.
    pub backoff: u64,
}

impl Policy {
    /// The bounds are in order.
    pub open spec fn wf(self) -> bool {
        self.backoff_min <= self.backoff_max
    }

    /// The breaker takes part: it is enabled and has a threshold to reach.
    pub open spec fn active(self) -> bool {
        self.enabled && self.threshold > 0
    }

    /// The state `s` is one that this policy can be in: the bounds are in
    /// order and the backoff lies between them.
    pub open spec fn inv(self, s: BreakerState) -> bool {
        self.backoff_min <= s.backoff <= self.backoff_max
    }

    /// The state of a fresh breaker: closed, no failures, minimal backoff.
    pub open spec fn initial(self) -> BreakerState {
        BreakerState { circuit: CircuitState::Closed, failures: 0, backoff: self.backoff_min }
    }

    /// The backoff that follows `backoff` after one more failure: twice as
    /// long, but no longer than the maximum.
    pub open spec fn grown(self, backoff: u64) -> u64 {
        if 2 * backoff <= self.backoff_max {
            (2 * backoff) as u64
        } else {
            self.backoff_max
        }
    }

    /// At `now` the circuit of `s` is open and has been so for at least the
    /// current backoff.
    pub open spec fn cooled(self, s: BreakerState, now: u64) -> bool {
        s.circuit matches CircuitState::Open { since } && now >= since && now - since >= s.backoff
    }

    /// A call that arrives at `now` in state `s` is let through.
    pub open spec fn allows(self, s: BreakerState, now: u64) -> bool {
        !self.active() || s.circuit is Closed || self.cooled(s, now)
    }

    /// The state after a call has arrived at `now` in state `s`: a cooled
    /// open circuit becomes half-open for the call it lets through, and
    /// nothing else changes.
    pub open spec fn after_arrival(self, s: BreakerState, now: u64) -> BreakerState {
        if self.active() && self.cooled(s, now) {
            BreakerState { circuit: CircuitState::HalfOpen, ..s }
        } else {
            s
        }
    }

    /// The state after a success has been recorded in state `s`.
    pub open spec fn after_success(self, s: BreakerState) -> BreakerState {
        if self.active() {
            self.initial()
        } else {
            s
        }
    }

    /// The state after a failure has been recorded at `now` in state `s`.
    pub open spec fn after_failure(self, s: BreakerState, now: u64) -> BreakerState {
        if self.active() {
            let failures = if s.failures < u64::MAX {
                (s.failures + 1) as u64
            } else {
                s.failures
            };
            BreakerState {
                circuit: match s.circuit {
                    CircuitState::Closed => if failures >= self.threshold {
                        CircuitState::Open { since: now }
                    } else {
                        CircuitState::Closed
                    },
                    CircuitState::HalfOpen => CircuitState::Open { since: now },
                    CircuitState::Open { since } => CircuitState::Open { since },
                },
                failures,
                backoff: self.grown(s.backoff),
            }
        } else {
            s
        }
    }

    /// The state after the failures whose clock readings are `times`, in
    /// that order, have been recorded one after another, starting in `s`.
    pub open spec fn after_failures(self, s: BreakerState, times: Seq<u64>) -> BreakerState
        decreases times.len(),
    {
        if times.len() == 0 {
            s
        } else {
            self.after_failure(self.after_failures(s, times.drop_last()), times.last())
        }
    }
}

} // verus!
