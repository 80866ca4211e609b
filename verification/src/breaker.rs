//! The circuit breaker: a policy together with the state it governs.

use vstd::prelude::*;
use crate::policy::{BreakerState, CircuitState, Policy};

verus! {

/// A circuit breaker. It is consulted before every call and told how every
/// attempt ended; its view is the [`BreakerState`] that the policy's
/// transitions speak of.
#[derive(Debug)]
pub struct Breaker {
    policy: Policy,
    state: BreakerState,
}

impl View for Breaker {
    type V = BreakerState;

    closed spec fn view(&self) -> BreakerState {
        self.state
    }
}

impl Breaker {
    #[verifier::type_invariant]
    spec fn within_bounds(self) -> bool {
        self.policy.inv(self.state)
    }

    /// The policy that this breaker was made with.
    pub closed spec fn spec_policy(&self) -> Policy {
        self.policy
    }

    /// A fresh breaker for `policy`, or nothing where the policy's bounds
    /// are out of order.
    pub fn new(policy: Policy) -> (made: Option<Breaker>)
        ensures
            made is Some <==> policy.wf(),
            made matches Some(b) ==> b.spec_policy() == policy && b@ == policy.initial(),
    {
        if policy.backoff_min <= policy.backoff_max {
            Some(
                Breaker {
                    policy,
                    state: BreakerState {
                        circuit: CircuitState::Closed,
                        failures: 0,
                        backoff: policy.backoff_min,
                    },
                },
            )
        } else {
            None
        }
    }

    /// The policy that this breaker was made with.
    #[verifier::when_used_as_spec(spec_policy)]
    pub fn policy(&self) -> (p: Policy)
        ensures
            p == self.spec_policy(),
            p.inv(self@),
    {
        proof {
            use_type_invariant(self);
        }
        self.policy
    }

    /// The current state.
    pub fn state(&self) -> (s: BreakerState)
        ensures
            s == self@,
            self.spec_policy().inv(s),
    {
        proof {
            use_type_invariant(self);
        }
        self.state
    }

    /// Whether the breaker takes part: it is enabled and its threshold is at
    /// least one.
    pub fn is_active(&self) -> (a: bool)
        ensures
            a == self.spec_policy().active(),
    {
        self.policy.enabled && self.policy.threshold > 0
    }

    /// Whether a call arriving at `now` would be let through. Asking changes
    /// nothing.
    pub fn would_allow(&self, now: u64) -> (allowed: bool)
        ensures
            allowed == self.spec_policy().allows(self@, now),
    {
        if !self.is_active() {
            return true;
        }
        match self.state.circuit {
            CircuitState::Closed => true,
            CircuitState::HalfOpen => false,
            CircuitState::Open { since } => now >= since && now - since >= self.state.backoff,
        }
    }

    /// A call arrives at `now`. Returns whether it is let through; a cooled
    /// open circuit becomes half-open for the call it lets through.
    pub fn arrive(&mut self, now: u64) -> (allowed: bool)
        ensures
            final(self).spec_policy() == old(self).spec_policy(),
            allowed == old(self).spec_policy().allows(old(self)@, now),
            final(self)@ == old(self).spec_policy().after_arrival(old(self)@, now),
            final(self).spec_policy().inv(final(self)@),
    {
        proof {
            use_type_invariant(&*self);
        }
        let allowed = self.would_allow(now);
        if self.is_active() && allowed {
            match self.state.circuit {
                CircuitState::Open { .. } => {
                    self.state.circuit = CircuitState::HalfOpen;
                },
                _ => {},
            }
        }
        allowed
    }

    /// An attempt succeeded: an active breaker closes, forgets its failures
    /// and returns to the minimal backoff.
    pub fn record_success(&mut self)
        ensures
            final(self).spec_policy() == old(self).spec_policy(),
            final(self)@ == old(self).spec_policy().after_success(old(self)@),
            final(self).spec_policy().inv(final(self)@),
    {
        proof {
            use_type_invariant(&*self);
        }
        if self.is_active() {
            self.state = BreakerState {
                circuit: CircuitState::Closed,
                failures: 0,
                backoff: self.policy.backoff_min,
            };
        }
    }

    /// An attempt failed at `now`: an active breaker counts the failure,
    /// doubles its backoff up to the maximum, and opens where the count has
    /// reached the threshold or the failed attempt was the half-open trial.
    pub fn record_failure(&mut self, now: u64)
        ensures
            final(self).spec_policy() == old(self).spec_policy(),
            final(self)@ == old(self).spec_policy().after_failure(old(self)@, now),
            final(self).spec_policy().inv(final(self)@),
    {
        proof {
            use_type_invariant(&*self);
        }
        if self.is_active() {
            let failures: u64 = if self.state.failures < u64::MAX {
                self.state.failures + 1
            } else {
                self.state.failures
            };
            let backoff: u64 = if self.state.backoff <= self.policy.backoff_max / 2 {
                2 * self.state.backoff
            } else {
                self.policy.backoff_max
            };
            let circuit = match self.state.circuit {
                CircuitState::Closed => if failures >= self.policy.threshold {
                    CircuitState::Open { since: now }
                } else {
                    CircuitState::Closed
                },
                CircuitState::HalfOpen => CircuitState::Open { since: now },
                CircuitState::Open { since } => CircuitState::Open { since },
            };
            self.state = BreakerState { circuit, failures, backoff };
        }
    }
}

} // verus!
