//! The dispatcher.

use vstd::prelude::*;
use crate::breaker::Breaker;
use crate::config::{ConfigView, RedisActorBuilder};
use crate::dispatch::{Action, Event};
use crate::error::{Error, ErrorKind};
use crate::policy::{BreakerState, Policy};

verus! {

/// The dispatcher: the client of the store it was configured for and the
/// circuit breaker that its calls have to pass. Its view is the breaker's state.
#[derive(Debug)]
pub struct RedisActor {
    client: redis::Client,
    uri: String,
    probe: bool,
    breaker: Breaker,
}

impl View for RedisActor {
    type V = BreakerState;

    closed spec fn view(&self) -> BreakerState {
        self.breaker@
    }
}

impl RedisActor {
    /// The settings of this dispatcher's circuit breaker.
    pub closed spec fn policy(&self) -> Policy {
        self.breaker.spec_policy()
    }

    /// The address of the store.
    pub closed spec fn uri(&self) -> Seq<char> {
        self.uri@
    }

    /// Whether a connection is to be tried before the dispatcher starts.
    pub closed spec fn probing(&self) -> bool {
        self.probe
    }

    /// The client that connections are acquired from.
    pub closed spec fn spec_client(&self) -> redis::Client {
        self.client
    }

    /// The configuration that this dispatcher was made from.
    pub open spec fn config(&self) -> ConfigView {
        ConfigView { uri: self.uri(), policy: self.policy(), probe: self.probing() }
    }

    /// This dispatcher is as `start` makes it from `config`: it has the
    /// settings of `config`, its circuit is closed, it has counted no
    /// failure, and its backoff is the minimum.
    pub open spec fn fresh_from(&self, config: ConfigView) -> bool {
        self.config() == config && self@ == config.policy.initial()
    }

    /// Starts a dispatcher's configuration; `start` on the builder makes the
    /// dispatcher.
    pub fn build() -> (builder: RedisActorBuilder)
        ensures
            builder@ == ConfigView::initial(),
    {
        RedisActorBuilder::new()
    }

    /// Puts a dispatcher together from its parts.
    pub(crate) fn assembled(client: redis::Client, uri: String, probe: bool, breaker: Breaker) -> (actor:
        RedisActor)
        ensures
            actor.spec_client() == client,
            actor.uri() == uri@,
            actor.probing() == probe,
            actor.policy() == breaker.spec_policy(),
            actor@ == breaker@,
    {
        RedisActor { client, uri, probe, breaker }
    }

    /// The client that connections are acquired from.
    pub fn client(&self) -> (client: &redis::Client)
        ensures
            *client == self.spec_client(),
    {
        &self.client
    }

    /// The address of the store.
    pub fn redis_uri(&self) -> (uri: &str)
        ensures
            uri@ == self.uri(),
    {
        self.uri.as_str()
    }

    /// The circuit breaker.
    pub fn breaker(&self) -> (breaker: &Breaker)
        ensures
            breaker@ == self@,
            breaker.spec_policy() == self.policy(),
    {
        &self.breaker
    }

    /// Whether a connection is to be tried before the dispatcher starts.
    pub fn needs_probe(&self) -> (probe: bool)
        ensures
            probe == self.probing(),
    {
        self.probe
    }

    /// Ends the start-up probe: with a connection the dispatcher comes back
    /// as it was; without one, a `Connection` error with the description of
    /// the failure.
    pub fn probed(self, outcome: Result<(), String>) -> (started: Result<RedisActor, Error>)
        ensures
            match outcome {
                Ok(_) => started == Ok::<RedisActor, Error>(self),
                Err(text) => started == Err::<RedisActor, Error>(
                    Error { kind: ErrorKind::Connection, message: text },
                ),
            },
    {
        match outcome {
            Ok(_) => Ok(self),
            Err(text) => Err(Error::connection(text)),
        }
    }

    /// Takes one step of a call: records what `event`, reported at `now`,
    /// means to the circuit breaker, and says what is to be done next.
    ///
    /// A submission is answered by `Connect`, or, where the breaker rejects
    /// it, by a `CircuitOpen` error at once. A connection is answered by
    /// `Execute`. What the store returned goes to the caller unchanged. A
    /// failed connection becomes a `Connection` error, a failed execution an
    /// `Execution` error, each with the description that was reported.
    pub fn handle<V>(&mut self, now: u64, event: Event<V>) -> (action: Action<V>)
        ensures
            final(self).config() == old(self).config(),
            final(self).spec_client() == old(self).spec_client(),
            final(self)@ == old(self).policy().after_event(old(self)@, now, event),
            old(self).policy().answers(old(self)@, now, event, action),
            final(self).policy().inv(final(self)@),
    {
        match event {
            Event::Submitted => {
                if self.breaker.arrive(now) {
                    Action::Connect
                } else {
                    Action::Reply(Err(Error::circuit_open()))
                }
            },
            Event::Connected => {
                self.breaker.record_success();
                Action::Execute
            },
            Event::ConnectFailed(text) => {
                self.breaker.record_failure(now);
                Action::Reply(Err(Error::connection(text)))
            },
            Event::Completed(value) => {
                self.breaker.record_success();
                Action::Reply(Ok(value))
            },
            Event::Failed(text) => {
                self.breaker.record_failure(now);
                Action::Reply(Err(Error::execution(text)))
            },
        }
    }
}

} // verus!
