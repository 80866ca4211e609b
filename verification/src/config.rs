//! The configuration of a dispatcher and the builder that assembles it.

use vstd::prelude::*;
use crate::actor::RedisActor;
use crate::breaker::Breaker;
use crate::error::{Error, ErrorKind};
use crate::policy::Policy;
use crate::store::{open_client, uri_rejection};

verus! {

/// The settings of a dispatcher.
#[derive(Debug)]
pub struct RedisConfig {
    /// The address of the store.
    pub redis_uri: String,
    /// Whether the circuit breaker takes part.
    pub breaker_enabled: bool,
    /// The backoff after a success, and at the start.
    pub backoff_min: u64,
    /// The bound that the backoff never exceeds.
    pub backoff_max: u64,
    /// The number of consecutive failures at which the circuit opens.
    pub error_threshold: u64,
    /// Whether a connection is to be tried before the dispatcher starts.
    pub probe_enabled: bool,
}

/// A configuration as plain values.
pub struct ConfigView {
    /// The address of the store.
    pub uri: Seq<char>,
    /// The settings of the circuit breaker.
    pub policy: Policy,
    /// Whether a connection is to be tried before the dispatcher starts.
    pub probe: bool,
}

impl ConfigView {
    /// The address that a configuration has until another is set.
    pub open spec fn default_uri() -> Seq<char> {
        "redis://127.0.0.1:6379"@
    }

    /// The configuration that a builder starts from: the local default
    /// address, no breaker, zero backoff bounds, zero threshold, no probe.
    pub open spec fn initial() -> ConfigView {
        ConfigView {
            uri: ConfigView::default_uri(),
            policy: Policy { enabled: false, threshold: 0, backoff_min: 0, backoff_max: 0 },
            probe: false,
        }
    }

    /// Why no dispatcher can be had from this configuration: its backoff
    /// bounds are out of order, or else the store's client library rejects
    /// its address. Nothing where one can be had.
    pub open spec fn rejection(self) -> Option<Seq<char>> {
        if !self.policy.wf() {
            Some(Error::backoff_bounds_text())
        } else {
            uri_rejection(self.uri)
        }
    }
}

impl View for RedisConfig {
    type V = ConfigView;

    open spec fn view(&self) -> ConfigView {
        ConfigView {
            uri: self.redis_uri@,
            policy: Policy {
                enabled: self.breaker_enabled,
                threshold: self.error_threshold,
                backoff_min: self.backoff_min,
                backoff_max: self.backoff_max,
            },
            probe: self.probe_enabled,
        }
    }
}

impl Default for RedisConfig {
    fn default() -> (config: RedisConfig)
        ensures
            config@ == ConfigView::initial(),
    {
        RedisConfig {
            redis_uri: "redis://127.0.0.1:6379".to_owned(),
            breaker_enabled: false,
            backoff_min: 0,
            backoff_max: 0,
            error_threshold: 0,
            probe_enabled: false,
        }
    }
}

impl RedisConfig {
    /// The settings of the circuit breaker.
    pub fn policy(&self) -> (policy: Policy)
        ensures
            policy == self@.policy,
    {
        Policy {
            enabled: self.breaker_enabled,
            threshold: self.error_threshold,
            backoff_min: self.backoff_min,
            backoff_max: self.backoff_max,
        }
    }
}

/// Assembles a configuration step by step; `start` turns it into a
/// dispatcher.
#[derive(Debug)]
pub struct RedisActorBuilder(RedisConfig);

impl View for RedisActorBuilder {
    type V = ConfigView;

    closed spec fn view(&self) -> ConfigView {
        self.0@
    }
}

impl RedisActorBuilder {
    /// A builder that holds the default configuration.
    pub fn new() -> (builder: RedisActorBuilder)
        ensures
            builder@ == ConfigView::initial(),
    {
        RedisActorBuilder(RedisConfig::default())
    }

    /// The configuration assembled so far.
    pub fn config(&self) -> (config: &RedisConfig)
        ensures
            config@ == self@,
    {
        &self.0
    }

    /// Sets the address of the store.
    pub fn set_uri(self, arg: &str) -> (next: RedisActorBuilder)
        ensures
            next@ == (ConfigView { uri: arg@, ..self@ }),
    {
        let mut next = self;
        next.0.redis_uri = arg.to_owned();
        next
    }

    /// Switches the circuit breaker on.
    pub fn enable_breaker(self) -> (next: RedisActorBuilder)
        ensures
            next@ == (ConfigView { policy: Policy { enabled: true, ..self@.policy }, ..self@ }),
    {
        let mut next = self;
        next.0.breaker_enabled = true;
        next
    }

    /// Sets the bounds of the backoff, in the unit of the caller's clock.
    /// Bounds that are out of order are refused by `start`.
    pub fn set_backoff(self, min: u64, max: u64) -> (next: RedisActorBuilder)
        ensures
            next@ == (ConfigView {
                policy: Policy { backoff_min: min, backoff_max: max, ..self@.policy },
                ..self@
            }),
    {
        let mut next = self;
        next.0.backoff_min = min;
        next.0.backoff_max = max;
        next
    }

    /// Sets the number of consecutive failures at which the circuit opens.
    /// With zero the breaker takes no part, enabled or not.
    pub fn set_error_threshold(self, threshold: u64) -> (next: RedisActorBuilder)
        ensures
            next@ == (ConfigView { policy: Policy { threshold, ..self@.policy }, ..self@ }),
    {
        let mut next = self;
        next.0.error_threshold = threshold;
        next
    }

    /// Asks for a connection to be tried before the dispatcher starts.
    pub fn enable_probe(self) -> (next: RedisActorBuilder)
        ensures
            next@ == (ConfigView { probe: true, ..self@ }),
    {
        let mut next = self;
        next.0.probe_enabled = true;
        next
    }

    /// Validates the configuration, given what opening a client on its
    /// address returned, and makes the dispatcher. The bounds are looked at
    /// first; every refusal is a `Configuration` error.
    pub fn assemble(self, opened: Result<redis::Client, String>) -> (started: Result<
        RedisActor,
        Error,
    >)
        ensures
            started is Ok <==> self@.policy.wf() && opened is Ok,
            started matches Ok(actor) ==> actor.fresh_from(self@) && Ok::<redis::Client, String>(
                actor.spec_client(),
            ) == opened,
            started matches Err(e) ==> {
                &&& e.kind == ErrorKind::Configuration
                &&& !self@.policy.wf() ==> e.message@ == Error::backoff_bounds_text()
                &&& self@.policy.wf() ==> opened == Err::<redis::Client, String>(e.message)
            },
    {
        let policy = self.0.policy();
        match Breaker::new(policy) {
            None => Err(
                Error::configuration("backoff minimum exceeds backoff maximum".to_owned()),
            ),
            Some(breaker) => match opened {
                Err(text) => Err(Error::configuration(text)),
                Ok(client) => Ok(
                    RedisActor::assembled(client, self.0.redis_uri, self.0.probe_enabled, breaker),
                ),
            },
        }
    }

    /// Validates the configuration and makes the dispatcher: one comes back
    /// exactly where the backoff bounds are in order and the store's client
    /// library accepts the address; otherwise a `Configuration` error says
    /// what was refused. The dispatcher is fresh: its circuit closed, no
    /// failures counted, its backoff the minimum.
    pub fn start(self) -> (started: Result<RedisActor, Error>)
        ensures
            started is Ok <==> self@.rejection() is None,
            started matches Ok(actor) ==> actor.fresh_from(self@),
            started matches Err(e) ==> e.kind == ErrorKind::Configuration && self@.rejection()
                == Some(e.message@),
    {
        let opened = open_client(self.0.redis_uri.as_str());
        self.assemble(opened)
    }
}

} // verus!
