//! A resilient dispatch layer between application code and a Redis store.
//!
//! The crate holds the decisions of the layer: the circuit breaker that every
//! call has to pass, the state machine that a dispatcher runs for each submitted
//! command or pipeline, the configuration builder, and the uniform error type.
//! Connecting to the store and sending commands is left to the caller, which
//! performs the actions the dispatcher asks for and reports what happened.

pub mod actor;
pub mod breaker;
pub mod config;
pub mod decode;
pub mod dispatch;
pub mod error;
pub mod laws;
pub mod message;
pub mod policy;
pub mod store;

pub use actor::RedisActor;
pub use breaker::Breaker;
pub use config::{ConfigView, RedisActorBuilder, RedisConfig};
pub use decode::val;
pub use dispatch::{Action, Event};
pub use error::{Error, ErrorKind};
pub use message::{Command, Pipe};
pub use policy::{BreakerState, CircuitState, Policy};
