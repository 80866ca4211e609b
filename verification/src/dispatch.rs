//! One call through the dispatcher, as events and actions.
//!
//! The dispatcher does no I/O. Whoever runs it reports each thing that
//! happened as an [`Event`] and carries out the [`Action`] that comes back:
//! a submitted command is followed by `Connect` or by a reply; a connection
//! by `Execute`; a reply from the store, or any failure, by the reply that
//! the caller of the dispatcher gets.

use vstd::prelude::*;
use crate::error::{Error, ErrorKind};
use crate::policy::{BreakerState, Policy};

verus! {

/// What happened to a call. `V` is what the store returns: one value for a
/// command, a sequence of values for a pipeline.
pub enum Event<V> {
    /// A caller has handed in a command or a pipeline.
    Submitted,
    /// A connection to the store has been acquired.
    Connected,
    /// No connection could be acquired; the text describes why.
    ConnectFailed(String),
    /// The store has answered.
    Completed(V),
    /// The store rejected the request, or its answer could not be decoded;
    /// the text describes why.
    Failed(String),
}

/// What is to be done next for a call.
pub enum Action<V> {
    /// Acquire a connection to the store.
    Connect,
    /// Send the command or pipeline over the connection just acquired.
    Execute,
    /// The call is over: hand this to the caller.
    Reply(Result<V, Error>),
}

impl Policy {
    /// The state that follows `s` when `event` is reported at `now`: a
    /// submission is a call that arrives, a connection and an answer count
    /// as successes, both kinds of failure as failures.
    pub open spec fn after_event<V>(self, s: BreakerState, now: u64, event: Event<V>)
        -> BreakerState {
        match event {
            Event::Submitted => self.after_arrival(s, now),
            Event::Connected => self.after_success(s),
            Event::ConnectFailed(_) => self.after_failure(s, now),
            Event::Completed(_) => self.after_success(s),
            Event::Failed(_) => self.after_failure(s, now),
        }
    }

    /// `action` is the answer to `event`, reported at `now` in state `s`.
    pub open spec fn answers<V>(
        self,
        s: BreakerState,
        now: u64,
        event: Event<V>,
        action: Action<V>,
    ) -> bool {
        match event {
            Event::Submitted => if self.allows(s, now) {
                action is Connect
            } else {
                &&& action matches Action::Reply(Err(e))
                &&& e.kind == ErrorKind::CircuitOpen
                &&& e.message@ == Error::circuit_open_text()
            },
            Event::Connected => action is Execute,
            Event::ConnectFailed(text) => action == Action::<V>::Reply(
                Err(Error { kind: ErrorKind::Connection, message: text }),
            ),
            Event::Completed(value) => action == Action::Reply(Ok(value)),
            Event::Failed(text) => action == Action::<V>::Reply(
                Err(Error { kind: ErrorKind::Execution, message: text }),
            ),
        }
    }
}

} // verus!
