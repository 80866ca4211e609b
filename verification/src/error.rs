//! The uniform error type of the dispatch layer.

use vstd::prelude::*;

verus! {

/// What went wrong, as far as a caller needs to branch on it.
#[derive(Clone, Copy, Debug, PartialEq, Eq, Structural)]
pub enum ErrorKind {
    /// A connection to the store could not be acquired.
    Connection,
    /// The store rejected a command, or its reply could not be decoded.
    Execution,
    /// The circuit breaker is open: nothing was attempted.
    CircuitOpen,
    /// The configuration is invalid: the dispatcher was not started.
    Configuration,
}

/// A failure of the dispatch layer: its kind and a description for humans.
#[derive(Debug)]
pub struct Error {
    pub kind: ErrorKind,
    pub message: String,
}

impl Error {
    /// The text carried by the error that reports an open circuit.
    pub open spec fn circuit_open_text() -> Seq<char> {
        "circuit breaker is open"@
    }

    /// The text carried by the error that reports inverted backoff bounds.
    pub open spec fn backoff_bounds_text() -> Seq<char> {
        "backoff minimum exceeds backoff maximum"@
    }

    /// An error of the given kind with the given description.
    pub fn new(kind: ErrorKind, message: String) -> (e: Error)
        ensures
            e.kind == kind,
            e.message == message,
    {
        Error { kind, message }
    }

    /// A failed connection attempt, described by `message`.
    pub fn connection(message: String) -> (e: Error)
        ensures
            e.kind == ErrorKind::Connection,
            e.message == message,
    {
        Error { kind: ErrorKind::Connection, message }
    }

    /// A failed command or an undecodable reply, described by `message`.
    pub fn execution(message: String) -> (e: Error)
        ensures
            e.kind == ErrorKind::Execution,
            e.message == message,
    {
        Error { kind: ErrorKind::Execution, message }
    }

    /// An invalid configuration, described by `message`.
    pub fn configuration(message: String) -> (e: Error)
        ensures
            e.kind == ErrorKind::Configuration,
            e.message == message,
    {
        Error { kind: ErrorKind::Configuration, message }
    }

    /// The fast-fail signal of an open circuit.
    pub fn circuit_open() -> (e: Error)
        ensures
            e.kind == ErrorKind::CircuitOpen,
            e.message@ == Error::circuit_open_text(),
    {
        Error { kind: ErrorKind::CircuitOpen, message: "circuit breaker is open".to_owned() }
    }

    /// The kind of this error.
    pub fn kind(&self) -> (k: ErrorKind)
        ensures
            k == self.kind,
    {
        self.kind
    }

    /// The description carried by this error.
    pub fn message(&self) -> (m: &str)
        ensures
            m@ == self.message@,
    {
        self.message.as_str()
    }
}

} // verus!
