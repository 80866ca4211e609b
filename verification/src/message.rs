//! The messages that a dispatcher accepts: one command, or a pipeline.

use vstd::prelude::*;
use crate::store::{copy_command, copy_pipeline};

verus! {

/// A command handed to a dispatcher: the dispatcher's own copy of a
/// `redis::Cmd`, which later changes to the caller's command do not reach.
pub struct Command(redis::Cmd);

impl Command {
    /// The command that this message holds.
    pub closed spec fn held(&self) -> redis::Cmd {
        self.0
    }

    /// Wraps a copy of `cmd`; the caller's command stays as it is.
    pub fn wrap(cmd: &mut redis::Cmd) -> (wrapped: Command)
        ensures
            wrapped.held() == *old(cmd),
            *final(cmd) == *old(cmd),
    {
        Command(copy_command(cmd))
    }

    /// The command that this message holds, to be sent to the store.
    pub fn command(&self) -> (cmd: &redis::Cmd)
        ensures
            *cmd == self.held(),
    {
        &self.0
    }
}

/// A pipeline handed to a dispatcher: the dispatcher's own copy of a
/// `redis::Pipeline`, whose commands go to the store in one round trip.
pub struct Pipe(redis::Pipeline);

impl Pipe {
    /// The pipeline that this message holds.
    pub closed spec fn held(&self) -> redis::Pipeline {
        self.0
    }

    /// Wraps a copy of `rpipe`; the caller's pipeline stays as it is.
    pub fn line(rpipe: &mut redis::Pipeline) -> (wrapped: Pipe)
        ensures
            wrapped.held() == *old(rpipe),
            *final(rpipe) == *old(rpipe),
    {
        Pipe(copy_pipeline(rpipe))
    }

    /// The pipeline that this message holds, to be sent to the store.
    pub fn pipeline(&self) -> (pipeline: &redis::Pipeline)
        ensures
            *pipeline == self.held(),
    {
        &self.0
    }
}

} // verus!
