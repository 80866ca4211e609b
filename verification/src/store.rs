//! The store's client library, as far as the dispatch layer relies on it.
//!
//! Nothing in this file is proved: the types are those of the `redis` crate,
//! and each function states what that crate's code does.

use vstd::prelude::*;

verus! {

/// `redis::Client`: the address of a store, parsed and ready to connect to.
#[verifier::external_type_specification]
#[verifier::external_body]
pub struct ExClient(redis::Client);

/// `redis::Cmd`: one command, its name and arguments already encoded.
#[verifier::external_type_specification]
#[verifier::external_body]
pub struct ExCmd(redis::Cmd);

/// `redis::Pipeline`: commands to be sent in one round trip, in order.
#[verifier::external_type_specification]
#[verifier::external_body]
pub struct ExPipeline(redis::Pipeline);

/// What `redis::Client::open` has against the address `uri`: nothing where
/// it accepts the address, else the description of the error it returns.
/// Opening a client parses the address and connects to nothing, so for the
/// `redis` crate as it is built into this library the answer depends on the
/// text alone.
pub uninterp spec fn uri_rejection(uri: Seq<char>) -> Option<Seq<char>>;

/// Calls `redis::Client::open` on `uri`. The client comes back exactly where
/// the crate accepts the address; otherwise the description of the crate's
/// error does.
#[verifier::external_body]
#[allow(deprecated)]
pub(crate) fn open_client(uri: &str) -> (opened: Result<redis::Client, String>)
    ensures
        opened is Ok <==> uri_rejection(uri@) is None,
        opened matches Err(text) ==> uri_rejection(uri@) == Some(text@),
{
    match redis::Client::open(uri) {
        Ok(client) => Ok(client),
        Err(e) => Err(std::error::Error::description(&e).to_string()),
    }
}

/// Calls `clone` on a `redis::Cmd`, which the crate derives: the copy holds
/// what the original holds.
#[verifier::external_body]
pub(crate) fn copy_command(cmd: &redis::Cmd) -> (copy: redis::Cmd)
    ensures
        copy == *cmd,
{
    cmd.clone()
}

/// Calls `clone` on a `redis::Pipeline`, which the crate derives: the copy
/// holds what the original holds.
#[verifier::external_body]
pub(crate) fn copy_pipeline(pipeline: &redis::Pipeline) -> (copy: redis::Pipeline)
    ensures
        copy == *pipeline,
{
    pipeline.clone()
}

} // verus!
