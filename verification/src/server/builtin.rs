//! Stand-ins for the broker and the output relay, for a plugin that offers
//! the two services on the wire and has nothing to say on either.

use vstd::prelude::*;

use crate::error::RpcStatus;
use crate::meta_plugin::broker::PendingStream;

verus! {

/// A broker that accepts every stream and never answers on it.
#[derive(Clone, Copy, Debug, PartialEq, Eq, Structural)]
pub struct Broker;

impl Broker {
    /// The broker.
    pub fn new() -> (b: Broker)
        ensures
            b == Broker,
    {
        Broker
    }

    /// Answers a call of `StartStream` with a stream that stays silent.
    pub fn start_stream(&self) -> (r: Result<PendingStream, RpcStatus>)
        ensures
            r is Ok,
    {
        Ok(PendingStream)
    }
}

/// An output relay that accepts every call and never sends anything.
#[derive(Clone, Copy, Debug, PartialEq, Eq, Structural)]
pub struct Stdio;

impl Stdio {
    /// The relay.
    pub fn new() -> (s: Stdio)
        ensures
            s == Stdio,
    {
        Stdio
    }

    /// Answers a call of `StreamStdio` with a stream that stays silent.
    pub fn stream_stdio(&self) -> (r: Result<PendingStream, RpcStatus>)
        ensures
            r is Ok,
    {
        Ok(PendingStream)
    }
}

} // verus!
