//! The broker, which is there for the wire's sake and brokers nothing yet.

use vstd::prelude::*;

use crate::error::RpcStatus;

verus! {

/// A stream of replies that never yields one and never ends.
#[derive(Clone, Copy, Debug, PartialEq, Eq, Structural)]
pub struct PendingStream;

/// What the plugin keeps of its broker.
#[derive(Clone, Copy, Debug, PartialEq, Eq, Structural)]
pub struct BrokerHandler;

/// The broker service.
#[derive(Clone, Copy, Debug, PartialEq, Eq, Structural)]
pub struct BrokerServer;

impl BrokerServer {
    /// The service, and the handle that the plugin keeps.
    pub fn new() -> (r: (BrokerServer, BrokerHandler))
        ensures
            r == (BrokerServer, BrokerHandler),
    {
        (BrokerServer, BrokerHandler)
    }

    /// Answers a call of `StartStream`: every call is accepted, and none is
    /// ever sent a reply.
    pub fn start_stream(&self) -> (r: Result<PendingStream, RpcStatus>)
        ensures
            r is Ok,
    {
        Ok(PendingStream)
    }
}

} // verus!
