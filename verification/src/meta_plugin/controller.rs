//! The controller, by which a host ends a plugin. A call of `Shutdown` only
//! raises the exit signal and returns; the serving loop watches the signal
//! and winds down after the reply has gone out.

use vstd::prelude::*;

use crate::error::RpcStatus;

verus! {

/// The exit signal of a plugin: down at first, raised once, and up for good.
#[derive(Clone, Copy, Debug, PartialEq, Eq, Structural)]
pub struct ControllerExitSignal {
    raised: bool,
}

/// What someone who waits for the exit signal does next.
#[derive(Clone, Copy, Debug, PartialEq, Eq, Structural)]
pub enum Wait {
    /// The signal is up: go on.
    Released,
    /// The signal is down: sleep until it is raised.
    Suspended,
}

/// The reply to a call of `Shutdown`.
#[derive(Clone, Copy, Debug, PartialEq, Eq, Structural)]
pub struct ShutdownReply {
    /// Tells whether those who sleep on the signal are to be woken. They are
    /// woken on every call: waking a second time harms nobody.
    pub wake_waiters: bool,
}

impl ControllerExitSignal {
    /// Tells whether the signal is up.
    pub closed spec fn is_raised(&self) -> bool {
        self.raised
    }

    /// What someone who asks now is to do.
    pub open spec fn wait_spec(&self) -> Wait {
        if self.is_raised() {
            Wait::Released
        } else {
            Wait::Suspended
        }
    }

    /// Tells whether the signal is up.
    pub fn raised(&self) -> (b: bool)
        ensures
            b == self.is_raised(),
    {
        self.raised
    }

    /// What someone who waits for the signal does next: with the signal up,
    /// nobody is made to wait.
    pub fn wait(&self) -> (w: Wait)
        ensures
            w == self.wait_spec(),
    {
        if self.raised {
            Wait::Released
        } else {
            Wait::Suspended
        }
    }
}

/// The controller service.
#[derive(Clone, Copy, Debug, PartialEq, Eq, Structural)]
pub struct ControllerServer;

impl ControllerServer {
    /// The service, and the signal that it raises, still down.
    pub fn new() -> (r: (ControllerServer, ControllerExitSignal))
        ensures
            !r.1.is_raised(),
    {
        (ControllerServer, ControllerExitSignal { raised: false })
    }

    /// Answers a call of `Shutdown`: raises the signal and reports success.
    /// A call that finds the signal up leaves it up and succeeds as well.
    pub fn shutdown(&self, signal: &mut ControllerExitSignal) -> (r: Result<
        ShutdownReply,
        RpcStatus,
    >)
        ensures
            final(signal).is_raised(),
            r == Ok::<ShutdownReply, RpcStatus>(ShutdownReply { wake_waiters: true }),
    {
        signal.raised = true;
        Ok(ShutdownReply { wake_waiters: true })
    }
}

/// Once `Shutdown` has been answered, nobody waits for the signal any more:
/// whoever asks, then or later, is released.
pub proof fn lemma_shutdown_releases(after: ControllerExitSignal)
    requires
        after.is_raised(),
    ensures
        after.wait_spec() == Wait::Released,
{
}

/// Raising the signal again changes nothing.
pub proof fn lemma_shutdown_idempotent(once: ControllerExitSignal, twice: ControllerExitSignal)
    requires
        once.is_raised(),
        twice.is_raised(),
    ensures
        once == twice,
{
}

} // verus!
