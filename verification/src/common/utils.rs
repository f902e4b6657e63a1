//! The search for a transport: a free TCP port within a range, or a socket
//! path that nobody else holds.

use vstd::prelude::*;

use crate::error::{IoError, IoErrorKind};
use crate::handshake::address::SocketAddress;

verus! {

/// The endpoint on the loopback address with this port. A plugin listens
/// there and nowhere else, so that only its own machine can reach it.
pub open spec fn loopback(port: u16) -> SocketAddress {
    SocketAddress::V4 { ip: [127u8, 0u8, 0u8, 1u8], port }
}

/// The endpoint on the loopback address with this port.
pub fn loopback_address(port: u16) -> (a: SocketAddress)
    ensures
        a == loopback(port),
{
    let a = SocketAddress::V4 { ip: [127, 0, 0, 1], port };
    assert(a->V4_ip =~= loopback(port)->V4_ip);
    a
}

/// What came of an attempt to bind one endpoint.
pub enum BindOutcome<L> {
    /// The port was free; this is the listener on it.
    Bound(L),
    /// The port is taken.
    AddrInUse,
    /// The attempt failed for another reason.
    Failed(IoError),
}

/// Tells whether `bind` has found every port of the loopback address from
/// `first` up to, but not including, `port` taken.
pub open spec fn taken_before<L, F: Fn(SocketAddress) -> BindOutcome<L>>(
    bind: F,
    first: u16,
    port: int,
) -> bool {
    forall|q: u16|
        first <= q < port ==> call_ensures(bind, (loopback(q),), BindOutcome::<L>::AddrInUse)
}

/// What a search of the ports `first` to `last` with `bind` may end in: the
/// listener on the first port that was not taken, or the failure met there,
/// or, with every port taken, a failure of kind `AddrInUse`.
pub open spec fn tcp_search_result<L, F: Fn(SocketAddress) -> BindOutcome<L>>(
    bind: F,
    first: u16,
    last: u16,
    r: Result<L, IoError>,
) -> bool {
    ||| r is Ok && exists|p: u16|
        first <= p <= last && taken_before(bind, first, p as int) && #[trigger] call_ensures(
            bind,
            (loopback(p),),
            BindOutcome::Bound(r->Ok_0),
        )
    ||| r is Err && exists|p: u16|
        first <= p <= last && taken_before(bind, first, p as int) && #[trigger] call_ensures(
            bind,
            (loopback(p),),
            BindOutcome::<L>::Failed(r->Err_0),
        )
    ||| r is Err && taken_before(bind, first, last + 1) && r->Err_0.kind == IoErrorKind::AddrInUse
}

/// Finds a listener on a free port of the loopback address. The ports
/// `first` to `last` are tried in order with `bind`. The first one that is
/// not taken decides: its listener is the result, or its failure. When all
/// are taken, or the range is empty, the search fails with `AddrInUse`.
pub fn find_available_tcp_listener<L, F: Fn(SocketAddress) -> BindOutcome<L>>(
    first: u16,
    last: u16,
    bind: F,
) -> (r: Result<L, IoError>)
    requires
        forall|p: u16| first <= p <= last ==> call_requires(bind, (loopback(p),)),
    ensures
        tcp_search_result(bind, first, last, r),
{
    if first > last {
        return Err(IoError::addr_in_use());
    }
    let mut port: u32 = first as u32;
    while port <= last as u32
        invariant
            first <= port <= last + 1,
            forall|p: u16| first <= p <= last ==> call_requires(bind, (loopback(p),)),
            taken_before(bind, first, port as int),
        decreases last + 1 - port,
    {
        let p: u16 = port as u16;
        let outcome = bind(loopback_address(p));
        assert(call_ensures(bind, (loopback(p),), outcome));
        match outcome {
            BindOutcome::Bound(listener) => {
                let r: Result<L, IoError> = Ok(listener);
                assert(call_ensures(bind, (loopback(p),), BindOutcome::Bound(r->Ok_0)));
                return r;
            },
            BindOutcome::AddrInUse => {},
            BindOutcome::Failed(e) => {
                assert(call_ensures(bind, (loopback(p),), BindOutcome::<L>::Failed(e)));
                return Err(e);
            },
        }
        port += 1;
    }
    Err(IoError::addr_in_use())
}

/// With one port free and every other taken, the search ends with the
/// listener on the free port.
pub proof fn lemma_single_free_port<L, F: Fn(SocketAddress) -> BindOutcome<L>>(
    bind: F,
    first: u16,
    last: u16,
    free: u16,
    r: Result<L, IoError>,
)
    requires
        first <= free <= last,
        tcp_search_result(bind, first, last, r),
        forall|q: u16, o: BindOutcome<L>|
            first <= q <= last && q != free && #[trigger] call_ensures(bind, (loopback(q),), o)
                ==> o is AddrInUse,
        forall|o: BindOutcome<L>|
            #[trigger] call_ensures(bind, (loopback(free),), o) ==> o is Bound,
    ensures
        r is Ok,
        call_ensures(bind, (loopback(free),), BindOutcome::Bound(r->Ok_0)),
{
    if r is Err && taken_before(bind, first, last + 1) {
        assert(call_ensures(bind, (loopback(free),), BindOutcome::<L>::AddrInUse));
    }
    if r is Ok {
        let p = choose|p: u16|
            first <= p <= last && taken_before(bind, first, p as int) && #[trigger] call_ensures(
                bind,
                (loopback(p),),
                BindOutcome::Bound(r->Ok_0),
            );
        assert(p == free);
    }
}

/// With every port taken, the search fails with `AddrInUse`.
pub proof fn lemma_no_free_port<L, F: Fn(SocketAddress) -> BindOutcome<L>>(
    bind: F,
    first: u16,
    last: u16,
    r: Result<L, IoError>,
)
    requires
        tcp_search_result(bind, first, last, r),
        forall|q: u16, o: BindOutcome<L>|
            first <= q <= last && #[trigger] call_ensures(bind, (loopback(q),), o)
                ==> o is AddrInUse,
    ensures
        r is Err,
        r->Err_0.kind == IoErrorKind::AddrInUse,
{
}

/// What came of an attempt to reserve a fresh socket path by creating a
/// placeholder file under a random name.
pub enum ReserveOutcome {
    /// The placeholder was created at this path.
    Reserved(String),
    /// A file of the chosen name was there already.
    AlreadyExists,
    /// The attempt failed for another reason.
    Failed(IoError),
}

/// What the search for a socket path does next.
pub enum UnixSocketStep {
    /// Try again, under another random name.
    Retry,
    /// Remove the placeholder and bind the listener to its path.
    Bind(String),
    /// Give up with this failure.
    Fail(IoError),
}

/// How many random characters the file name of a socket gets after its
/// prefix.
pub const SOCKET_NAME_RANDOM_LEN: usize = 8;

/// Decides how the search for a socket path goes on after one attempt to
/// reserve a name: a reserved path is bound, a name that was taken is
/// replaced by another, and any other failure ends the search.
pub fn unix_socket_step(outcome: ReserveOutcome) -> (step: UnixSocketStep)
    ensures
        match outcome {
            ReserveOutcome::Reserved(path) => step == UnixSocketStep::Bind(path),
            ReserveOutcome::AlreadyExists => step == UnixSocketStep::Retry,
            ReserveOutcome::Failed(e) => step == UnixSocketStep::Fail(e),
        },
{
    match outcome {
        ReserveOutcome::Reserved(path) => UnixSocketStep::Bind(path),
        ReserveOutcome::AlreadyExists => UnixSocketStep::Retry,
        ReserveOutcome::Failed(e) => UnixSocketStep::Fail(e),
    }
}

} // verus!
