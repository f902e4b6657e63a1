//! What a host needs to reach a plugin and to hand out its services: the
//! target of the connection, and the registry of service stubs.

use std::any::TypeId;
use std::collections::HashMap;

use foldhash::fast::RandomState;
use vstd::prelude::*;

use crate::error::{PluginxError, PluginxErrorView};
use crate::handshake::address::format_address;
use crate::handshake::message::{Network, NetworkView};
use crate::handshake::HandshakeError;

verus! {

/// The hasher of `foldhash` that the registry's map is built with.
#[verifier::external_type_specification]
#[verifier::external_body]
pub struct ExRandomState(RandomState);

/// `TypeId` of std, which identifies a type at run time.
#[verifier::external_type_specification]
#[verifier::external_body]
pub struct ExTypeId(TypeId);

/// `HashMapExt::new` of `foldhash`, which makes a map of std that hashes
/// with the default `RandomState` of `foldhash`: the map that comes back is
/// empty.
#[verifier::external_body]
fn map_new<H>() -> (m: HashMap<TypeId, H, RandomState>)
    ensures
        m@.dom() == Set::<TypeId>::empty(),
{
    foldhash::HashMapExt::new()
}

/// `HashMap::insert` of std on a map that hashes with `foldhash`: afterwards
/// the key stands for the new value, and every other key for what it stood
/// for before.
#[verifier::external_body]
fn map_insert<H>(m: &mut HashMap<TypeId, H, RandomState>, key: TypeId, value: H)
    ensures
        final(m)@ == old(m)@.insert(key, value),
{
    m.insert(key, value);
}

/// `HashMap::get` of std on a map that hashes with `foldhash`: the value that
/// the key stands for, if it stands for one.
#[verifier::external_body]
fn map_get<'a, H>(m: &'a HashMap<TypeId, H, RandomState>, key: &TypeId) -> (r: Option<&'a H>)
    ensures
        match r {
            Some(value) => m@.contains_key(*key) && *value == m@[*key],
            None => !m@.contains_key(*key),
        },
{
    m.get(key)
}

/// The stubs of the services of a plugin, each under the identifier of its
/// type. An identifier stands for one stub at most.
pub struct ServiceRegistry<H> {
    services: HashMap<TypeId, H, RandomState>,
}

impl<H> View for ServiceRegistry<H> {
    type V = Map<TypeId, H>;

    closed spec fn view(&self) -> Map<TypeId, H> {
        self.services@
    }
}

impl<H> ServiceRegistry<H> {
    /// The stub that is registered under `key`, if there is one.
    pub open spec fn lookup(&self, key: TypeId) -> Option<H> {
        if self@.contains_key(key) {
            Some(self@[key])
        } else {
            None
        }
    }

    /// A registry without stubs.
    pub fn new() -> (r: Self)
        ensures
            r@ == Map::<TypeId, H>::empty(),
    {
        ServiceRegistry { services: map_new() }
    }

    /// Registers `service` under `key`, in place of what was there.
    pub fn add_service(&mut self, key: TypeId, service: H)
        ensures
            final(self)@ == old(self)@.insert(key, service),
    {
        map_insert(&mut self.services, key, service);
    }

    /// The stub that is registered under `key`, if there is one.
    pub fn dispense(&self, key: &TypeId) -> (r: Option<&H>)
        ensures
            r is Some == self.lookup(*key) is Some,
            r matches Some(stub) ==> self.lookup(*key) == Some(*stub),
    {
        map_get(&self.services, key)
    }
}

/// A stub comes back under the identifier that it was registered under, and
/// registering it changes nothing under any other identifier: one that had no
/// stub before has none after.
pub proof fn lemma_dispense_identity<H>(
    before: ServiceRegistry<H>,
    after: ServiceRegistry<H>,
    key: TypeId,
    stub: H,
    other: TypeId,
)
    requires
        after@ == before@.insert(key, stub),
        other != key,
    ensures
        after.lookup(key) == Some(stub),
        after.lookup(other) == before.lookup(other),
        before@ == Map::<TypeId, H>::empty() ==> after.lookup(other) is None,
{
}

/// Where a host connects to.
#[derive(Clone, Debug, PartialEq, Eq)]
pub enum ChannelTarget {
    /// The TCP endpoint that this URI names.
    Tcp { uri: String },
    /// The Unix domain socket at `path`. The URI is there because a channel
    /// must have one; nothing is resolved from it.
    Unix { uri: String, path: String },
}

/// What a `ChannelTarget` stands for.
pub enum ChannelTargetView {
    Tcp { uri: Seq<char> },
    Unix { uri: Seq<char>, path: Seq<char> },
}

impl View for ChannelTarget {
    type V = ChannelTargetView;

    open spec fn view(&self) -> ChannelTargetView {
        match self {
            ChannelTarget::Tcp { uri } => ChannelTargetView::Tcp { uri: uri@ },
            ChannelTarget::Unix { uri, path } => ChannelTargetView::Unix { uri: uri@, path: path@ },
        }
    }
}

/// The URI that stands in for a socket path.
pub const UNIX_PLACEHOLDER_URI: &'static str = "http://[::1]";

/// Whether the parser of the `http` crate accepts a text as a URI.
pub uninterp spec fn uri_is_valid(text: Seq<char>) -> bool;

/// `Uri::from_str` of the `http` crate, asked only whether it accepts the
/// text: the answer depends on the text alone.
#[verifier::external_body]
fn uri_parses(text: &str) -> (ok: bool)
    ensures
        ok == uri_is_valid(text@),
{
    text.parse::<http::Uri>().is_ok()
}

/// The URI of a plugin that listens on a TCP socket.
pub open spec fn tcp_uri_text(addr: Seq<char>) -> Seq<char> {
    "http://"@ + addr
}

/// A result with its parts replaced by what they stand for.
pub open spec fn target_result_view(r: Result<ChannelTarget, PluginxError>) -> Result<
    ChannelTargetView,
    PluginxErrorView,
> {
    match r {
        Ok(t) => Ok(t@),
        Err(e) => Err(e@),
    }
}

/// The target for a network, given whether the URI of a TCP endpoint is one
/// that a channel can be built from. Without such a URI the network is of no
/// use, and the error names the address.
pub open spec fn channel_target_spec(network: NetworkView, uri_ok: bool) -> Result<
    ChannelTargetView,
    PluginxErrorView,
> {
    match network {
        NetworkView::Tcp(a) => if uri_ok {
            Ok(ChannelTargetView::Tcp { uri: tcp_uri_text(format_address(a)) })
        } else {
            Err(
                PluginxErrorView::Handshake {
                    error: HandshakeError::InvalidNetwork,
                    message: format_address(a),
                },
            )
        },
        NetworkView::Unix(path) => Ok(
            ChannelTargetView::Unix { uri: UNIX_PLACEHOLDER_URI@, path },
        ),
    }
}

/// The target for a network, given whether the URI of a TCP endpoint is one
/// that a channel can be built from.
pub fn channel_target_for(network: &Network, uri_ok: bool) -> (r: Result<
    ChannelTarget,
    PluginxError,
>)
    ensures
        target_result_view(r) == channel_target_spec(network@, uri_ok),
{
    match network {
        Network::Tcp(a) => {
            let addr = a.to_string();
            if uri_ok {
                let mut uri = "http://".to_owned();
                uri.append(addr.as_str());
                Ok(ChannelTarget::Tcp { uri })
            } else {
                Err(
                    PluginxError::Handshake {
                        error: HandshakeError::InvalidNetwork,
                        message: addr,
                    },
                )
            }
        },
        Network::Unix(path) => Ok(
            ChannelTarget::Unix { uri: UNIX_PLACEHOLDER_URI.to_owned(), path: path.clone() },
        ),
    }
}

/// The URI of a network, which decides whether a channel can be built for
/// it. A network on a Unix domain socket has a fixed one.
pub open spec fn network_uri_text(network: NetworkView) -> Seq<char> {
    match network {
        NetworkView::Tcp(a) => tcp_uri_text(format_address(a)),
        NetworkView::Unix(_) => UNIX_PLACEHOLDER_URI@,
    }
}

/// Where to connect to for a network: `http://` and the address for a TCP
/// socket, the socket path for a Unix one. A socket path always has a
/// target; a TCP address has one where its URI is valid.
pub fn channel_target(network: &Network) -> (r: Result<ChannelTarget, PluginxError>)
    ensures
        target_result_view(r) == channel_target_spec(
            network@,
            uri_is_valid(network_uri_text(network@)),
        ),
        network@ is Unix ==> r is Ok,
{
    let uri_ok = match network {
        Network::Tcp(a) => {
            let mut uri = "http://".to_owned();
            let addr = a.to_string();
            uri.append(addr.as_str());
            uri_parses(uri.as_str())
        },
        Network::Unix(_) => true,
    };
    channel_target_for(network, uri_ok)
}

} // verus!
