//! The host side: the start-up of a plugin from the launch of its process to
//! an open connection, the stubs that a host hands out, and the output that
//! it relays.

pub mod config;
pub mod startup;

use std::any::TypeId;

use vstd::prelude::*;

use self::config::ClientConfig;
use self::startup::{
    announced_socket, host_next, Host, HostAction, HostEvent, HostEventView, HostPhase, HostState,
};
use crate::common::client::ServiceRegistry;
use crate::error::RpcStatus;
use crate::handshake::message::Network;
use crate::meta_plugin::stdio::{StdioMessage, CHANNEL_STDERR, CHANNEL_STDOUT};
use crate::text::text_of;

verus! {

/// One piece of the output of a plugin, as its host gets it.
#[derive(Clone, Debug, PartialEq, Eq, Default)]
pub enum StdioData {
    /// A message on a channel that the host does not know.
    #[default]
    Invalid,
    /// Bytes from the standard output.
    Stdout(Vec<u8>),
    /// Bytes from the standard error.
    Stderr(Vec<u8>),
}

/// What a `StdioData` stands for.
pub enum StdioDataView {
    Invalid,
    Stdout(Seq<u8>),
    Stderr(Seq<u8>),
}

impl View for StdioData {
    type V = StdioDataView;

    open spec fn view(&self) -> StdioDataView {
        match self {
            StdioData::Invalid => StdioDataView::Invalid,
            StdioData::Stdout(data) => StdioDataView::Stdout(data@),
            StdioData::Stderr(data) => StdioDataView::Stderr(data@),
        }
    }
}

/// What a message on the wire means to the host. The bytes of a message on
/// an unknown channel are dropped.
pub open spec fn decode_stdio(channel: i32, data: Seq<u8>) -> StdioDataView {
    if channel == CHANNEL_STDOUT {
        StdioDataView::Stdout(data)
    } else if channel == CHANNEL_STDERR {
        StdioDataView::Stderr(data)
    } else {
        StdioDataView::Invalid
    }
}

/// What the host sees of a stream of messages: every message in its turn, up
/// to the first failure, which ends the stream.
pub open spec fn relayed(items: Seq<Result<StdioMessage, RpcStatus>>) -> Seq<StdioDataView>
    decreases items.len(),
{
    if items.len() == 0 {
        Seq::<StdioDataView>::empty()
    } else {
        match items[0] {
            Ok(message) => seq![decode_stdio(message.channel, message.data@)] + relayed(
                items.drop_first(),
            ),
            Err(_) => Seq::<StdioDataView>::empty(),
        }
    }
}

impl StdioData {
    /// What a message on the wire means to the host.
    pub fn from_message(message: StdioMessage) -> (data: StdioData)
        ensures
            data@ == decode_stdio(message.channel, message.data@),
    {
        if message.channel == CHANNEL_STDOUT {
            StdioData::Stdout(message.data)
        } else if message.channel == CHANNEL_STDERR {
            StdioData::Stderr(message.data)
        } else {
            StdioData::Invalid
        }
    }
}

/// The stream of a plugin's output, not yet opened. It holds the client of
/// the relay service, which is used up by opening the stream.
pub struct StdioStream<C>(pub C);

impl<C> StdioStream<C> {
    /// What the host makes of one item of the stream: the piece of output
    /// that a message carries, or, at a failure, the end of the stream.
    pub fn relay(item: Result<StdioMessage, RpcStatus>) -> (data: Option<StdioData>)
        ensures
            match item {
                Ok(message) => data is Some && data->0@ == decode_stdio(
                    message.channel,
                    message.data@,
                ),
                Err(_) => data is None,
            },
    {
        match item {
            Ok(message) => Some(StdioData::from_message(message)),
            Err(_) => None,
        }
    }

    /// What the host makes of the items of a stream, in their order.
    pub fn read(items: Vec<Result<StdioMessage, RpcStatus>>) -> (out: Vec<StdioData>)
        ensures
            out@.map_values(|d: StdioData| d@) == relayed(items@),
    {
        let ghost all = items@;
        let mut out: Vec<StdioData> = Vec::new();
        assert(all.skip(0) == all);
        assert(out@.map_values(|d: StdioData| d@) + relayed(all) == relayed(all));
        for item in it: items
            invariant
                it.seq() == all,
                relayed(all) == out@.map_values(|d: StdioData| d@) + relayed(
                    all.skip(it.index()),
                ),
        {
            let ghost i = it.index();
            let ghost before = out@.map_values(|d: StdioData| d@);
            assert(all.skip(i)[0] == all[i]);
            assert(all.skip(i).drop_first() == all.skip(i + 1));
            match StdioStream::<C>::relay(item) {
                Some(data) => {
                    out.push(data);
                    assert(out@.map_values(|d: StdioData| d@) == before.push(data@));
                    assert(before.push(data@) + relayed(all.skip(i + 1)) == before + (seq![data@]
                        + relayed(all.skip(i + 1))));
                },
                None => {
                    assert(before + Seq::<StdioDataView>::empty() == before);
                    return out;
                },
            }
        }
        assert(all.skip(all.len() as int) == Seq::<Result<StdioMessage, RpcStatus>>::empty());
        assert(out@.map_values(|d: StdioData| d@) + Seq::<StdioDataView>::empty()
            == out@.map_values(|d: StdioData| d@));
        out
    }
}

/// How a plugin is launched.
pub struct Launch {
    /// The variables to add to the environment of the process.
    pub environment: Vec<(String, String)>,
    /// How long the plugin may take to announce itself, in milliseconds.
    pub startup_timeout_ms: u64,
    /// Whether the standard output and the standard error of the process
    /// are piped to the host. They always are: the handshake comes that way.
    pub pipe_output: bool,
    /// Whether the process is killed when the host lets go of it. It always
    /// is: a plugin must not outlive a host that has failed.
    pub kill_on_drop: bool,
}

/// A host that brings up its plugin and gathers the stubs of its services.
pub struct ClientBuilder<H> {
    host: Host,
    registry: ServiceRegistry<H>,
}

impl<H> ClientBuilder<H> {
    /// What the host knows of its plugin.
    pub closed spec fn state(&self) -> HostState {
        self.host@
    }

    /// The stubs that are registered, each under the identifier of its type.
    pub closed spec fn services(&self) -> Map<TypeId, H> {
        self.registry@
    }

    /// A host that is about to launch its plugin, with the way to launch it:
    /// the magic cookie and the port range in its environment, its output
    /// piped, killed when dropped, and the time that it is given.
    pub fn new(config: &ClientConfig) -> (r: (ClientBuilder<H>, Launch))
        ensures
            r.0.state() == (HostState {
                phase: HostPhase::Spawning,
                output: Seq::<u8>::empty(),
                handshake: None,
            }),
            r.0.services() == Map::<TypeId, H>::empty(),
            r.1.environment@.map_values(|v: (String, String)| self::config::variable_view(v))
                == config.child_environment_spec(),
            r.1.startup_timeout_ms == config.startup_timeout_ms,
            r.1.pipe_output,
            r.1.kill_on_drop,
    {
        (
            ClientBuilder { host: Host::new(), registry: ServiceRegistry::new() },
            Launch {
                environment: config.child_environment(),
                startup_timeout_ms: config.startup_timeout_ms,
                pipe_output: true,
                kill_on_drop: true,
            },
        )
    }

    /// Takes in what happened to the plugin and tells the caller what to do.
    pub fn step(&mut self, event: HostEvent) -> (action: HostAction)
        ensures
            (final(self).state(), action@) == host_next(old(self).state(), event@),
            final(self).services() == old(self).services(),
    {
        self.host.step(event)
    }

    /// Registers the stub of a service under the identifier of its type, in
    /// place of what was there.
    pub fn add_plugin(&mut self, key: TypeId, stub: H)
        ensures
            final(self).services() == old(self).services().insert(key, stub),
            final(self).state() == old(self).state(),
    {
        self.registry.add_service(key, stub);
    }

    /// The client of a plugin that is connected, with the client of its
    /// output relay. A plugin that is not connected has no client: the
    /// builder comes back as it was.
    pub fn build<C>(self, stdio: C) -> (r: Result<Client<H, C>, ClientBuilder<H>>)
        ensures
            match r {
                Ok(client) => {
                    &&& self.state().phase == HostPhase::Connected
                    &&& client.state() == self.state()
                    &&& client.services() == self.services()
                    &&& client.stdio_client() == Some(stdio)
                },
                Err(builder) => {
                    &&& self.state().phase != HostPhase::Connected
                    &&& builder.state() == self.state()
                    &&& builder.services() == self.services()
                },
            },
    {
        match self.host.phase() {
            HostPhase::Connected => Ok(
                Client { host: self.host, registry: self.registry, stdio: Some(stdio) },
            ),
            _ => Err(self),
        }
    }
}

/// The host's end of a connected plugin.
pub struct Client<H, C> {
    host: Host,
    registry: ServiceRegistry<H>,
    stdio: Option<C>,
}

impl<H, C> Client<H, C> {
    /// What the host knows of its plugin.
    pub closed spec fn state(&self) -> HostState {
        self.host@
    }

    /// The stubs that are registered, each under the identifier of its type.
    pub closed spec fn services(&self) -> Map<TypeId, H> {
        self.registry@
    }

    /// The client of the output relay, while nobody has taken it.
    pub closed spec fn stdio_client(&self) -> Option<C> {
        self.stdio
    }

    /// The stub that is registered under `key`, if there is one.
    pub open spec fn lookup(&self, key: TypeId) -> Option<H> {
        if self.services().contains_key(key) {
            Some(self.services()[key])
        } else {
            None
        }
    }

    /// The stub that is registered under `key`, if there is one.
    pub fn dispense(&self, key: &TypeId) -> (r: Option<&H>)
        ensures
            r is Some == self.lookup(*key) is Some,
            r matches Some(stub) ==> self.lookup(*key) == Some(*stub),
    {
        self.registry.dispense(key)
    }

    /// The stream of the plugin's output. It is handed out once: a second
    /// call gets nothing.
    pub fn stdio(&mut self) -> (r: Option<StdioStream<C>>)
        ensures
            final(self).stdio_client() is None,
            match old(self).stdio_client() {
                Some(client) => r == Some(StdioStream(client)),
                None => r is None,
            },
            final(self).state() == old(self).state(),
            final(self).services() == old(self).services(),
    {
        match self.stdio.take() {
            Some(client) => Some(StdioStream(client)),
            None => None,
        }
    }

    /// Takes in what happened to the plugin and tells the caller what to do.
    pub fn step(&mut self, event: HostEvent) -> (action: HostAction)
        ensures
            (final(self).state(), action@) == host_next(old(self).state(), event@),
            final(self).services() == old(self).services(),
            final(self).stdio_client() == old(self).stdio_client(),
    {
        self.host.step(event)
    }

    /// Begins the end of the plugin: the caller is told to call `Shutdown`,
    /// and goes on to report how the call returned and that the process has
    /// ended.
    pub fn shutdown(&mut self) -> (action: HostAction)
        ensures
            (final(self).state(), action@) == host_next(
                old(self).state(),
                HostEventView::ShutdownRequested,
            ),
            final(self).services() == old(self).services(),
            final(self).stdio_client() == old(self).stdio_client(),
    {
        self.host.step(HostEvent::ShutdownRequested)
    }

    /// The socket file that the host removes when it lets go of the plugin,
    /// however that comes about: the path that the plugin announced, if it
    /// announced a Unix domain socket.
    pub fn socket_to_remove(&self) -> (path: Option<&str>)
        ensures
            text_of(path) == announced_socket(self.state().handshake),
    {
        match self.host.handshake() {
            Some(message) => match &message.network {
                Network::Unix(path) => Some(path.as_str()),
                Network::Tcp(_) => None,
            },
            None => None,
        }
    }
}

} // verus!
