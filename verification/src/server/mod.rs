//! The plugin side: the cookie check at start-up, the life of a plugin from its
//! first step to its exit, the line that it announces itself with, and what
//! it has to clean up.

pub mod builtin;
pub mod config;
pub mod utils;

use vstd::prelude::*;

use self::config::ServerConfig;
use self::utils::{
    tcp_transport_config, tcp_transport_config_from_env, unix_transport_config_from_env,
    PLUGIN_UNIX_SOCKET_PREFIX,
};
use crate::common::server::{TransportConfig, TransportConfigView};
use crate::constant::CORE_PROTOCOL_VERSION;
use crate::handshake::message::{
    format_message, handshake_line, HandshakeMessageView, Network, NetworkView, Protocol,
};
use crate::handshake::HandshakeConfig;
use crate::text::{chars_equal, chars_of, string_text, text_of};

verus! {

/// Why a plugin refuses to start.
#[derive(Clone, Copy, Debug, PartialEq, Eq, Structural)]
pub enum StartupRejection {
    /// The configuration names no cookie, or gives it no value.
    Misconfigured,
    /// The environment does not carry the cookie: the plugin was not started
    /// by a host.
    NotLaunchedByHost,
}

/// The exit status of a plugin that refuses to start.
pub const STARTUP_EXIT_CODE: i32 = -1;

/// What a plugin that refuses to start tells its user.
pub open spec fn rejection_text(r: StartupRejection) -> Seq<char> {
    match r {
        StartupRejection::Misconfigured =>
            "Misconfigured ServeConfig given to serve this plugin: no magic cookie\nkey or value was set. Please notify the plugin author and report\nthis as a bug."@,
        StartupRejection::NotLaunchedByHost =>
            "This binary is a plugin. These are not meant to be executed directly.\nPlease execute the program that consumes these plugins, which will\nload any plugins automatically."@,
    }
}

impl StartupRejection {
    /// The message for the standard error of the plugin.
    pub fn message(&self) -> (text: &'static str)
        ensures
            text@ == rejection_text(*self),
    {
        match self {
            StartupRejection::Misconfigured =>
                "Misconfigured ServeConfig given to serve this plugin: no magic cookie\nkey or value was set. Please notify the plugin author and report\nthis as a bug.",
            StartupRejection::NotLaunchedByHost =>
                "This binary is a plugin. These are not meant to be executed directly.\nPlease execute the program that consumes these plugins, which will\nload any plugins automatically.",
        }
    }

    /// The exit status that goes with the refusal. It is never zero.
    pub fn exit_code(&self) -> (code: i32)
        ensures
            code == STARTUP_EXIT_CODE,
            code != 0,
    {
        STARTUP_EXIT_CODE
    }
}

/// What a plugin reads from its environment at start-up. Each field holds
/// the value of one variable, where the variable is set.
pub struct PluginEnv {
    /// The variable that the handshake configuration names.
    pub cookie: Option<String>,
    /// `PLUGIN_MIN_PORT`.
    pub min_port: Option<String>,
    /// `PLUGIN_MAX_PORT`.
    pub max_port: Option<String>,
    /// `PLUGIN_UNIX_SOCKET_DIR`.
    pub unix_socket_dir: Option<String>,
    /// Whether the plugin runs on Windows, where it listens on TCP. Elsewhere
    /// it listens on a Unix domain socket.
    pub windows: bool,
}

/// The check at start-up: a plugin runs only with a cookie that has a name
/// and a value, and only where the environment carries that value under that
/// name.
pub open spec fn cookie_check(config: HandshakeConfig, cookie: Option<Seq<char>>) -> Result<
    (),
    StartupRejection,
> {
    if !config.well_formed() {
        Err(StartupRejection::Misconfigured)
    } else if cookie != Some(config.magic_cookie_value@) {
        Err(StartupRejection::NotLaunchedByHost)
    } else {
        Ok(())
    }
}

/// The transport that a plugin in this environment listens on.
pub open spec fn select_transport(env: PluginEnv) -> TransportConfigView {
    if env.windows {
        tcp_transport_config(string_text(env.min_port), string_text(env.max_port))
    } else {
        TransportConfigView::Unix {
            prefix: PLUGIN_UNIX_SOCKET_PREFIX@,
            dir: string_text(env.unix_socket_dir),
        }
    }
}

/// An optional string, borrowed.
fn borrowed(value: &Option<String>) -> (r: Option<&str>)
    ensures
        text_of(r) == string_text(*value),
{
    match value {
        Some(text) => Some(text.as_str()),
        None => None,
    }
}

/// Passes or refuses a start-up. `cookie` is the value of the environment
/// variable that the configuration names, where it is set.
pub fn check_cookie(config: &HandshakeConfig, cookie: Option<&str>) -> (r: Result<
    (),
    StartupRejection,
>)
    ensures
        r == cookie_check(*config, text_of(cookie)),
{
    if !config.is_well_formed() {
        return Err(StartupRejection::Misconfigured);
    }
    match cookie {
        Some(value) => {
            let chars = chars_of(value);
            if chars_equal(chars.as_slice(), config.cookie_value()) {
                Ok(())
            } else {
                Err(StartupRejection::NotLaunchedByHost)
            }
        },
        None => Err(StartupRejection::NotLaunchedByHost),
    }
}

/// The stages in the life of a plugin, in the order in which it goes through
/// them.
#[derive(Clone, Copy, Debug, PartialEq, Eq, Structural)]
pub enum PluginPhase {
    /// Started with the right cookie; no listener yet.
    New,
    /// The listener is bound.
    Bound,
    /// The handshake line is written.
    Announced,
    /// Calls are accepted.
    Serving,
    /// The exit signal is up.
    ExitSignalled,
    /// No new calls are accepted; those in flight run to their end.
    Draining,
    /// Done.
    Exited,
}

/// What moves a plugin from one stage to the next.
#[derive(Clone, Copy, Debug, PartialEq, Eq, Structural)]
pub enum PluginEvent {
    /// The listener was bound.
    ListenerBound,
    /// The handshake line was written.
    HandshakeWritten,
    /// Serving has begun.
    ServingStarted,
    /// The exit signal was raised.
    ExitSignalRaised,
    /// Serving has stopped taking calls.
    AcceptingStopped,
    /// The last call has ended.
    Drained,
}

impl PluginPhase {
    /// The place of the stage in the order of stages.
    pub open spec fn rank(self) -> nat {
        match self {
            PluginPhase::New => 0,
            PluginPhase::Bound => 1,
            PluginPhase::Announced => 2,
            PluginPhase::Serving => 3,
            PluginPhase::ExitSignalled => 4,
            PluginPhase::Draining => 5,
            PluginPhase::Exited => 6,
        }
    }

    /// The stage after an event. An event moves a plugin on from the one
    /// stage that it belongs to and leaves every other stage as it is; so an
    /// exit signal that is raised again changes nothing.
    pub open spec fn after(self, event: PluginEvent) -> PluginPhase {
        match (self, event) {
            (PluginPhase::New, PluginEvent::ListenerBound) => PluginPhase::Bound,
            (PluginPhase::Bound, PluginEvent::HandshakeWritten) => PluginPhase::Announced,
            (PluginPhase::Announced, PluginEvent::ServingStarted) => PluginPhase::Serving,
            (PluginPhase::Serving, PluginEvent::ExitSignalRaised) => PluginPhase::ExitSignalled,
            (PluginPhase::ExitSignalled, PluginEvent::AcceptingStopped) => PluginPhase::Draining,
            (PluginPhase::Draining, PluginEvent::Drained) => PluginPhase::Exited,
            _ => self,
        }
    }

    /// The stage after an event.
    pub fn next(self, event: PluginEvent) -> (phase: PluginPhase)
        ensures
            phase == self.after(event),
    {
        match (self, event) {
            (PluginPhase::New, PluginEvent::ListenerBound) => PluginPhase::Bound,
            (PluginPhase::Bound, PluginEvent::HandshakeWritten) => PluginPhase::Announced,
            (PluginPhase::Announced, PluginEvent::ServingStarted) => PluginPhase::Serving,
            (PluginPhase::Serving, PluginEvent::ExitSignalRaised) => PluginPhase::ExitSignalled,
            (PluginPhase::ExitSignalled, PluginEvent::AcceptingStopped) => PluginPhase::Draining,
            (PluginPhase::Draining, PluginEvent::Drained) => PluginPhase::Exited,
            _ => self,
        }
    }
}

/// A plugin never goes back: no event leads to an earlier stage, and none
/// skips a stage.
pub proof fn lemma_no_way_back(phase: PluginPhase, event: PluginEvent)
    ensures
        phase.rank() <= phase.after(event).rank() <= phase.rank() + 1,
{
}

/// An exit signal that is raised again changes nothing.
pub proof fn lemma_exit_signal_idempotent(phase: PluginPhase)
    ensures
        phase.after(PluginEvent::ExitSignalRaised).after(PluginEvent::ExitSignalRaised)
            == phase.after(PluginEvent::ExitSignalRaised),
{
}

/// A plugin whose environment lacks the cookie, or carries another value for
/// it, is refused.
pub proof fn lemma_cookie_check(config: HandshakeConfig, cookie: Option<Seq<char>>)
    requires
        cookie != Some(config.magic_cookie_value@),
    ensures
        cookie_check(config, cookie) is Err,
{
}

/// A plugin announces itself once: when it has written its line, nothing
/// brings it back to the stage in which it writes one. And it serves only
/// after it has announced itself.
pub proof fn lemma_single_announcement(phase: PluginPhase, event: PluginEvent)
    ensures
        phase.after(event) == PluginPhase::Bound ==> phase == PluginPhase::New || phase
            == PluginPhase::Bound,
        phase.after(event) == PluginPhase::Serving ==> phase == PluginPhase::Announced || phase
            == PluginPhase::Serving,
{
}

/// A plugin on its way: what it announces, where it listens and how far it
/// has come.
pub struct Server {
    protocol_version: u32,
    transport: TransportConfig,
    network: Option<Network>,
    phase: PluginPhase,
}

/// The network of a plugin, if it has one, as contracts see it.
pub open spec fn network_view(network: Option<Network>) -> Option<NetworkView> {
    match network {
        Some(n) => Some(n@),
        None => None,
    }
}

impl Server {
    /// The version of the application protocol that the plugin announces.
    pub closed spec fn protocol_version(&self) -> u32 {
        self.protocol_version
    }

    /// The transport that the plugin is to listen on.
    pub closed spec fn transport(&self) -> TransportConfigView {
        self.transport@
    }

    /// Where the plugin listens, once its listener is bound.
    pub closed spec fn network(&self) -> Option<NetworkView> {
        network_view(self.network)
    }

    /// The stage that the plugin is in.
    pub closed spec fn phase(&self) -> PluginPhase {
        self.phase
    }

    /// What holds of every plugin: it has a network from the moment its
    /// listener is bound.
    #[verifier::type_invariant]
    spec fn well_formed(&self) -> bool {
        self.phase != PluginPhase::New ==> self.network is Some
    }

    /// The message that the plugin announces itself with.
    pub open spec fn handshake(&self) -> HandshakeMessageView {
        HandshakeMessageView {
            core_protocol: CORE_PROTOCOL_VERSION,
            app_protocol: self.protocol_version(),
            network: self.network()->0,
            protocol: Protocol::Grpc,
        }
    }

    /// The socket file that the plugin owns and has to remove when it ends
    /// or is dropped, at whatever stage: the path of its listener, if that is
    /// a Unix domain socket.
    pub open spec fn owned_socket(&self) -> Option<Seq<char>> {
        match self.network() {
            Some(NetworkView::Unix(path)) => Some(path),
            _ => None,
        }
    }

    /// Starts a plugin: checks its cookie and lets it pass or refuses it, and chooses
    /// its transport. A plugin that is refused gets no further: it has no
    /// transport to bind, and nothing to announce.
    pub fn new(config: ServerConfig, env: &PluginEnv) -> (r: Result<Server, StartupRejection>)
        ensures
            match cookie_check(config.handshake_config, string_text(env.cookie)) {
                Err(rejection) => r == Err::<Server, StartupRejection>(rejection),
                Ok(_) => {
                    &&& r is Ok
                    &&& r->Ok_0.phase() == PluginPhase::New
                    &&& r->Ok_0.network() is None
                    &&& r->Ok_0.protocol_version() == config.handshake_config.protocol_version
                    &&& r->Ok_0.transport() == select_transport(*env)
                },
            },
    {
        match check_cookie(&config.handshake_config, borrowed(&env.cookie)) {
            Err(rejection) => Err(rejection),
            Ok(_) => {
                let transport = if env.windows {
                    tcp_transport_config_from_env(borrowed(&env.min_port), borrowed(&env.max_port))
                } else {
                    unix_transport_config_from_env(borrowed(&env.unix_socket_dir))
                };
                Ok(
                    Server {
                        protocol_version: config.handshake_config.protocol_version,
                        transport,
                        network: None,
                        phase: PluginPhase::New,
                    },
                )
            },
        }
    }

    /// The transport that the plugin is to listen on.
    pub fn transport_config(&self) -> (t: &TransportConfig)
        ensures
            t@ == self.transport(),
    {
        &self.transport
    }

    /// The stage that the plugin is in.
    pub fn current_phase(&self) -> (p: PluginPhase)
        ensures
            p == self.phase(),
    {
        self.phase
    }

    /// Records that the listener is bound, and where. Tells whether this was
    /// the moment for it: a plugin binds once.
    pub fn bound(&mut self, network: Network) -> (took: bool)
        ensures
            took == (old(self).phase() == PluginPhase::New),
            final(self).phase() == old(self).phase().after(PluginEvent::ListenerBound),
            final(self).network() == if took {
                Some(network@)
            } else {
                old(self).network()
            },
            final(self).protocol_version() == old(self).protocol_version(),
            final(self).transport() == old(self).transport(),
    {
        match self.phase {
            PluginPhase::New => {
                self.network = Some(network);
                self.phase = PluginPhase::Bound;
                true
            },
            _ => false,
        }
    }

    /// The handshake line, with its line end, for the standard output of the
    /// plugin. It is handed out once, when the listener is bound and nothing
    /// has been announced yet; any other call gets nothing and changes
    /// nothing.
    pub fn announce(&mut self) -> (line: Option<String>)
        ensures
            final(self).phase() == old(self).phase().after(PluginEvent::HandshakeWritten),
            final(self).network() == old(self).network(),
            final(self).protocol_version() == old(self).protocol_version(),
            final(self).transport() == old(self).transport(),
            match line {
                Some(text) => old(self).phase() == PluginPhase::Bound && text@ == format_message(
                    old(self).handshake(),
                ).push('\n'),
                None => old(self).phase() != PluginPhase::Bound,
            },
    {
        proof {
            use_type_invariant(&*self);
        }
        match self.phase {
            PluginPhase::Bound => {
                let mut line = match &self.network {
                    Some(network) => handshake_line(
                        CORE_PROTOCOL_VERSION,
                        self.protocol_version,
                        network,
                        Protocol::Grpc,
                    ),
                    None => {
                        return None;
                    },
                };
                line.push('\n');
                self.phase = PluginPhase::Announced;
                Some(line)
            },
            _ => None,
        }
    }

    /// Moves the plugin on by an event that the caller reports: serving has
    /// begun, the exit signal is up, serving takes no more calls, or the last
    /// call has ended. Tells whether the event was due. The two events that
    /// come with data, the bound listener and the written line, are reported
    /// by `bound` and `announce`; here they change nothing.
    pub fn advance(&mut self, event: PluginEvent) -> (took: bool)
        ensures
            final(self).phase() == if event == PluginEvent::ListenerBound || event
                == PluginEvent::HandshakeWritten {
                old(self).phase()
            } else {
                old(self).phase().after(event)
            },
            took == (final(self).phase() != old(self).phase()),
            final(self).network() == old(self).network(),
            final(self).protocol_version() == old(self).protocol_version(),
            final(self).transport() == old(self).transport(),
    {
        proof {
            use_type_invariant(&*self);
        }
        match event {
            PluginEvent::ListenerBound | PluginEvent::HandshakeWritten => false,
            _ => {
                let before = self.phase;
                self.phase = before.next(event);
                self.phase != before
            },
        }
    }

    /// The socket file that the plugin has to remove when it ends or is
    /// dropped.
    pub fn socket_to_remove(&self) -> (path: Option<&str>)
        ensures
            text_of(path) == self.owned_socket(),
    {
        match &self.network {
            Some(Network::Unix(path)) => Some(path.as_str()),
            _ => None,
        }
    }
}

} // verus!
