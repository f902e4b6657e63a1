//! The life of a plugin as its host sees it, from the launch of the process
//! to its end. The caller launches, reads, connects and kills; it reports
//! each thing that happens, and is told what to do next.

use vstd::prelude::*;

use crate::common::client::{
    channel_target, channel_target_spec, network_uri_text, uri_is_valid, ChannelTarget,
    ChannelTargetView,
};
use crate::error::{IoError, IoErrorKind, PluginxError, PluginxErrorView, RpcStatus};
use crate::handshake::message::{
    parse_message, HandshakeMessage, HandshakeMessageView, Network, NetworkView,
};
use crate::handshake::HandshakeError;
use crate::text::{chars_of, string_of, trim, trim_chars};

verus! {

/// The stages in the life of a plugin, as its host sees them.
#[derive(Clone, Copy, Debug, PartialEq, Eq, Structural)]
pub enum HostPhase {
    /// The process is being launched.
    Spawning,
    /// The process runs; its handshake line is awaited.
    AwaitingHandshake,
    /// The handshake is read; the connection is being opened.
    Connecting,
    /// The connection is open: stubs are handed out and used.
    Connected,
    /// The plugin was asked to end.
    ShuttingDown,
    /// The plugin has ended.
    Done,
    /// The process could not be launched.
    SpawnFailed,
    /// The plugin did not announce itself in time.
    TimedOut,
    /// What the plugin announced was no handshake.
    HandshakeFailed,
    /// The connection could not be opened.
    ConnectFailed,
}

/// What the caller reports.
pub enum HostEvent {
    /// The process was launched.
    Spawned,
    /// The process could not be launched.
    SpawnFailed(IoError),
    /// The process wrote these bytes to its standard output.
    Output(Vec<u8>),
    /// The standard output of the process has ended, or cannot be read.
    OutputClosed,
    /// The time for the start-up has run out.
    TimerExpired,
    /// The connection is open.
    ChannelOpen,
    /// The connection could not be opened; the text says why.
    ChannelFailed(String),
    /// The user of the host wants the plugin to end.
    ShutdownRequested,
    /// The call of `Shutdown` has returned, with this result.
    ShutdownAnswered(Result<(), RpcStatus>),
    /// The process has ended.
    ChildExited,
}

/// What a `HostEvent` stands for.
pub enum HostEventView {
    Spawned,
    SpawnFailed(IoErrorKind, Seq<char>),
    Output(Seq<u8>),
    OutputClosed,
    TimerExpired,
    ChannelOpen,
    ChannelFailed(Seq<char>),
    ShutdownRequested,
    ShutdownAnswered,
    ChildExited,
}

impl View for HostEvent {
    type V = HostEventView;

    open spec fn view(&self) -> HostEventView {
        match self {
            HostEvent::Spawned => HostEventView::Spawned,
            HostEvent::SpawnFailed(e) => HostEventView::SpawnFailed(e.kind, e.message@),
            HostEvent::Output(bytes) => HostEventView::Output(bytes@),
            HostEvent::OutputClosed => HostEventView::OutputClosed,
            HostEvent::TimerExpired => HostEventView::TimerExpired,
            HostEvent::ChannelOpen => HostEventView::ChannelOpen,
            HostEvent::ChannelFailed(text) => HostEventView::ChannelFailed(text@),
            HostEvent::ShutdownRequested => HostEventView::ShutdownRequested,
            HostEvent::ShutdownAnswered(_) => HostEventView::ShutdownAnswered,
            HostEvent::ChildExited => HostEventView::ChildExited,
        }
    }
}

/// What the caller is told to do.
#[derive(Debug, PartialEq, Eq)]
pub enum HostAction {
    /// Nothing: the event was not due.
    Nothing,
    /// Read on from the standard output of the process, and watch the timer.
    ReadOutput,
    /// Open a connection to this target.
    Connect(ChannelTarget),
    /// The plugin is ready: set up the clients of its built-in services.
    Ready,
    /// Call `Shutdown`, whatever comes of it.
    SendShutdown,
    /// Wait for the process to end.
    AwaitChild,
    /// The plugin has ended: remove its socket file, if it left one.
    Finished { remove_socket: Option<String> },
    /// The start-up has failed with this error. The process, where there is
    /// one, must be killed.
    Fail { error: PluginxError, kill_child: bool },
}

/// What a `HostAction` stands for.
pub enum HostActionView {
    Nothing,
    ReadOutput,
    Connect(ChannelTargetView),
    Ready,
    SendShutdown,
    AwaitChild,
    Finished { remove_socket: Option<Seq<char>> },
    Fail { error: PluginxErrorView, kill_child: bool },
}

impl View for HostAction {
    type V = HostActionView;

    open spec fn view(&self) -> HostActionView {
        match self {
            HostAction::Nothing => HostActionView::Nothing,
            HostAction::ReadOutput => HostActionView::ReadOutput,
            HostAction::Connect(target) => HostActionView::Connect(target@),
            HostAction::Ready => HostActionView::Ready,
            HostAction::SendShutdown => HostActionView::SendShutdown,
            HostAction::AwaitChild => HostActionView::AwaitChild,
            HostAction::Finished { remove_socket } => HostActionView::Finished {
                remove_socket: match remove_socket {
                    Some(path) => Some(path@),
                    None => None,
                },
            },
            HostAction::Fail { error, kill_child } => HostActionView::Fail {
                error: error@,
                kill_child: *kill_child,
            },
        }
    }
}

/// What a host knows of its plugin.
pub struct HostState {
    /// The stage that the plugin is in.
    pub phase: HostPhase,
    /// What the plugin has written to its standard output up to the end of
    /// the start-up.
    pub output: Seq<u8>,
    /// What the plugin has announced.
    pub handshake: Option<HandshakeMessageView>,
}

/// The text that bytes stand for in UTF-8, with a replacement character in
/// place of each part that is no UTF-8.
pub uninterp spec fn lossy_text(bytes: Seq<u8>) -> Seq<char>;

/// `String::from_utf8_lossy` of std, which reads bytes as UTF-8 and puts
/// U+FFFD in place of what is none: the text depends on the bytes alone.
#[verifier::external_body]
fn lossy_string(bytes: &[u8]) -> (s: String)
    ensures
        s@ == lossy_text(bytes@),
{
    String::from_utf8_lossy(bytes).into_owned()
}

/// Where the first line of `bytes` ends: the place of the first line feed,
/// or, without one, the length.
pub open spec fn line_end(bytes: Seq<u8>) -> int
    decreases bytes.len(),
{
    if bytes.len() == 0 || bytes[0] == 0x0Au8 {
        0
    } else {
        1 + line_end(bytes.drop_first())
    }
}

/// Tells whether `bytes` holds a whole line.
pub open spec fn has_line(bytes: Seq<u8>) -> bool {
    line_end(bytes) < bytes.len()
}

/// The first line of `bytes`, without its line feed. What follows the first
/// line is not part of the handshake.
pub open spec fn first_line(bytes: Seq<u8>) -> Seq<u8> {
    bytes.take(line_end(bytes))
}

/// What the first line of a plugin says, given the text of that line and the
/// text of all that the plugin has written: the message on the line, read
/// without the whitespace around it, or the error with all of the output
/// attached.
pub open spec fn read_handshake_text(line: Seq<char>, output: Seq<char>) -> Result<
    HandshakeMessageView,
    PluginxErrorView,
> {
    match parse_message(trim(line)) {
        Ok(message) => Ok(message),
        Err(error) => Err(PluginxErrorView::Handshake { error, message: output }),
    }
}

/// What the output of a plugin says.
pub open spec fn read_handshake(output: Seq<u8>) -> Result<HandshakeMessageView, PluginxErrorView> {
    read_handshake_text(lossy_text(first_line(output)), lossy_text(output))
}

/// The state and the action after the output of the plugin has been read as
/// a handshake: a connection to what the handshake announces, or a failure,
/// for a line that is no handshake as for an address that no connection can
/// be opened to.
pub open spec fn after_handshake(output: Seq<u8>) -> (HostState, HostActionView) {
    match read_handshake(output) {
        Err(error) => (
            HostState { phase: HostPhase::HandshakeFailed, output, handshake: None },
            HostActionView::Fail { error, kill_child: true },
        ),
        Ok(message) => match channel_target_spec(
            message.network,
            uri_is_valid(network_uri_text(message.network)),
        ) {
            Ok(target) => (
                HostState { phase: HostPhase::Connecting, output, handshake: Some(message) },
                HostActionView::Connect(target),
            ),
            Err(error) => (
                HostState { phase: HostPhase::HandshakeFailed, output, handshake: None },
                HostActionView::Fail { error, kill_child: true },
            ),
        },
    }
}

/// The socket file that a host removes when its plugin has ended: the path
/// that the plugin announced, if it announced a Unix domain socket.
pub open spec fn announced_socket(handshake: Option<HandshakeMessageView>) -> Option<Seq<char>> {
    match handshake {
        Some(message) => match message.network {
            NetworkView::Unix(path) => Some(path),
            NetworkView::Tcp(_) => None,
        },
        None => None,
    }
}

/// The state after an event, and what the caller is to do.
///
/// The output of the process is gathered until it holds a line or ends, or
/// until the timer runs out. The first line is then read as the handshake;
/// from a good one follows the target to connect to. A start-up that fails
/// after the launch leaves a process to kill. An event that is not due
/// changes nothing.
pub open spec fn host_next(s: HostState, event: HostEventView) -> (HostState, HostActionView) {
    match (s.phase, event) {
        (HostPhase::Spawning, HostEventView::Spawned) => (
            HostState { phase: HostPhase::AwaitingHandshake, ..s },
            HostActionView::ReadOutput,
        ),
        (HostPhase::Spawning, HostEventView::SpawnFailed(kind, message)) => (
            HostState { phase: HostPhase::SpawnFailed, ..s },
            HostActionView::Fail { error: PluginxErrorView::Io(kind, message), kill_child: false },
        ),
        (HostPhase::AwaitingHandshake, HostEventView::Output(bytes)) => if has_line(
            s.output + bytes,
        ) {
            after_handshake(s.output + bytes)
        } else {
            (HostState { output: s.output + bytes, ..s }, HostActionView::ReadOutput)
        },
        (HostPhase::AwaitingHandshake, HostEventView::OutputClosed) => after_handshake(s.output),
        (HostPhase::AwaitingHandshake, HostEventView::TimerExpired) => (
            HostState { phase: HostPhase::TimedOut, ..s },
            HostActionView::Fail {
                error: PluginxErrorView::Handshake {
                    error: HandshakeError::StartupTimeout,
                    message: lossy_text(s.output),
                },
                kill_child: true,
            },
        ),
        (HostPhase::Connecting, HostEventView::ChannelOpen) => (
            HostState { phase: HostPhase::Connected, ..s },
            HostActionView::Ready,
        ),
        (HostPhase::Connecting, HostEventView::ChannelFailed(text)) => (
            HostState { phase: HostPhase::ConnectFailed, ..s },
            HostActionView::Fail { error: PluginxErrorView::Tonic(text), kill_child: true },
        ),
        (HostPhase::Connected, HostEventView::ShutdownRequested) => (
            HostState { phase: HostPhase::ShuttingDown, ..s },
            HostActionView::SendShutdown,
        ),
        (HostPhase::ShuttingDown, HostEventView::ShutdownAnswered) => (
            s,
            HostActionView::AwaitChild,
        ),
        (HostPhase::ShuttingDown, HostEventView::ChildExited) => (
            HostState { phase: HostPhase::Done, ..s },
            HostActionView::Finished { remove_socket: announced_socket(s.handshake) },
        ),
        _ => (s, HostActionView::Nothing),
    }
}

/// Tells whether a start-up has failed for good.
pub open spec fn is_failed(phase: HostPhase) -> bool {
    phase == HostPhase::SpawnFailed || phase == HostPhase::TimedOut || phase
        == HostPhase::HandshakeFailed || phase == HostPhase::ConnectFailed
}

/// A start-up that has failed stays failed, and asks for nothing more: no
/// connection is opened for a plugin that was late or spoke no handshake.
pub proof fn lemma_failure_is_final(s: HostState, event: HostEventView)
    requires
        is_failed(s.phase),
    ensures
        host_next(s, event) == (s, HostActionView::Nothing),
{
}

/// Every failure after the launch has the process killed, and only a failure
/// changes a running start-up into a failed one.
pub proof fn lemma_failure_kills_child(s: HostState, event: HostEventView)
    requires
        s.phase != HostPhase::Spawning,
    ensures
        host_next(s, event).1 matches HostActionView::Fail { kill_child, .. } ==> kill_child,
        !is_failed(s.phase) && is_failed(host_next(s, event).0.phase) ==> host_next(
            s,
            event,
        ).1 is Fail,
{
}

/// A connection is opened only to what a handshake has announced.
pub proof fn lemma_connect_follows_handshake(s: HostState, event: HostEventView)
    requires
        host_next(s, event).1 is Connect,
    ensures
        s.phase == HostPhase::AwaitingHandshake,
        host_next(s, event).0.phase == HostPhase::Connecting,
        host_next(s, event).0.handshake is Some,
        read_handshake(host_next(s, event).0.output) == Ok::<
            HandshakeMessageView,
            PluginxErrorView,
        >(host_next(s, event).0.handshake->0),
{
}

/// Reads the first line of a plugin, given as text, with the text of all
/// that the plugin has written.
pub fn read_handshake_line(line: &str, output: String) -> (r: Result<
    HandshakeMessage,
    PluginxError,
>)
    ensures
        match r {
            Ok(message) => read_handshake_text(line@, output@) == Ok::<
                HandshakeMessageView,
                PluginxErrorView,
            >(message@),
            Err(error) => read_handshake_text(line@, output@) == Err::<
                HandshakeMessageView,
                PluginxErrorView,
            >(error@),
        },
{
    let chars = chars_of(line);
    let trimmed = string_of(trim_chars(chars.as_slice()));
    match HandshakeMessage::parse(trimmed.as_str()) {
        Ok(message) => Ok(message),
        Err(error) => Err(PluginxError::Handshake { error, message: output }),
    }
}

/// Where the first line of `bytes` ends.
fn find_line_end(bytes: &[u8]) -> (end: usize)
    ensures
        end == line_end(bytes@),
        end <= bytes@.len(),
{
    let n: usize = bytes.len();
    let mut i: usize = 0;
    assert(bytes@.skip(0) == bytes@);
    while i < n && bytes[i] != 0x0A
        invariant
            i <= n,
            n == bytes@.len(),
            line_end(bytes@) == i + line_end(bytes@.skip(i as int)),
        decreases n - i,
    {
        assert(bytes@.skip(i as int).drop_first() == bytes@.skip(i + 1));
        i += 1;
    }
    i
}

/// The state machine of a host for one plugin.
pub struct Host {
    phase: HostPhase,
    output: Vec<u8>,
    handshake: Option<HandshakeMessage>,
}

/// A handshake, if there is one, as contracts see it.
pub open spec fn handshake_view(h: Option<HandshakeMessage>) -> Option<HandshakeMessageView> {
    match h {
        Some(m) => Some(m@),
        None => None,
    }
}

impl View for Host {
    type V = HostState;

    closed spec fn view(&self) -> HostState {
        HostState {
            phase: self.phase,
            output: self.output@,
            handshake: handshake_view(self.handshake),
        }
    }
}

impl Host {
    /// A host that is about to launch its plugin.
    pub fn new() -> (h: Host)
        ensures
            h@ == (HostState {
                phase: HostPhase::Spawning,
                output: Seq::<u8>::empty(),
                handshake: None,
            }),
    {
        Host { phase: HostPhase::Spawning, output: Vec::new(), handshake: None }
    }

    /// The stage that the plugin is in.
    pub fn phase(&self) -> (p: HostPhase)
        ensures
            p == self@.phase,
    {
        self.phase
    }

    /// What the plugin has announced.
    pub fn handshake(&self) -> (h: Option<&HandshakeMessage>)
        ensures
            match h {
                Some(m) => self@.handshake == Some(m@),
                None => self@.handshake is None,
            },
    {
        self.handshake.as_ref()
    }

    /// Reads the gathered output as a handshake and decides what follows.
    fn settle(&mut self) -> (action: HostAction)
        requires
            old(self).phase == HostPhase::AwaitingHandshake,
        ensures
            (final(self)@, action@) == after_handshake(old(self)@.output),
    {
        let end = find_line_end(self.output.as_slice());
        let line = lossy_string(vstd::slice::slice_subrange(self.output.as_slice(), 0, end));
        let output = lossy_string(self.output.as_slice());
        assert(self.output@.subrange(0, end as int) == first_line(self.output@));
        match read_handshake_line(line.as_str(), output) {
            Err(error) => {
                self.phase = HostPhase::HandshakeFailed;
                self.handshake = None;
                HostAction::Fail { error, kill_child: true }
            },
            Ok(message) => match channel_target(&message.network) {
                Ok(target) => {
                    self.handshake = Some(message);
                    self.phase = HostPhase::Connecting;
                    HostAction::Connect(target)
                },
                Err(error) => {
                    self.phase = HostPhase::HandshakeFailed;
                    self.handshake = None;
                    HostAction::Fail { error, kill_child: true }
                },
            },
        }
    }

    /// Takes in an event and tells the caller what to do.
    pub fn step(&mut self, event: HostEvent) -> (action: HostAction)
        ensures
            (final(self)@, action@) == host_next(old(self)@, event@),
    {
        match self.phase {
            HostPhase::Spawning => match event {
                HostEvent::Spawned => {
                    self.phase = HostPhase::AwaitingHandshake;
                    HostAction::ReadOutput
                },
                HostEvent::SpawnFailed(error) => {
                    self.phase = HostPhase::SpawnFailed;
                    HostAction::Fail { error: PluginxError::Io(error), kill_child: false }
                },
                _ => HostAction::Nothing,
            },
            HostPhase::AwaitingHandshake => match event {
                HostEvent::Output(bytes) => {
                    let mut bytes = bytes;
                    self.output.append(&mut bytes);
                    let end = find_line_end(self.output.as_slice());
                    if end < self.output.len() {
                        self.settle()
                    } else {
                        HostAction::ReadOutput
                    }
                },
                HostEvent::OutputClosed => self.settle(),
                HostEvent::TimerExpired => {
                    self.phase = HostPhase::TimedOut;
                    let message = lossy_string(self.output.as_slice());
                    HostAction::Fail {
                        error: PluginxError::Handshake {
                            error: HandshakeError::StartupTimeout,
                            message,
                        },
                        kill_child: true,
                    }
                },
                _ => HostAction::Nothing,
            },
            HostPhase::Connecting => match event {
                HostEvent::ChannelOpen => {
                    self.phase = HostPhase::Connected;
                    HostAction::Ready
                },
                HostEvent::ChannelFailed(text) => {
                    self.phase = HostPhase::ConnectFailed;
                    HostAction::Fail { error: PluginxError::Tonic(text), kill_child: true }
                },
                _ => HostAction::Nothing,
            },
            HostPhase::Connected => match event {
                HostEvent::ShutdownRequested => {
                    self.phase = HostPhase::ShuttingDown;
                    HostAction::SendShutdown
                },
                _ => HostAction::Nothing,
            },
            HostPhase::ShuttingDown => match event {
                HostEvent::ShutdownAnswered(_) => HostAction::AwaitChild,
                HostEvent::ChildExited => {
                    self.phase = HostPhase::Done;
                    let remove_socket = match &self.handshake {
                        Some(message) => match &message.network {
                            Network::Unix(path) => Some(path.clone()),
                            Network::Tcp(_) => None,
                        },
                        None => None,
                    };
                    HostAction::Finished { remove_socket }
                },
                _ => HostAction::Nothing,
            },
            _ => HostAction::Nothing,
        }
    }
}

} // verus!
