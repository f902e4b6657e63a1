//! The relay of a plugin's output to its host: the messages on the wire, and
//! the guard that lets one consumer have the stream.

use vstd::prelude::*;

use crate::error::{RpcCode, RpcStatus};

verus! {

/// Which of its two outputs a plugin writes to.
#[derive(Clone, Copy, Debug, PartialEq, Eq, Structural)]
pub enum StdioType {
    Stdout,
    Stderr,
}

/// The channel number that marks a message as invalid.
pub const CHANNEL_INVALID: i32 = 0;

/// The channel number of the standard output.
pub const CHANNEL_STDOUT: i32 = 1;

/// The channel number of the standard error.
pub const CHANNEL_STDERR: i32 = 2;

/// How many messages may wait between the plugin and the stream. With one
/// place only, a plugin whose host does not read is held back rather than
/// left to pile up its output.
pub const STDIO_QUEUE_CAPACITY: usize = 1;

impl StdioType {
    /// The channel number of the output on the wire.
    pub open spec fn channel_spec(self) -> i32 {
        match self {
            StdioType::Stdout => CHANNEL_STDOUT,
            StdioType::Stderr => CHANNEL_STDERR,
        }
    }

    /// The channel number of the output on the wire.
    pub fn channel(self) -> (n: i32)
        ensures
            n == self.channel_spec(),
    {
        match self {
            StdioType::Stdout => CHANNEL_STDOUT,
            StdioType::Stderr => CHANNEL_STDERR,
        }
    }
}

/// One piece of output as it travels from plugin to host.
#[derive(Clone, Debug, PartialEq, Eq)]
pub struct StdioMessage {
    /// The channel number.
    pub channel: i32,
    /// The bytes written.
    pub data: Vec<u8>,
}

impl StdioMessage {
    /// The message that carries `data` as output of kind `out_type`.
    pub fn new(out_type: StdioType, data: Vec<u8>) -> (m: StdioMessage)
        ensures
            m.channel == out_type.channel_spec(),
            m.data == data,
    {
        StdioMessage { channel: out_type.channel(), data }
    }

    /// The bytes of a message that could not be sent because the host has
    /// stopped listening, handed back to the writer.
    pub fn unsent(self) -> (data: Vec<u8>)
        ensures
            data == self.data,
    {
        self.data
    }
}

/// The relay service. It holds the receiving end of the queue until the one
/// call of `StreamStdio` that gets it.
pub struct StdioServer<R> {
    receiver: Option<R>,
}

/// The message with which a second call of `StreamStdio` is refused.
pub open spec fn in_use_text() -> Seq<char> {
    "stdio stream is already in use"@
}

/// The message with which a call is refused when the guard is broken.
pub open spec fn poisoned_text() -> Seq<char> {
    "mutex is poisoned"@
}

/// The answer to a call of `StreamStdio`, as contracts see it.
pub enum StreamReply<R> {
    /// The caller gets the stream that this receiving end feeds.
    Stream(R),
    /// The caller is refused.
    Refused { code: RpcCode, message: Seq<char> },
}

/// An answer as contracts see it.
pub open spec fn reply_view<R>(r: Result<R, RpcStatus>) -> StreamReply<R> {
    match r {
        Ok(receiver) => StreamReply::Stream(receiver),
        Err(status) => StreamReply::Refused { code: status.code, message: status.message@ },
    }
}

impl<R> StdioServer<R> {
    /// The receiving end, while nobody has taken it.
    pub closed spec fn receiver(&self) -> Option<R> {
        self.receiver
    }

    /// What a call of `StreamStdio` is answered now: the first call gets the
    /// receiving end to stream from, every later call is refused with
    /// `Unavailable`.
    pub open spec fn reply(&self) -> StreamReply<R> {
        match self.receiver() {
            Some(receiver) => StreamReply::Stream(receiver),
            None => StreamReply::Refused { code: RpcCode::Unavailable, message: in_use_text() },
        }
    }

    /// The service around the receiving end of a fresh queue.
    pub fn new(receiver: R) -> (s: Self)
        ensures
            s.receiver() == Some(receiver),
    {
        StdioServer { receiver: Some(receiver) }
    }

    /// Answers a call of `StreamStdio`, and leaves the service without its
    /// receiving end.
    pub fn stream_stdio(&mut self) -> (r: Result<R, RpcStatus>)
        ensures
            reply_view(r) == old(self).reply(),
            final(self).receiver() is None,
    {
        match self.receiver.take() {
            Some(receiver) => Ok(receiver),
            None => Err(RpcStatus::unavailable("stdio stream is already in use")),
        }
    }

    /// The refusal of a call that found the guard of the service broken.
    pub fn poisoned() -> (s: RpcStatus)
        ensures
            s.code == RpcCode::Internal,
            s.message@ == poisoned_text(),
    {
        RpcStatus::internal("mutex is poisoned")
    }
}

/// The stream has one consumer: whatever the first call of `StreamStdio` was
/// answered, the service that it leaves behind refuses the next one with
/// `Unavailable`.
pub proof fn lemma_single_consumer<R>(after_first_call: StdioServer<R>)
    requires
        after_first_call.receiver() is None,
    ensures
        after_first_call.reply() == (StreamReply::<R>::Refused {
            code: RpcCode::Unavailable,
            message: in_use_text(),
        }),
{
}

} // verus!
