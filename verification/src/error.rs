//! What can go wrong between a host and a plugin.

use vstd::prelude::*;
use vstd::std_specs::convert::FromSpecImpl;

use crate::handshake::{handshake_error_text, HandshakeError};

verus! {

/// The kinds of I/O failure that the framework tells apart.
#[derive(Clone, Copy, Debug, PartialEq, Eq, Structural)]
pub enum IoErrorKind {
    /// The address is taken by another socket.
    AddrInUse,
    /// The file is there already.
    AlreadyExists,
    /// Anything else.
    Other,
}

/// An I/O failure: its kind, and what the system said of it.
#[derive(Clone, Debug, PartialEq, Eq)]
pub struct IoError {
    pub kind: IoErrorKind,
    pub message: String,
}

impl IoError {
    /// The failure that ends a search in which every address was taken.
    pub fn addr_in_use() -> (e: IoError)
        ensures
            e.kind == IoErrorKind::AddrInUse,
            e.message@ == "address in use"@,
    {
        IoError { kind: IoErrorKind::AddrInUse, message: "address in use".to_owned() }
    }
}

/// The codes with which the built-in services refuse a call.
#[derive(Clone, Copy, Debug, PartialEq, Eq, Structural)]
pub enum RpcCode {
    /// The service cannot take the call now.
    Unavailable,
    /// The service is broken.
    Internal,
}

/// The refusal of a call: a code and a message for the caller.
#[derive(Clone, Debug, PartialEq, Eq)]
pub struct RpcStatus {
    pub code: RpcCode,
    pub message: String,
}

impl RpcStatus {
    /// A refusal with the code `Unavailable`.
    pub fn unavailable(message: &str) -> (s: RpcStatus)
        ensures
            s.code == RpcCode::Unavailable,
            s.message@ == message@,
    {
        RpcStatus { code: RpcCode::Unavailable, message: message.to_owned() }
    }

    /// A refusal with the code `Internal`.
    pub fn internal(message: &str) -> (s: RpcStatus)
        ensures
            s.code == RpcCode::Internal,
            s.message@ == message@,
    {
        RpcStatus { code: RpcCode::Internal, message: message.to_owned() }
    }
}

/// Any failure that the framework reports to its user.
#[derive(Clone, Debug, PartialEq, Eq)]
pub enum PluginxError {
    /// The connection to the plugin failed; the text says how.
    Tonic(String),
    /// A task of the runtime panicked; the text says which.
    TokioTask(String),
    /// An I/O operation failed.
    Io(IoError),
    /// The handshake failed. `message` holds what the plugin had written to
    /// its standard output by then.
    Handshake { error: HandshakeError, message: String },
}

/// What a `PluginxError` stands for.
pub enum PluginxErrorView {
    Tonic(Seq<char>),
    TokioTask(Seq<char>),
    Io(IoErrorKind, Seq<char>),
    Handshake { error: HandshakeError, message: Seq<char> },
}

impl View for PluginxError {
    type V = PluginxErrorView;

    open spec fn view(&self) -> PluginxErrorView {
        match self {
            PluginxError::Tonic(m) => PluginxErrorView::Tonic(m@),
            PluginxError::TokioTask(m) => PluginxErrorView::TokioTask(m@),
            PluginxError::Io(e) => PluginxErrorView::Io(e.kind, e.message@),
            PluginxError::Handshake { error, message } => PluginxErrorView::Handshake {
                error: *error,
                message: message@,
            },
        }
    }
}

/// The message that goes with an error.
pub open spec fn error_text(e: PluginxErrorView) -> Seq<char> {
    match e {
        PluginxErrorView::Tonic(m) => "tonic: "@ + m,
        PluginxErrorView::TokioTask(m) => "tokio task panic: "@ + m,
        PluginxErrorView::Io(_, m) => "io error: "@ + m,
        PluginxErrorView::Handshake { error, message } => "handshake failed: "@
            + handshake_error_text(error) + ", message: "@ + message,
    }
}

impl PluginxError {
    /// The message that goes with the error.
    pub fn to_string(&self) -> (s: String)
        ensures
            s@ == error_text(self@),
    {
        match self {
            PluginxError::Tonic(m) => {
                let mut s = "tonic: ".to_owned();
                s.append(m.as_str());
                s
            },
            PluginxError::TokioTask(m) => {
                let mut s = "tokio task panic: ".to_owned();
                s.append(m.as_str());
                s
            },
            PluginxError::Io(e) => {
                let mut s = "io error: ".to_owned();
                s.append(e.message.as_str());
                s
            },
            PluginxError::Handshake { error, message } => {
                let mut s = "handshake failed: ".to_owned();
                let reason = error.to_string();
                s.append(reason.as_str());
                s.append(", message: ");
                s.append(message.as_str());
                s
            },
        }
    }
}

impl PluginxError {
    /// A handshake failure with no output to show for it.
    pub fn handshake(error: HandshakeError) -> (e: PluginxError)
        ensures
            e@ == (PluginxErrorView::Handshake { error, message: Seq::<char>::empty() }),
    {
        PluginxError::Handshake { error, message: String::new() }
    }
}

impl From<HandshakeError> for PluginxError {
    /// The same as `PluginxError::handshake`, which carries the contract.
    fn from(error: HandshakeError) -> (e: PluginxError) {
        PluginxError::handshake(error)
    }
}

impl FromSpecImpl<HandshakeError> for PluginxError {
    open spec fn obeys_from_spec() -> bool {
        false
    }

    open spec fn from_spec(error: HandshakeError) -> PluginxError {
        arbitrary()
    }
}

} // verus!
