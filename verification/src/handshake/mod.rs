//! The handshake: the one line by which a plugin tells its host where and
//! how to reach it.

pub mod address;
pub mod config;
pub mod hex;
pub mod ipv4;
pub mod ipv6;
pub mod message;

use vstd::prelude::*;

pub use self::address::SocketAddress;
pub use self::config::HandshakeConfig;
pub use self::message::{HandshakeMessage, Network, Protocol};
use crate::decimal::NumberError;

verus! {

/// Why a handshake did not come about.
#[derive(Clone, Copy, Debug, PartialEq, Eq, Structural)]
pub enum HandshakeError {
    /// The line has fewer than five fields, or the plugin's output ended
    /// before a line was there.
    InvalidHandshakeMessage,
    /// Reserved: the framework protocol of the plugin is not supported.
    UnsupportedCoreProtocolVersion,
    /// Reserved: the application protocol of the plugin is not supported.
    UnsupportedAppProtocolVersion,
    /// The network type is unknown, or the address does not fit it.
    InvalidNetwork,
    /// The transport protocol is unknown.
    InvalidTransportProtocol,
    /// One of the two version fields is not a number.
    ParseNumberFailed(NumberError),
    /// The plugin did not announce itself in time.
    StartupTimeout,
}

/// The message that goes with a handshake error.
pub open spec fn handshake_error_text(e: HandshakeError) -> Seq<char> {
    match e {
        HandshakeError::InvalidHandshakeMessage => "invalid handshake message"@,
        HandshakeError::UnsupportedCoreProtocolVersion => "unsupported core protocol version"@,
        HandshakeError::UnsupportedAppProtocolVersion => "unsupported protocol version"@,
        HandshakeError::InvalidNetwork => "invalid handshake network type"@,
        HandshakeError::InvalidTransportProtocol => "invalid transport protocol"@,
        HandshakeError::ParseNumberFailed(e) => "parse number failed: "@ + match e {
            NumberError::Empty => "cannot parse integer from empty string"@,
            NumberError::InvalidDigit => "invalid digit found in string"@,
            NumberError::PosOverflow => "number too large to fit in target type"@,
        },
        HandshakeError::StartupTimeout => "plugin startup timed out"@,
    }
}

impl HandshakeError {
    /// The message that goes with the error.
    pub fn to_string(&self) -> (s: String)
        ensures
            s@ == handshake_error_text(*self),
    {
        match self {
            HandshakeError::InvalidHandshakeMessage => "invalid handshake message".to_owned(),
            HandshakeError::UnsupportedCoreProtocolVersion => {
                "unsupported core protocol version".to_owned()
            },
            HandshakeError::UnsupportedAppProtocolVersion => {
                "unsupported protocol version".to_owned()
            },
            HandshakeError::InvalidNetwork => "invalid handshake network type".to_owned(),
            HandshakeError::InvalidTransportProtocol => "invalid transport protocol".to_owned(),
            HandshakeError::ParseNumberFailed(e) => {
                let mut s = "parse number failed: ".to_owned();
                let reason = e.to_string();
                s.append(reason.as_str());
                s
            },
            HandshakeError::StartupTimeout => "plugin startup timed out".to_owned(),
        }
    }
}

} // verus!
