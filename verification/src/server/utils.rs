//! The transport that the environment of a plugin asks for.

use vstd::prelude::*;

use crate::common::server::{TransportConfig, TransportConfigView};
use crate::constant::{DEFAULT_MAX_PORT, DEFAULT_MIN_PORT};
use crate::decimal::{parse_unsigned, parse_unsigned_chars};
use crate::text::{chars_of, text_of};

verus! {

/// What the file name of every socket of a plugin begins with.
pub const PLUGIN_UNIX_SOCKET_PREFIX: &'static str = "plugin-";

/// The port that the value of an environment variable names, if the variable
/// is set and its value is a port.
pub open spec fn port_of(value: Option<Seq<char>>) -> Option<u16> {
    match value {
        Some(text) => match parse_unsigned(text, u16::MAX as nat) {
            Ok(port) => Some(port as u16),
            Err(_) => None,
        },
        None => None,
    }
}

/// A TCP transport on the range that the two variables give when both name a
/// port, and on the default range when either does not.
pub open spec fn tcp_transport_config(
    min: Option<Seq<char>>,
    max: Option<Seq<char>>,
) -> TransportConfigView {
    match (port_of(min), port_of(max)) {
        (Some(first_port), Some(last_port)) => TransportConfigView::Tcp { first_port, last_port },
        _ => TransportConfigView::Tcp {
            first_port: DEFAULT_MIN_PORT,
            last_port: DEFAULT_MAX_PORT,
        },
    }
}

/// The port that the value of an environment variable names.
fn port_from_env(value: Option<&str>) -> (port: Option<u16>)
    ensures
        port == port_of(text_of(value)),
{
    match value {
        Some(text) => {
            let chars = chars_of(text);
            match parse_unsigned_chars(chars.as_slice(), 65535) {
                Ok(port) => Some(port as u16),
                Err(_) => None,
            }
        },
        None => None,
    }
}

/// The TCP transport that the environment asks for. `min` and `max` are the
/// values of `PLUGIN_MIN_PORT` and `PLUGIN_MAX_PORT`, where they are set.
pub fn tcp_transport_config_from_env(min: Option<&str>, max: Option<&str>) -> (config:
    TransportConfig)
    ensures
        config@ == tcp_transport_config(text_of(min), text_of(max)),
{
    match (port_from_env(min), port_from_env(max)) {
        (Some(first_port), Some(last_port)) => TransportConfig::Tcp { first_port, last_port },
        _ => TransportConfig::Tcp { first_port: DEFAULT_MIN_PORT, last_port: DEFAULT_MAX_PORT },
    }
}

/// The socket transport that the environment asks for. `dir` is the value of
/// `PLUGIN_UNIX_SOCKET_DIR`, where it is set.
pub fn unix_transport_config_from_env(dir: Option<&str>) -> (config: TransportConfig)
    ensures
        config@ == (TransportConfigView::Unix {
            prefix: PLUGIN_UNIX_SOCKET_PREFIX@,
            dir: text_of(dir),
        }),
{
    TransportConfig::Unix {
        prefix: PLUGIN_UNIX_SOCKET_PREFIX.to_owned(),
        dir: match dir {
            Some(d) => Some(d.to_owned()),
            None => None,
        },
    }
}

} // verus!
