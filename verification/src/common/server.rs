//! How a plugin is to find its transport.

use vstd::prelude::*;

verus! {

/// The transport that a plugin is to listen on, and where to look for it.
#[derive(Clone, Debug, PartialEq, Eq)]
pub enum TransportConfig {
    /// A Unix domain socket whose file name begins with `prefix`, in `dir` or,
    /// without one, in the system's directory for temporary files.
    Unix { prefix: String, dir: Option<String> },
    /// A TCP socket on the loopback address, on a port from `first_port` to
    /// `last_port`.
    Tcp { first_port: u16, last_port: u16 },
}

/// What a `TransportConfig` stands for.
pub enum TransportConfigView {
    Unix { prefix: Seq<char>, dir: Option<Seq<char>> },
    Tcp { first_port: u16, last_port: u16 },
}

impl View for TransportConfig {
    type V = TransportConfigView;

    open spec fn view(&self) -> TransportConfigView {
        match self {
            TransportConfig::Unix { prefix, dir } => TransportConfigView::Unix {
                prefix: prefix@,
                dir: match dir {
                    Some(d) => Some(d@),
                    None => None,
                },
            },
            TransportConfig::Tcp { first_port, last_port } => TransportConfigView::Tcp {
                first_port: *first_port,
                last_port: *last_port,
            },
        }
    }
}

} // verus!
