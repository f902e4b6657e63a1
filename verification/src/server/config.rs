//! What a plugin is started with.

use vstd::prelude::*;

use crate::handshake::HandshakeConfig;

verus! {

/// The configuration of a plugin: what it must agree on with its host.
pub struct ServerConfig {
    pub handshake_config: HandshakeConfig<'static>,
}

} // verus!
