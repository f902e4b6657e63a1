//! The names and defaults that host and plugin agree on out of band.

use vstd::prelude::*;

verus! {

/// The environment variable by which a host tells a plugin the lowest port
/// that it may listen on.
pub const PLUGIN_MIN_PORT: &'static str = "PLUGIN_MIN_PORT";

/// The environment variable that carries the highest such port.
pub const PLUGIN_MAX_PORT: &'static str = "PLUGIN_MAX_PORT";

/// The environment variable that names the directory for socket files.
pub const PLUGIN_UNIX_SOCKET_DIR: &'static str = "PLUGIN_UNIX_SOCKET_DIR";

/// The lowest port of the range that is used when none is given.
pub const DEFAULT_MIN_PORT: u16 = 10000;

/// The highest port of that range.
pub const DEFAULT_MAX_PORT: u16 = 25000;

/// Whether a plugin on TCP sends small packets at once rather than gathering
/// them: it does, since calls are short and wait for their answers.
pub const TCP_NODELAY: bool = true;

/// The name under which a plugin reports its health as serving.
pub const HEALTH_SERVICE_NAME: &'static str = "plugin";

/// The version of the framework protocol that a plugin announces.
pub const CORE_PROTOCOL_VERSION: u32 = 1;

} // verus!
