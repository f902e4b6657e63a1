//! What host and plugin share below their public faces: the search for a
//! transport, the registry of services and the target of a connection.

pub mod client;
pub mod server;
pub mod utils;
