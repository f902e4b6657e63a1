//! Protocol core of a cross-process plugin framework that speaks the
//! go-plugin wire protocol: the handshake line, the choice of transport, the
//! start-up and shutdown sequencing of host and plugin, the service registry
//! and the built-in meta-services, each with a machine-checked contract.
//!
//! Nothing here touches a process, a socket or a clock. The caller performs
//! those actions and reports what happened; the functions in this crate decide
//! what follows.

pub mod client;
pub mod common;
pub mod constant;
pub mod decimal;
pub mod error;
pub mod handshake;
pub mod meta_plugin;
pub mod server;
pub mod text;

pub use self::error::PluginxError;
