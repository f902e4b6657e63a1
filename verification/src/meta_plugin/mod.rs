//! The services that every plugin offers besides its own: the controller,
//! which ends it, the relay of its output, and the broker.

pub mod broker;
pub mod controller;
pub mod stdio;

pub use self::broker::{BrokerHandler, BrokerServer, PendingStream};
pub use self::controller::{ControllerExitSignal, ControllerServer};
pub use self::stdio::{StdioMessage, StdioServer, StdioType};
