//! Lifecycle manager of a local forwarding proxy that can be switched on,
//! switched off and retargeted while the host process keeps running.
//!
//! The library holds the decisions and leaves the sockets to its caller. A
//! [`Supervisor`] applies configuration updates one at a time and keeps at
//! most one listener alive. A [`ListenerTask`] admits inbound connections
//! until it is told to stop and then waits for those it admitted. A
//! [`ConnectionForwarder`] serves one inbound connection, reading the
//! [`TargetRegistry`] afresh for every unit of work.

pub mod config;
pub mod editor;
pub mod forwarder;
pub mod handle;
pub mod laws;
pub mod listener;
pub mod registry;
pub mod supervisor;
pub mod text;

pub use config::{BackEndConfig, ForwardTarget, ProxyConfig};
pub use forwarder::{
    ConnectionForwarder, ForwardError, ForwarderAction, ForwarderEvent, ForwarderPhase, Strategy,
};
pub use handle::DynamicProxy;
pub use listener::{ListenerAction, ListenerEvent, ListenerPhase, ListenerTask};
pub use registry::TargetRegistry;
pub use supervisor::{Action, Event, Phase, RunningProxy, Supervisor, TransitionError};
