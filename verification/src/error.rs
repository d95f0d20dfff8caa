//! Unified error type for the event pipeline.
//!
//! The categories mirror where things can go wrong: reading or watching the
//! configuration store, converting values into events, dispatching events,
//! talking to a backend over its IPC, and detecting the environment.
//! Underlying causes from outside libraries are carried as their rendered
//! messages.

use vstd::prelude::*;

verus! {

/// One error of the pipeline.
#[derive(Clone, Debug, PartialEq)]
pub enum Error {
    /// Failed to read a value from the configuration store.
    ConfigRead { namespace: String, key: String, source: String },
    /// Invalid or unrecognized namespace/key combination.
    ConfigKey { namespace: String, key: String },
    /// Failed to set up a configuration watcher.
    WatcherSetup { namespace: String, reason: String, source: Option<String> },
    /// Watcher channel disconnected unexpectedly.
    WatcherDisconnected { namespace: String },
    /// General event conversion failure.
    EventConversion { domain: &'static str, reason: String },
    /// Unsupported or invalid value encountered during conversion.
    UnsupportedValue { domain: &'static str, field: &'static str, value: String },
    /// Type mismatch during event conversion.
    TypeMismatch { domain: &'static str, field: &'static str, expected: &'static str, actual: String },
    /// No compositor backend is available to handle events.
    NoCompositor,
    /// The event is not supported by the current compositor.
    UnsupportedEvent { compositor: &'static str, event: String },
    /// Event handler not implemented for this compositor.
    NotImplemented { compositor: &'static str, handler: &'static str },
    /// Failed to route an event to the appropriate handler.
    RoutingFailed { reason: String },
    /// Failed to connect to a compositor IPC socket.
    IpcConnection { compositor: &'static str, reason: String, source: Option<String> },
    /// An IPC command failed in transport.
    IpcCommand { compositor: &'static str, command: String, source: Option<String> },
    /// An IPC command returned an error response.
    IpcResponse { compositor: &'static str, command: String, response: String },
    /// The IPC socket disconnected; reconnection may be needed.
    IpcDisconnected { compositor: &'static str },
    /// Failed to reconnect to a compositor IPC socket.
    IpcReconnectFailed { compositor: &'static str, attempts: u32 },
    /// Failed to detect the current compositor or session.
    DetectionFailed { reason: String },
    /// A required environment variable is missing.
    MissingEnvVar { var: &'static str },
    /// The session type is unsupported.
    UnsupportedSession { session: String },
    /// The chosen compositor is not running or not reachable.
    CompositorNotRunning { compositor: &'static str },
    /// A channel send failed.
    ChannelSend(String),
    /// A wrapped cause from an outside library, with context.
    External { context: &'static str, message: String },
}

impl Error {
    /// Create a `ConfigRead` error.
    pub fn config_read(namespace: String, key: String, source: String) -> (r: Error)
        ensures
            r == (Error::ConfigRead { namespace, key, source }),
    {
        Error::ConfigRead { namespace, key, source }
    }

    /// Create a `WatcherSetup` error.
    pub fn watcher_setup(namespace: String, reason: String, source: Option<String>) -> (r: Error)
        ensures
            r == (Error::WatcherSetup { namespace, reason, source }),
    {
        Error::WatcherSetup { namespace, reason, source }
    }

    /// Create an `IpcCommand` error.
    pub fn ipc_command(compositor: &'static str, command: String, source: Option<String>) -> (r:
        Error)
        ensures
            r == (Error::IpcCommand { compositor, command, source }),
    {
        Error::IpcCommand { compositor, command, source }
    }

    /// Create an `IpcConnection` error.
    pub fn ipc_connection(compositor: &'static str, reason: String, source: Option<String>) -> (r:
        Error)
        ensures
            r == (Error::IpcConnection { compositor, reason, source }),
    {
        Error::IpcConnection { compositor, reason, source }
    }

    /// Create a `NotImplemented` error.
    pub fn not_implemented(compositor: &'static str, handler: &'static str) -> (r: Error)
        ensures
            r == (Error::NotImplemented { compositor, handler }),
    {
        Error::NotImplemented { compositor, handler }
    }

    /// Wrap an outside library's rendered error with context.
    pub fn external(context: &'static str, message: String) -> (r: Error)
        ensures
            r == (Error::External { context, message }),
    {
        Error::External { context, message }
    }

    /// The category of this error as a short name, for logging.
    pub fn kind_name(&self) -> (r: &'static str)
    {
        match self {
            Error::ConfigRead { .. } => "config read failed",
            Error::ConfigKey { .. } => "invalid config key",
            Error::WatcherSetup { .. } => "watcher setup failed",
            Error::WatcherDisconnected { .. } => "watcher channel disconnected",
            Error::EventConversion { .. } => "event conversion failed",
            Error::UnsupportedValue { .. } => "unsupported value",
            Error::TypeMismatch { .. } => "type mismatch",
            Error::NoCompositor => "no compositor backend available",
            Error::UnsupportedEvent { .. } => "event not supported",
            Error::NotImplemented { .. } => "handler not implemented",
            Error::RoutingFailed { .. } => "event routing failed",
            Error::IpcConnection { .. } => "IPC connection failed",
            Error::IpcCommand { .. } => "IPC command failed",
            Error::IpcResponse { .. } => "IPC command rejected",
            Error::IpcDisconnected { .. } => "IPC disconnected",
            Error::IpcReconnectFailed { .. } => "IPC reconnect failed",
            Error::DetectionFailed { .. } => "compositor detection failed",
            Error::MissingEnvVar { .. } => "missing environment variable",
            Error::UnsupportedSession { .. } => "unsupported session type",
            Error::CompositorNotRunning { .. } => "compositor not running",
            Error::ChannelSend(_) => "channel send failed",
            Error::External { .. } => "external error",
        }
    }
}

} // verus!
