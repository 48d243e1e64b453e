//! The errors that end monitoring.
use vstd::prelude::*;

verus! {

/// Why the watcher cannot go on. None of these is retried.
#[derive(Debug, Clone)]
pub enum MonitorError {
    /// The main loop or the connection object could not be built.
    Setup(String),
    /// The daemon connection reached its failed state.
    ConnectionFailed,
    /// The daemon connection was terminated.
    ConnectionTerminated,
    /// An enumeration or server query failed midway, with the daemon's reason.
    Query(String),
    /// A reply channel closed before its final message arrived.
    ChannelDisconnected,
    /// At startup no source of the catalog is the server's default.
    NoDefaultSource,
}

} // verus!
