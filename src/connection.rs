//! The connection state machine.
use vstd::prelude::*;
use crate::error::MonitorError;

verus! {

/// The daemon connection's lifecycle states.
#[derive(Debug, Clone, Copy, PartialEq, Eq, Structural)]
pub enum ConnectionStatus {
    Unconnected,
    Connecting,
    Authorizing,
    Negotiating,
    Ready,
    Failed,
    Terminated,
}

/// What to do after the connection reported a state.
#[derive(Debug, Clone, Copy, PartialEq, Eq, Structural)]
pub enum ConnectStep {
    /// Not there yet: wait for the next state change.
    Wait,
    /// Connected: stop listening for state changes.
    Ready,
}

/// The next step of connecting, given the state the connection reports:
/// the four intermediate states wait, `Ready` ends the wait, `Failed` and
/// `Terminated` end it with their error.
pub fn connection_step(status: ConnectionStatus) -> (r: Result<ConnectStep, MonitorError>)
    ensures
        match status {
            ConnectionStatus::Ready => r == Ok::<ConnectStep, MonitorError>(ConnectStep::Ready),
            ConnectionStatus::Failed => r matches Err(MonitorError::ConnectionFailed),
            ConnectionStatus::Terminated => r matches Err(MonitorError::ConnectionTerminated),
            _ => r == Ok::<ConnectStep, MonitorError>(ConnectStep::Wait),
        },
{
    match status {
        ConnectionStatus::Unconnected | ConnectionStatus::Connecting
        | ConnectionStatus::Authorizing | ConnectionStatus::Negotiating => Ok(ConnectStep::Wait),
        ConnectionStatus::Ready => Ok(ConnectStep::Ready),
        ConnectionStatus::Failed => Err(MonitorError::ConnectionFailed),
        ConnectionStatus::Terminated => Err(MonitorError::ConnectionTerminated),
    }
}

} // verus!
