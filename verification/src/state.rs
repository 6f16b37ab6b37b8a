//! The shared control record: the lock-protected state through which the
//! pipeline publishes its connection status and learns of the quit signal and
//! the log-sink policy. The lock itself lives with the process around the
//! library; the pipeline only ever sees the record one critical section at a
//! time.

use vstd::prelude::*;

verus! {

/// Connection state made observable to the rest of the process.
#[derive(Clone, Copy, PartialEq, Eq, Structural, Debug)]
pub enum ConnectionStatus {
    NotConnected,
    Connected,
    Disconnected,
}

/// The policy half of the log sink: whether a sink exists and is switched on.
/// The sink's write capability stays with its owner outside the library.
#[derive(Clone, Copy, PartialEq, Eq, Structural, Debug)]
pub struct LogControl {
    pub enabled: bool,
}

/// The record shared between the pipeline and the external controller.
/// `quitting` is set by either side and ends the session; `connection_status`
/// is written only by the pipeline; `log` is owned externally and only read.
#[derive(Clone, Copy, PartialEq, Eq, Debug)]
pub struct ControlState {
    pub quitting: bool,
    pub connection_status: ConnectionStatus,
    pub log: Option<LogControl>,
}

impl ControlState {
    /// The state a session starts from: not connected, not quitting.
    pub fn new(log: Option<LogControl>) -> (s: ControlState)
        ensures
            !s.quitting,
            s.connection_status == ConnectionStatus::NotConnected,
            s.log == log,
    {
        ControlState { quitting: false, connection_status: ConnectionStatus::NotConnected, log }
    }

    /// Whether a framed line must also go to the log sink: a sink exists and
    /// is currently enabled.
    pub fn should_log(&self) -> (r: bool)
        ensures
            r == (self.log matches Some(l) && l.enabled),
    {
        match &self.log {
            Some(l) => l.enabled,
            None => false,
        }
    }
}

} // verus!
