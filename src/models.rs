//! The values that the session's workers hand each other.
use crate::commands::WriteCommand;
use vstd::prelude::*;

verus! {

/// The lifecycle that every worker observes: `Disconnected`, then
/// `Connected` and back any number of times, and finally `Exiting`, which is
/// never left.
#[derive(Clone, Copy, Debug, PartialEq, Eq, Structural)]
pub enum ApplicationState {
    Disconnected,
    Connected,
    Exiting,
}

impl ApplicationState {
    pub fn is_disconnected(&self) -> (r: bool)
        ensures
            r == (*self is Disconnected),
    {
        matches!(self, ApplicationState::Disconnected)
    }

    pub fn is_connected(&self) -> (r: bool)
        ensures
            r == (*self is Connected),
    {
        matches!(self, ApplicationState::Connected)
    }

    pub fn is_exiting(&self) -> (r: bool)
        ensures
            r == (*self is Exiting),
    {
        matches!(self, ApplicationState::Exiting)
    }

    /// The state after a successful handshake: `Disconnected` becomes
    /// `Connected`; any other state stays as it is.
    pub fn after_handshake(self) -> (r: ApplicationState)
        ensures
            r == (if self is Disconnected { ApplicationState::Connected } else { self }),
    {
        match self {
            ApplicationState::Disconnected => ApplicationState::Connected,
            other => other,
        }
    }

    /// The state after the control connection was lost or could not be
    /// made: `Disconnected`, unless the session is already exiting.
    pub fn after_connection_lost(self) -> (r: ApplicationState)
        ensures
            r == (if self is Exiting { ApplicationState::Exiting } else { ApplicationState::Disconnected }),
    {
        match self {
            ApplicationState::Exiting => ApplicationState::Exiting,
            _ => ApplicationState::Disconnected,
        }
    }
}

/// A local pad that the remote host mirrors: the backend's raw id, the
/// handle it goes by on the wire, and the remote slots it was given.
#[derive(Clone, Copy, Debug, PartialEq, Eq, Structural)]
pub struct Controller {
    pub id: usize,
    pub handle: i32,
    pub device_slot: i16,
    pub pad_slot: i8,
}

/// What the remote host answered to an attach request: the slots the pad was
/// given.
#[derive(Clone, Copy, Debug, PartialEq, Eq, Structural)]
pub struct AttachResponse {
    pub device_slot: i16,
    pub pad_slot: i8,
}

/// The answer a keepalive caller receives.
#[derive(Clone, Copy, Debug, PartialEq, Eq, Structural)]
pub enum PingResponse {
    Pong,
    Disconnect,
}

/// The request to stop mirroring the pad with this handle.
#[derive(Clone, Copy, Debug, PartialEq, Eq, Structural)]
pub struct DettachData {
    pub handle: i32,
}

/// A force-feedback order from the remote host for the pad with this handle.
#[derive(Clone, Copy, Debug, PartialEq, Eq, Structural)]
pub enum Rumble {
    Start(i32),
    Stop(i32),
}

/// What the poller hands the egress worker: one tick's data frame.
pub enum UdpMessage {
    UdpData(WriteCommand),
}

} // verus!
