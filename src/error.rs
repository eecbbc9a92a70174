use vstd::prelude::*;

verus! {

/// Everything a recorder command can fail with.
#[derive(Debug, Clone, Copy, PartialEq, Eq, Structural)]
pub enum RecorderError {
    /// The host audio subsystem could not be queried, or gave a malformed listing.
    DeviceQueryError,
    /// The requested device id does not resolve to an attached device.
    DeviceUnavailable,
    /// The device is already claimed.
    DeviceBusy,
    /// The device offers no acceptable sample format or rate.
    FormatNegotiationFailed,
    /// A session is already present and has not been closed.
    SessionAlreadyActive,
    /// The session id does not name the live session.
    SessionMismatch,
    /// The live session is not in a state that allows the command.
    InvalidTransition,
    /// Any other failure of the native audio backend.
    HostSubsystemError,
}

/// The code each error is reported under; no two errors share one.
pub open spec fn code_of(e: RecorderError) -> Seq<char> {
    match e {
        RecorderError::DeviceQueryError => "device-query-error"@,
        RecorderError::DeviceUnavailable => "device-not-found"@,
        RecorderError::DeviceBusy => "device-busy"@,
        RecorderError::FormatNegotiationFailed => "format-negotiation-failed"@,
        RecorderError::SessionAlreadyActive => "session-already-active"@,
        RecorderError::SessionMismatch => "session-mismatch"@,
        RecorderError::InvalidTransition => "invalid-transition"@,
        RecorderError::HostSubsystemError => "host-subsystem-error"@,
    }
}

impl RecorderError {
    /// A short stable code that a caller can show or match on.
    pub fn code(&self) -> (r: &'static str)
        ensures
            r@ == code_of(*self),
    {
        match self {
            RecorderError::DeviceQueryError => "device-query-error",
            RecorderError::DeviceUnavailable => "device-not-found",
            RecorderError::DeviceBusy => "device-busy",
            RecorderError::FormatNegotiationFailed => "format-negotiation-failed",
            RecorderError::SessionAlreadyActive => "session-already-active",
            RecorderError::SessionMismatch => "session-mismatch",
            RecorderError::InvalidTransition => "invalid-transition",
            RecorderError::HostSubsystemError => "host-subsystem-error",
        }
    }
}

} // verus!
