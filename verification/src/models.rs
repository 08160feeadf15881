use vstd::prelude::*;

verus! {

/// Notification events for the microphone (speaker) device.
#[derive(Debug, Clone, Copy, PartialEq, Eq, Structural)]
pub enum MicNotification {
    /// The sound sensor has detected an event.
    Boom,
    /// The physical sound sensor has failed.
    SoundSensorError,
    /// The MM2T radio has failed.
    RadioError,
}

impl MicNotification {
    /// Both error notifications put the system in its failed state.
    pub open spec fn is_error(self) -> bool {
        !(self is Boom)
    }
}

/// Events emitted by sound sensor hardware.
#[derive(Debug, PartialEq, Eq)]
pub enum EdgeDetection {
    /// The sound sensor has detected an event.
    Triggered,
    /// The physical sound sensor reported an error.
    Error(String),
}

/// Failures of the serial devices.
#[derive(Debug, Clone, Copy, PartialEq, Eq, Structural)]
pub enum SerialError {
    SoundSensor,
    Radio,
}

} // verus!
