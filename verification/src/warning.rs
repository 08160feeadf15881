//! Reaction to serial device failures: a warning LED that blinks forever.
use vstd::prelude::*;
use crate::models::SerialError;

verus! {

/// Period of the warning blink, in milliseconds.
pub const LED_PERIOD_MS: u64 = 1000;

/// The warning to show: `message` repeated every `period_ms` milliseconds.
#[derive(Debug, PartialEq, Eq)]
pub struct LedWarning {
    pub message: String,
    pub period_ms: u64,
}

/// The warning for a serial failure. Every failure, of the sound sensor or of
/// the radio, turns the same LED on: "Failed LED is on" once a second.
pub fn on_serial_error(err: SerialError) -> (w: LedWarning)
    ensures
        w.message@ == "Failed LED is on"@,
        w.period_ms == LED_PERIOD_MS,
{
    match err {
        SerialError::SoundSensor => LedWarning { message: String::from_str("Failed LED is on"), period_ms: LED_PERIOD_MS },
        SerialError::Radio => LedWarning { message: String::from_str("Failed LED is on"), period_ms: LED_PERIOD_MS },
    }
}

} // verus!
