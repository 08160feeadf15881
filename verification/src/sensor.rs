//! The sound sensor: the byte protocol of the real sensor and the timing
//! of the simulated one.
use vstd::prelude::*;
use crate::models::EdgeDetection;

verus! {

/// Byte the sensor sends when it detects a sound spike.
pub const TRIGGER_BYTE: u8 = 0x01;

/// Pause between two simulated triggers of a burst, in milliseconds.
pub const MOCK_TRIGGER_GAP_MS: u64 = 50;

/// Fewest and most triggers in a simulated burst.
pub const MOCK_MIN_TRIGGERS: u64 = 1;
pub const MOCK_MAX_TRIGGERS: u64 = 5;

/// Shortest and longest quiet period after a simulated burst, in seconds.
pub const MOCK_MIN_QUIET_SECS: u64 = 5;
pub const MOCK_MAX_QUIET_SECS: u64 = 10;

/// The outcome of one read of a single byte from the sensor port.
#[derive(Debug, Clone, Copy, PartialEq, Eq, Structural)]
pub enum ReadOutcome {
    /// `count` bytes were read; `first` is the byte at the start of the buffer.
    Read { count: usize, first: u8 },
    /// The read failed.
    Failed,
}

/// What the sensor task does after a read.
#[derive(Debug, PartialEq, Eq)]
pub enum SensorStep {
    /// Send this event to the consumer and keep reading.
    Emit(EdgeDetection),
    /// Keep reading without sending anything.
    Ignore,
    /// Send this event to the consumer, then end the task with an error.
    EmitAndStop(EdgeDetection),
}

/// The real sound sensor on a serial port.
pub struct SoundSensor;

/// A simulated sound sensor that produces random bursts of triggers.
pub struct SoundSensorMock;

/// One cycle of the simulated sensor: `triggers` trigger events spaced
/// `trigger_gap_ms` apart, then a quiet period of `quiet_secs` seconds.
#[derive(Debug, Clone, Copy, PartialEq, Eq, Structural)]
pub struct MockCycle {
    pub triggers: u64,
    pub trigger_gap_ms: u64,
    pub quiet_secs: u64,
}

/// A random `u64` in `low..=high`, from the thread-local generator of
/// fastrand (`fastrand::u64` with an inclusive range). The contract claims
/// only that the result lies in the range, which the source guarantees; it
/// says nothing of its distribution. fastrand panics on an empty range,
/// which `requires` rules out.
#[verifier::external_body]
fn random_u64_in(low: u64, high: u64) -> (r: u64)
    requires
        low <= high,
    ensures
        low <= r <= high,
{
    fastrand::u64(low..=high)
}

impl SoundSensor {
    /// Decides what to do after reading from the port: a read of exactly one
    /// byte equal to 0x01 is a trigger; any other read is ignored; a failed
    /// read reports "failed sound sensor" and ends the task.
    pub fn on_read(&self, outcome: ReadOutcome) -> (step: SensorStep)
        ensures
            match outcome {
                ReadOutcome::Read { count, first } => step == if count == 1 && first == TRIGGER_BYTE {
                    SensorStep::Emit(EdgeDetection::Triggered)
                } else {
                    SensorStep::Ignore
                },
                ReadOutcome::Failed => step matches SensorStep::EmitAndStop(EdgeDetection::Error(t))
                    && t@ == "failed sound sensor"@,
            },
    {
        match outcome {
            ReadOutcome::Read { count, first } => {
                if count == 1 && first == TRIGGER_BYTE {
                    SensorStep::Emit(EdgeDetection::Triggered)
                } else {
                    SensorStep::Ignore
                }
            },
            ReadOutcome::Failed => SensorStep::EmitAndStop(EdgeDetection::Error(sensor_failure_text())),
        }
    }
}

/// The text of the error event sent when the sensor port fails.
pub fn sensor_failure_text() -> (t: String)
    ensures
        t@ == "failed sound sensor"@,
{
    String::from_str("failed sound sensor")
}

impl SoundSensorMock {
    /// Draws the next simulated cycle: between 1 and 5 triggers 50 ms
    /// apart, then a quiet period of 5 to 10 seconds.
    pub fn next_cycle(&self) -> (cycle: MockCycle)
        ensures
            MOCK_MIN_TRIGGERS <= cycle.triggers <= MOCK_MAX_TRIGGERS,
            cycle.trigger_gap_ms == MOCK_TRIGGER_GAP_MS,
            MOCK_MIN_QUIET_SECS <= cycle.quiet_secs <= MOCK_MAX_QUIET_SECS,
    {
        let triggers = random_u64_in(MOCK_MIN_TRIGGERS, MOCK_MAX_TRIGGERS);
        let quiet_secs = random_u64_in(MOCK_MIN_QUIET_SECS, MOCK_MAX_QUIET_SECS);
        MockCycle { triggers, trigger_gap_ms: MOCK_TRIGGER_GAP_MS, quiet_secs }
    }
}

} // verus!
