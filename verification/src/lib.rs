//! Decision logic of the boom detector: the MM2T radio frame, the
//! microphone notification state machine, the sound-sensor byte protocol,
//! the trigger debouncer, and the texts written to the log.
//!
//! The serial ports, timers, channels and the log file are driven by the
//! program around this library, which hands events in and carries the
//! returned actions out; the only outside call made here is the random draw
//! of the simulated sensor.

pub mod consumer;
pub mod logger;
pub mod models;
pub mod mic;
pub mod mm2t;
pub mod packet_boom;
pub mod sensor;
pub mod supervisor;
pub mod warning;
