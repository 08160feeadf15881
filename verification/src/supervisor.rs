//! Decisions of the boom detector program: which notification a failure
//! raises, and what is done once a trigger is confirmed.
use vstd::prelude::*;
use crate::mic::{mic_step, MicAction};
use crate::mm2t::{trigger_packet, frame_spec, PACKET_TYPE, TRIGGER_PAYLOAD};
use crate::models::MicNotification;

verus! {

/// A failure of one of the devices the program drives.
#[derive(Debug, Clone, Copy, PartialEq, Eq, Structural)]
pub enum Fault {
    /// The MM2T radio could not be opened.
    RadioStart,
    /// A trigger packet could not be sent over the radio.
    RadioSend,
    /// The sound sensor task ended with an error.
    SensorDetect,
}

/// The notification a failure raises: radio failures raise `RadioError`,
/// sound sensor failures raise `SoundSensorError`.
pub open spec fn fault_notification_spec(fault: Fault) -> MicNotification {
    match fault {
        Fault::RadioStart | Fault::RadioSend => MicNotification::RadioError,
        Fault::SensorDetect => MicNotification::SoundSensorError,
    }
}

pub fn fault_notification(fault: Fault) -> (n: MicNotification)
    ensures
        n == fault_notification_spec(fault),
{
    match fault {
        Fault::RadioStart | Fault::RadioSend => MicNotification::RadioError,
        Fault::SensorDetect => MicNotification::SoundSensorError,
    }
}

/// What is done once the consumer confirms a trigger: announce the boom,
/// then send `packet` over the radio.
#[derive(Debug, PartialEq, Eq)]
pub struct TriggerPlan {
    pub notify: MicNotification,
    pub packet: Vec<u8>,
}

/// The plan for a confirmed trigger: notify `Boom`, and send the trigger
/// packet.
pub fn on_confirmed_trigger() -> (plan: TriggerPlan)
    ensures
        plan.notify == MicNotification::Boom,
        plan.packet@ == frame_spec(PACKET_TYPE, seq![TRIGGER_PAYLOAD]),
{
    TriggerPlan { notify: MicNotification::Boom, packet: trigger_packet() }
}

/// Any device failure silences the speaker for good: once the notification
/// a fault raises has been handled, whatever the state before, the consumer
/// is in its error state and answers every later boom with nothing.
pub proof fn lemma_fault_silences_booms(error_triggered: bool, fault: Fault)
    ensures
        mic_step(error_triggered, fault_notification_spec(fault)).0,
        mic_step(mic_step(error_triggered, fault_notification_spec(fault)).0, MicNotification::Boom).1
            == MicAction::Nothing,
{
}

} // verus!
