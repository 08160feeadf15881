use boom::supervisor::{fault_notification, on_confirmed_trigger, Fault};
use boom::logger::{error, info};
use boom::mic::{MicAction, MicConsumer};
use boom::models::{MicNotification, SerialError};
use boom::warning::on_serial_error;

#[test]
fn info_line() {
    assert_eq!(info("Boom started"), "Boom started");
}

#[test]
fn error_line() {
    assert_eq!(error("sensor failure", None), "sensor failure");
    assert_eq!(error("sensor failure:", Some("timeout")), "sensor failure: timeout");
    assert_eq!(error("", Some("")), " ");
}

#[test]
fn faults_raise_error_notifications() {
    assert_eq!(fault_notification(Fault::RadioStart), MicNotification::RadioError);
    assert_eq!(fault_notification(Fault::RadioSend), MicNotification::RadioError);
    assert_eq!(fault_notification(Fault::SensorDetect), MicNotification::SoundSensorError);
}

#[test]
fn fault_silences_later_booms() {
    let mut c = MicConsumer::new();
    assert_eq!(c.handle(fault_notification(Fault::RadioSend)), MicAction::StartErrorPattern);
    assert_eq!(c.handle(MicNotification::Boom), MicAction::Nothing);
}

#[test]
fn confirmed_trigger_plan() {
    let plan = on_confirmed_trigger();
    assert_eq!(plan.notify, MicNotification::Boom);
    assert_eq!(plan.packet, vec![0xAA, 0x42, 0x01, 0x01, 0x42]);
}

#[test]
fn serial_errors_turn_on_led() {
    for e in [SerialError::SoundSensor, SerialError::Radio] {
        let w = on_serial_error(e);
        assert_eq!(w.message, "Failed LED is on");
        assert_eq!(w.period_ms, 1000);
    }
}
