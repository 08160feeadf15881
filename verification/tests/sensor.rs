use boom::models::EdgeDetection;
use boom::sensor::{sensor_failure_text, ReadOutcome, SensorStep, SoundSensor, SoundSensorMock};

#[test]
fn trigger_byte_emits_trigger() {
    let s = SoundSensor;
    assert_eq!(
        s.on_read(ReadOutcome::Read { count: 1, first: 0x01 }),
        SensorStep::Emit(EdgeDetection::Triggered)
    );
}

#[test]
fn other_reads_ignored() {
    let s = SoundSensor;
    assert_eq!(s.on_read(ReadOutcome::Read { count: 1, first: 0x00 }), SensorStep::Ignore);
    assert_eq!(s.on_read(ReadOutcome::Read { count: 1, first: 0x02 }), SensorStep::Ignore);
    assert_eq!(s.on_read(ReadOutcome::Read { count: 0, first: 0x01 }), SensorStep::Ignore);
}

#[test]
fn failed_read_reports_and_stops() {
    let s = SoundSensor;
    assert_eq!(
        s.on_read(ReadOutcome::Failed),
        SensorStep::EmitAndStop(EdgeDetection::Error("failed sound sensor".to_string()))
    );
    assert_eq!(sensor_failure_text(), "failed sound sensor");
}

#[test]
fn mock_cycles_in_range() {
    let m = SoundSensorMock;
    for _ in 0..200 {
        let c = m.next_cycle();
        assert!((1..=5).contains(&c.triggers));
        assert_eq!(c.trigger_gap_ms, 50);
        assert!((5..=10).contains(&c.quiet_secs));
    }
}

#[test]
fn mock_cycles_vary() {
    let m = SoundSensorMock;
    let mut triggers = std::collections::BTreeSet::new();
    let mut quiet = std::collections::BTreeSet::new();
    for _ in 0..500 {
        let c = m.next_cycle();
        triggers.insert(c.triggers);
        quiet.insert(c.quiet_secs);
    }
    assert!(triggers.len() > 1);
    assert!(quiet.len() > 1);
}
