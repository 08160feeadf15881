use boom::mic::{boom_pattern_commands, error_pattern_cycle, MicAction, MicCommand, MicConsumer, BEEP};
use boom::models::MicNotification;

#[test]
fn boom_plays_while_no_error() {
    let mut c = MicConsumer::new();
    assert!(!c.error_triggered());
    assert_eq!(c.handle(MicNotification::Boom), MicAction::PlayBoom);
    assert_eq!(c.handle(MicNotification::Boom), MicAction::PlayBoom);
    assert!(!c.error_triggered());
}

#[test]
fn error_locks_out_booms() {
    let mut c = MicConsumer::new();
    assert_eq!(c.handle(MicNotification::SoundSensorError), MicAction::StartErrorPattern);
    assert!(c.error_triggered());
    assert_eq!(c.handle(MicNotification::Boom), MicAction::Nothing);
    assert_eq!(c.handle(MicNotification::Boom), MicAction::Nothing);
}

#[test]
fn error_pattern_starts_once() {
    let mut c = MicConsumer::new();
    assert_eq!(c.handle(MicNotification::Boom), MicAction::PlayBoom);
    assert_eq!(c.handle(MicNotification::RadioError), MicAction::StartErrorPattern);
    assert_eq!(c.handle(MicNotification::SoundSensorError), MicAction::Nothing);
    assert_eq!(c.handle(MicNotification::RadioError), MicAction::Nothing);
    assert_eq!(c.handle(MicNotification::Boom), MicAction::Nothing);
}

#[test]
fn patterns() {
    assert_eq!(BEEP, b'1');
    assert_eq!(
        boom_pattern_commands(),
        vec![MicCommand::Write(b'1'), MicCommand::SleepMs(500), MicCommand::Write(b'1')]
    );
    assert_eq!(error_pattern_cycle(), vec![MicCommand::Write(b'1'), MicCommand::SleepMs(1000)]);
}
