use boom::consumer::{ConsumerAction, ConsumerEvent, TriggerDebouncer, DEBOUNCE_MS};
use boom::models::EdgeDetection;

fn trig() -> ConsumerEvent {
    ConsumerEvent::Edge(EdgeDetection::Triggered)
}

#[test]
fn trigger_arms_timer_and_logs() {
    let mut d = TriggerDebouncer::new();
    assert_eq!(d.deadline(), None);
    let a = d.handle(trig(), 100);
    assert_eq!(
        a,
        ConsumerAction::Armed { deadline_ms: 1100, log: "Trigger sensor consumer received".to_string() }
    );
    assert_eq!(d.deadline(), Some(100 + DEBOUNCE_MS));
}

#[test]
fn single_trigger_fires_once_after_a_second() {
    let mut d = TriggerDebouncer::new();
    d.handle(trig(), 0);
    assert_eq!(d.handle(ConsumerEvent::TimerElapsed, 999), ConsumerAction::Idle);
    assert_eq!(d.handle(ConsumerEvent::TimerElapsed, 1000), ConsumerAction::RunTrigger);
    assert_eq!(d.deadline(), None);
    assert_eq!(d.handle(ConsumerEvent::TimerElapsed, 5000), ConsumerAction::Idle);
}

#[test]
fn burst_of_triggers_fires_once_after_last() {
    let mut d = TriggerDebouncer::new();
    for t in [0u64, 50, 100, 150, 200] {
        d.handle(trig(), t);
    }
    assert_eq!(d.deadline(), Some(1200));
    assert_eq!(d.handle(ConsumerEvent::TimerElapsed, 1000), ConsumerAction::Idle);
    assert_eq!(d.handle(ConsumerEvent::TimerElapsed, 1200), ConsumerAction::RunTrigger);
    assert_eq!(d.handle(ConsumerEvent::TimerElapsed, 1300), ConsumerAction::Idle);
}

#[test]
fn sensor_error_logged_timer_kept() {
    let mut d = TriggerDebouncer::new();
    d.handle(trig(), 10);
    let a = d.handle(ConsumerEvent::Edge(EdgeDetection::Error("failed sound sensor".to_string())), 20);
    assert_eq!(a, ConsumerAction::LogError("Trigger sensor error failed sound sensor".to_string()));
    assert_eq!(d.deadline(), Some(1010));
    assert_eq!(d.handle(ConsumerEvent::TimerElapsed, 1010), ConsumerAction::RunTrigger);
}

#[test]
fn elapsed_without_timer_is_idle() {
    let mut d = TriggerDebouncer::new();
    assert_eq!(d.handle(ConsumerEvent::TimerElapsed, 0), ConsumerAction::Idle);
    assert_eq!(d.deadline(), None);
}
