//! Decisions of the microphone (speaker) notification consumer.
//!
//! A boom is announced with a one-time beep pattern only while no error has
//! been reported; the first error starts a repeating error pattern, which is
//! started only once, and locks out every later boom.
use vstd::prelude::*;
use crate::models::MicNotification;

verus! {

/// Byte that makes the microphone device beep once.
pub const BEEP: u8 = 0x31;

/// Pause between the two beeps of the boom pattern, in milliseconds.
pub const BOOM_GAP_MS: u64 = 500;

/// Period of the repeating error pattern, in milliseconds.
pub const ERROR_PERIOD_MS: u64 = 1000;

/// What the consumer asks the microphone to do after a notification.
#[derive(Debug, Clone, Copy, PartialEq, Eq, Structural)]
pub enum MicAction {
    /// Play the one-time boom pattern.
    PlayBoom,
    /// Start the repeating error pattern in the background.
    StartErrorPattern,
    /// Do nothing.
    Nothing,
}

/// One step of a pattern sent to the microphone device.
#[derive(Debug, Clone, Copy, PartialEq, Eq, Structural)]
pub enum MicCommand {
    /// Write this byte to the device.
    Write(u8),
    /// Wait this many milliseconds.
    SleepMs(u64),
}

/// State of the notification consumer: whether an error has been seen.
pub struct MicConsumer {
    error_triggered: bool,
}

impl View for MicConsumer {
    type V = bool;

    closed spec fn view(&self) -> bool {
        self.error_triggered
    }
}

/// One transition: the state after `event` and the action it asks for.
pub open spec fn mic_step(error_triggered: bool, event: MicNotification) -> (bool, MicAction) {
    match event {
        MicNotification::Boom => (
            error_triggered,
            if error_triggered { MicAction::Nothing } else { MicAction::PlayBoom },
        ),
        _ => (
            true,
            if error_triggered { MicAction::Nothing } else { MicAction::StartErrorPattern },
        ),
    }
}

/// The state and the actions after a sequence of notifications.
pub open spec fn mic_run(error_triggered: bool, events: Seq<MicNotification>) -> (bool, Seq<MicAction>)
    decreases events.len(),
{
    if events.len() == 0 {
        (error_triggered, Seq::empty())
    } else {
        let prev = mic_run(error_triggered, events.drop_last());
        let next = mic_step(prev.0, events.last());
        (next.0, prev.1.push(next.1))
    }
}

/// Whether some notification before index `j` is an error.
pub open spec fn error_before(events: Seq<MicNotification>, j: int) -> bool {
    exists|i: int| 0 <= i < j && (#[trigger] events[i]).is_error()
}

impl MicConsumer {
    /// A consumer that has seen no error.
    pub fn new() -> (c: Self)
        ensures
            !c@,
    {
        MicConsumer { error_triggered: false }
    }

    /// Whether an error has been reported.
    pub fn error_triggered(&self) -> (b: bool)
        ensures
            b == self@,
    {
        self.error_triggered
    }

    /// Handles one notification.
    pub fn handle(&mut self, event: MicNotification) -> (action: MicAction)
        ensures
            (final(self)@, action) == mic_step(old(self)@, event),
    {
        match event {
            MicNotification::Boom => {
                if self.error_triggered {
                    MicAction::Nothing
                } else {
                    MicAction::PlayBoom
                }
            },
            MicNotification::SoundSensorError | MicNotification::RadioError => {
                let first = !self.error_triggered;
                self.error_triggered = true;
                if first {
                    MicAction::StartErrorPattern
                } else {
                    MicAction::Nothing
                }
            },
        }
    }
}

/// The one-time boom pattern: beep, wait half a second, beep.
pub fn boom_pattern_commands() -> (cmds: Vec<MicCommand>)
    ensures
        cmds@ == seq![MicCommand::Write(BEEP), MicCommand::SleepMs(BOOM_GAP_MS), MicCommand::Write(BEEP)],
{
    let mut cmds: Vec<MicCommand> = Vec::new();
    cmds.push(MicCommand::Write(BEEP));
    cmds.push(MicCommand::SleepMs(BOOM_GAP_MS));
    cmds.push(MicCommand::Write(BEEP));
    assert(cmds@ =~= seq![MicCommand::Write(BEEP), MicCommand::SleepMs(BOOM_GAP_MS), MicCommand::Write(BEEP)]);
    cmds
}

/// One period of the repeating error pattern: beep, then wait a second.
pub fn error_pattern_cycle() -> (cmds: Vec<MicCommand>)
    ensures
        cmds@ == seq![MicCommand::Write(BEEP), MicCommand::SleepMs(ERROR_PERIOD_MS)],
{
    let mut cmds: Vec<MicCommand> = Vec::new();
    cmds.push(MicCommand::Write(BEEP));
    cmds.push(MicCommand::SleepMs(ERROR_PERIOD_MS));
    assert(cmds@ =~= seq![MicCommand::Write(BEEP), MicCommand::SleepMs(ERROR_PERIOD_MS)]);
    cmds
}

/// Over any sequence of notifications handled from the initial state:
/// there is one action per notification; the boom pattern is played for a
/// notification exactly when it is a boom and no error came before it (an
/// error locks out every later boom); the error pattern is started exactly
/// for the first error; and the final state records whether any error came.
pub proof fn lemma_mic_run(events: Seq<MicNotification>)
    ensures
        mic_run(false, events).1.len() == events.len(),
        mic_run(false, events).0 == error_before(events, events.len() as int),
        forall|j: int| 0 <= j < events.len() ==>
            (#[trigger] mic_run(false, events).1[j] == MicAction::PlayBoom
                <==> events[j] is Boom && !error_before(events, j)),
        forall|j: int| 0 <= j < events.len() ==>
            (#[trigger] mic_run(false, events).1[j] == MicAction::StartErrorPattern
                <==> events[j].is_error() && !error_before(events, j)),
    decreases events.len(),
{
    if events.len() > 0 {
        let prefix = events.drop_last();
        lemma_mic_run(prefix);
        let n = events.len() - 1;
        assert forall|j: int| 0 <= j <= n implies error_before(prefix, j) == error_before(events, j) by {
            if error_before(events, j) {
                let i = choose|i: int| 0 <= i < j && (#[trigger] events[i]).is_error();
                assert(prefix[i] == events[i]);
            }
            if error_before(prefix, j) {
                let i = choose|i: int| 0 <= i < j && (#[trigger] prefix[i]).is_error();
                assert(prefix[i] == events[i]);
            }
        }
        if events[n].is_error() {
            assert(error_before(events, n + 1)) by {
                assert(events[n].is_error());
            }
        } else {
            assert(error_before(events, n + 1) == error_before(events, n)) by {
                if error_before(events, n + 1) {
                    let i = choose|i: int| 0 <= i < n + 1 && (#[trigger] events[i]).is_error();
                    assert(i != n);
                }
            }
        }
        assert forall|j: int| 0 <= j < n implies mic_run(false, events).1[j] == mic_run(false, prefix).1[j] by {}
    }
}

/// A consumer that has seen an error ignores every boom.
pub proof fn lemma_error_locks_out_boom(error_triggered: bool, error: MicNotification)
    requires
        error.is_error(),
    ensures
        mic_step(mic_step(error_triggered, error).0, MicNotification::Boom).1 == MicAction::Nothing,
        mic_step(error_triggered, error).0,
{
}

} // verus!
