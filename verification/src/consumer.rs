//! Decisions of the sensor-event consumer: a one-second debouncer.
//!
//! Every trigger (re)starts a one-second timer; when the timer elapses
//! without a newer trigger, the trigger action runs once and the timer is
//! cleared. Sensor errors are logged and leave the timer alone. Time is given
//! by the caller as milliseconds on a monotonic clock.
use vstd::prelude::*;
use crate::logger;
use crate::models::EdgeDetection;

verus! {

/// How long the sensor must stay quiet after a trigger before the trigger
/// action runs, in milliseconds.
pub const DEBOUNCE_MS: u64 = 1000;

/// An event the consumer reacts to.
#[derive(Debug, PartialEq, Eq)]
pub enum ConsumerEvent {
    /// An event arrived from the sensor.
    Edge(EdgeDetection),
    /// The timer the consumer last started has elapsed.
    TimerElapsed,
}

/// What the consumer asks its caller to do.
#[derive(Debug, PartialEq, Eq)]
pub enum ConsumerAction {
    /// Write `log` as an information entry and (re)start the timer so that it
    /// elapses at `deadline_ms`.
    Armed { deadline_ms: u64, log: String },
    /// Write this error entry.
    LogError(String),
    /// Run the trigger action.
    RunTrigger,
    /// Nothing to do.
    Idle,
}

/// An event together with the time it was handled, as the model sees it.
pub enum DebounceInput {
    Triggered(u64),
    SensorError,
    Elapsed(u64),
}

/// The kind of an action, as the model sees it.
pub enum DebounceOutcome {
    Armed(u64),
    Logged,
    Fired,
    Idle,
}

pub open spec fn input_of(event: ConsumerEvent, now_ms: u64) -> DebounceInput {
    match event {
        ConsumerEvent::Edge(EdgeDetection::Triggered) => DebounceInput::Triggered(now_ms),
        ConsumerEvent::Edge(EdgeDetection::Error(_)) => DebounceInput::SensorError,
        ConsumerEvent::TimerElapsed => DebounceInput::Elapsed(now_ms),
    }
}

pub open spec fn outcome_of(action: ConsumerAction) -> DebounceOutcome {
    match action {
        ConsumerAction::Armed { deadline_ms, .. } => DebounceOutcome::Armed(deadline_ms),
        ConsumerAction::LogError(_) => DebounceOutcome::Logged,
        ConsumerAction::RunTrigger => DebounceOutcome::Fired,
        ConsumerAction::Idle => DebounceOutcome::Idle,
    }
}

/// One transition of the debouncer, from its pending deadline.
pub open spec fn debounce_step(deadline: Option<u64>, input: DebounceInput) -> (Option<u64>, DebounceOutcome) {
    match input {
        DebounceInput::Triggered(now) => {
            let d = (now + DEBOUNCE_MS) as u64;
            (Some(d), DebounceOutcome::Armed(d))
        },
        DebounceInput::SensorError => (deadline, DebounceOutcome::Logged),
        DebounceInput::Elapsed(now) => match deadline {
            Some(d) => if now >= d {
                (None, DebounceOutcome::Fired)
            } else {
                (deadline, DebounceOutcome::Idle)
            },
            None => (deadline, DebounceOutcome::Idle),
        },
    }
}

/// The deadline and the outcomes after a sequence of inputs.
pub open spec fn debounce_run(deadline: Option<u64>, inputs: Seq<DebounceInput>) -> (Option<u64>, Seq<DebounceOutcome>)
    decreases inputs.len(),
{
    if inputs.len() == 0 {
        (deadline, Seq::empty())
    } else {
        let prev = debounce_run(deadline, inputs.drop_last());
        let next = debounce_step(prev.0, inputs.last());
        (next.0, prev.1.push(next.1))
    }
}

/// Number of triggers among the inputs.
pub open spec fn count_triggers(inputs: Seq<DebounceInput>) -> nat
    decreases inputs.len(),
{
    if inputs.len() == 0 {
        0
    } else {
        count_triggers(inputs.drop_last()) + if inputs.last() is Triggered { 1nat } else { 0nat }
    }
}

/// Number of times the trigger action runs among the outcomes.
pub open spec fn count_fired(outcomes: Seq<DebounceOutcome>) -> nat
    decreases outcomes.len(),
{
    if outcomes.len() == 0 {
        0
    } else {
        count_fired(outcomes.drop_last()) + if outcomes.last() is Fired { 1nat } else { 0nat }
    }
}

/// Between indices `i` and `j` (both excluded) no trigger arrived and the
/// trigger action did not run.
pub open spec fn quiet_between(inputs: Seq<DebounceInput>, outcomes: Seq<DebounceOutcome>, i: int, j: int) -> bool {
    forall|k: int| i < k < j ==> !(#[trigger] inputs[k] is Triggered) && !(outcomes[k] is Fired)
}

/// The trigger at index `i` started the timer that elapses at `d`, and no
/// trigger or firing happened after it before index `j`.
pub open spec fn armed_by(inputs: Seq<DebounceInput>, outcomes: Seq<DebounceOutcome>, i: int, j: int, d: u64) -> bool {
    &&& 0 <= i < j
    &&& inputs[i] is Triggered
    &&& d == inputs[i]->Triggered_0 + DEBOUNCE_MS
    &&& quiet_between(inputs, outcomes, i, j)
}

/// The pending deadline `d` was set by a trigger that nothing followed
/// but events that are neither triggers nor firings.
pub open spec fn pending_from_last_trigger(inputs: Seq<DebounceInput>, outcomes: Seq<DebounceOutcome>, d: u64) -> bool {
    exists|i: int| armed_by(inputs, outcomes, i, inputs.len() as int, d)
}

/// Every trigger time leaves room for the one-second deadline.
pub open spec fn times_fit(inputs: Seq<DebounceInput>) -> bool {
    forall|i: int| 0 <= i < inputs.len() && (#[trigger] inputs[i]) is Triggered ==>
        inputs[i]->Triggered_0 + DEBOUNCE_MS <= u64::MAX
}

/// Over any sequence of events handled from the initial state (no timer):
/// the trigger action runs at most once per trigger, counting a pending
/// timer as one to come; a pending timer is due one second after the latest
/// trigger, with no firing since; and each time the trigger action runs, the
/// timer elapsed at least one second after a trigger that was followed by
/// neither another trigger nor another firing.
pub proof fn lemma_debounce_run(inputs: Seq<DebounceInput>)
    requires
        times_fit(inputs),
    ensures
        debounce_run(None, inputs).1.len() == inputs.len(),
        count_fired(debounce_run(None, inputs).1) + (if debounce_run(None, inputs).0 is Some { 1nat } else { 0nat })
            <= count_triggers(inputs),
        debounce_run(None, inputs).0 matches Some(x) ==>
            pending_from_last_trigger(inputs, debounce_run(None, inputs).1, x),
        forall|j: int| 0 <= j < inputs.len() && (#[trigger] debounce_run(None, inputs).1[j]) is Fired ==> {
            &&& inputs[j] is Elapsed
            &&& exists|i: int| #[trigger] armed_by(inputs, debounce_run(None, inputs).1, i, j, (inputs[i]->Triggered_0 + DEBOUNCE_MS) as u64)
                && inputs[j]->Elapsed_0 >= inputs[i]->Triggered_0 + DEBOUNCE_MS
        },
    decreases inputs.len(),
{
    if inputs.len() > 0 {
        let n = inputs.len() - 1;
        let prefix = inputs.drop_last();
        assert(times_fit(prefix)) by {
            assert forall|i: int| 0 <= i < prefix.len() && (#[trigger] prefix[i]) is Triggered implies
                prefix[i]->Triggered_0 + DEBOUNCE_MS <= u64::MAX by {
                assert(prefix[i] == inputs[i]);
            }
        }
        lemma_debounce_run(prefix);
        let (pd, pouts) = debounce_run(None, prefix);
        let (d, outs) = debounce_run(None, inputs);
        assert(outs == pouts.push(debounce_step(pd, inputs[n]).1));
        assert(d == debounce_step(pd, inputs[n]).0);
        assert(outs.drop_last() =~= pouts);
        assert(count_fired(outs) == count_fired(pouts) + if outs[n] is Fired { 1nat } else { 0nat });
        assert(count_triggers(inputs) == count_triggers(prefix) + if inputs[n] is Triggered { 1nat } else { 0nat });
        assert(forall|k: int| 0 <= k < n ==> outs[k] == pouts[k] && inputs[k] == prefix[k]);
        // Facts about earlier indices carry over from the prefix.
        assert forall|i: int, j: int, x: u64| armed_by(prefix, pouts, i, j, x) && j <= n implies
            armed_by(inputs, outs, i, j, x) by {
            assert forall|k: int| i < k < j implies !(#[trigger] inputs[k] is Triggered) && !(outs[k] is Fired) by {
                assert(prefix[k] is Triggered == inputs[k] is Triggered);
            }
        }
        assert forall|j: int| 0 <= j < n && (#[trigger] outs[j]) is Fired implies {
            &&& inputs[j] is Elapsed
            &&& exists|i: int| #[trigger] armed_by(inputs, outs, i, j, (inputs[i]->Triggered_0 + DEBOUNCE_MS) as u64)
                && inputs[j]->Elapsed_0 >= inputs[i]->Triggered_0 + DEBOUNCE_MS
        } by {
            assert(pouts[j] is Fired);
            let i = choose|i: int| #[trigger] armed_by(prefix, pouts, i, j, (prefix[i]->Triggered_0 + DEBOUNCE_MS) as u64)
                && prefix[j]->Elapsed_0 >= prefix[i]->Triggered_0 + DEBOUNCE_MS;
            assert(armed_by(inputs, outs, i, j, (inputs[i]->Triggered_0 + DEBOUNCE_MS) as u64));
        }
        match inputs[n] {
            DebounceInput::Triggered(t) => {
                // The new timer is due one second after this very trigger.
                assert(inputs[n] is Triggered);
                let x = (t + DEBOUNCE_MS) as u64;
                assert(armed_by(inputs, outs, n, inputs.len() as int, x));
                assert(pending_from_last_trigger(inputs, outs, x));
            },
            DebounceInput::SensorError => {
                if let Some(x) = pd {
                    assert(pending_from_last_trigger(prefix, pouts, x));
                    let i = choose|i: int| armed_by(prefix, pouts, i, prefix.len() as int, x);
                    // An error neither triggers nor fires: the timer stays armed by the same trigger.
                    assert(armed_by(inputs, outs, i, n, x));
                    assert(armed_by(inputs, outs, i, inputs.len() as int, x));
                    assert(pending_from_last_trigger(inputs, outs, x));
                }
            },
            DebounceInput::Elapsed(now) => {
                if let Some(x) = pd {
                    assert(pending_from_last_trigger(prefix, pouts, x));
                    let i = choose|i: int| armed_by(prefix, pouts, i, prefix.len() as int, x);
                    assert(armed_by(inputs, outs, i, n, x));
                    if now >= x {
                        // The firing is justified by the trigger that armed the timer.
                        assert(outs[n] is Fired);
                        assert(armed_by(inputs, outs, i, n, (inputs[i]->Triggered_0 + DEBOUNCE_MS) as u64));
                    } else {
                        assert(armed_by(inputs, outs, i, inputs.len() as int, x));
                        assert(pending_from_last_trigger(inputs, outs, x));
                    }
                }
            },
        }
    }
}

/// A trigger always (re)starts the timer one second after it, whatever was
/// pending before, and announces exactly that deadline; an elapsed timer
/// fires exactly when a timer is pending and due, and then clears it; a
/// sensor error leaves the timer as it was.
pub proof fn lemma_trigger_restarts_timer(deadline: Option<u64>, t: u64, now: u64)
    requires
        t + DEBOUNCE_MS <= u64::MAX,
    ensures
        debounce_step(deadline, DebounceInput::Triggered(t)).0 == Some((t + DEBOUNCE_MS) as u64),
        debounce_step(deadline, DebounceInput::Triggered(t)).1 matches DebounceOutcome::Armed(a)
            && a == t + DEBOUNCE_MS,
        debounce_step(deadline, DebounceInput::SensorError).0 == deadline,
        debounce_step(deadline, DebounceInput::Elapsed(now)).1 is Fired
            <==> (deadline matches Some(d) && now >= d),
        debounce_step(deadline, DebounceInput::Elapsed(now)).1 is Fired
            ==> debounce_step(deadline, DebounceInput::Elapsed(now)).0 is None,
{
}

/// From any state, a trigger at `t` followed by the timer elapsing at or
/// after `t + DEBOUNCE_MS` runs the trigger action: the last trigger of a
/// burst always fires, however many came before it.
pub proof fn lemma_last_trigger_fires(deadline: Option<u64>, t: u64, now: u64)
    requires
        t + DEBOUNCE_MS <= u64::MAX,
        now >= t + DEBOUNCE_MS,
    ensures
        debounce_step(debounce_step(deadline, DebounceInput::Triggered(t)).0, DebounceInput::Elapsed(now)).1 is Fired,
        debounce_step(debounce_step(deadline, DebounceInput::Triggered(t)).0, DebounceInput::Elapsed(now)).0 is None,
{
}

/// The sensor-event consumer: its timer's deadline, if one is pending.
pub struct TriggerDebouncer {
    deadline: Option<u64>,
}

impl View for TriggerDebouncer {
    type V = Option<u64>;

    closed spec fn view(&self) -> Option<u64> {
        self.deadline
    }
}

impl TriggerDebouncer {
    /// A consumer with no timer pending.
    pub fn new() -> (c: Self)
        ensures
            c@ is None,
    {
        TriggerDebouncer { deadline: None }
    }

    /// When the pending timer elapses, if one is pending.
    pub fn deadline(&self) -> (d: Option<u64>)
        ensures
            d == self@,
    {
        self.deadline
    }

    /// Handles one event at time `now_ms`. A trigger (re)starts the timer to
    /// elapse `DEBOUNCE_MS` later and asks to log "Trigger sensor consumer
    /// received"; a sensor error asks to log "Trigger sensor error" followed
    /// by its message; an elapsed timer runs the trigger action once, when a
    /// timer is pending and due, and clears it.
    pub fn handle(&mut self, event: ConsumerEvent, now_ms: u64) -> (action: ConsumerAction)
        requires
            event == ConsumerEvent::Edge(EdgeDetection::Triggered) ==> now_ms + DEBOUNCE_MS <= u64::MAX,
        ensures
            (final(self)@, outcome_of(action)) == debounce_step(old(self)@, input_of(event, now_ms)),
            event == ConsumerEvent::Edge(EdgeDetection::Triggered) ==> {
                &&& final(self)@ == Some((now_ms + DEBOUNCE_MS) as u64)
                &&& action matches ConsumerAction::Armed { deadline_ms, .. } && deadline_ms == now_ms + DEBOUNCE_MS
            },
            event matches ConsumerEvent::Edge(EdgeDetection::Error(_)) ==> final(self)@ == old(self)@,
            event == ConsumerEvent::TimerElapsed ==> {
                &&& (action == ConsumerAction::RunTrigger <==> (old(self)@ matches Some(d) && now_ms >= d))
                &&& action == ConsumerAction::RunTrigger ==> final(self)@ is None
                &&& action != ConsumerAction::RunTrigger ==> (action == ConsumerAction::Idle && final(self)@ == old(self)@)
            },
            action matches ConsumerAction::Armed { log, .. } ==> log@ == "Trigger sensor consumer received"@,
            event matches ConsumerEvent::Edge(EdgeDetection::Error(msg)) ==> (action matches ConsumerAction::LogError(line)
                && line@ == "Trigger sensor error"@ + seq![' '] + msg@),
    {
        match event {
            ConsumerEvent::Edge(EdgeDetection::Triggered) => {
                let deadline_ms = now_ms + DEBOUNCE_MS;
                self.deadline = Some(deadline_ms);
                ConsumerAction::Armed { deadline_ms, log: logger::info("Trigger sensor consumer received") }
            },
            ConsumerEvent::Edge(EdgeDetection::Error(msg)) => {
                ConsumerAction::LogError(logger::error("Trigger sensor error", Some(msg.as_str())))
            },
            ConsumerEvent::TimerElapsed => {
                match self.deadline {
                    Some(d) => {
                        if now_ms >= d {
                            self.deadline = None;
                            ConsumerAction::RunTrigger
                        } else {
                            ConsumerAction::Idle
                        }
                    },
                    None => ConsumerAction::Idle,
                }
            },
        }
    }
}

} // verus!
