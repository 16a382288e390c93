//! What threads wait for: that a spinning program was entered, and that all first machines are
//! ready to be built at once.
//!
//! The state of each signal stands behind a lock, and whoever waits sleeps until the state changes
//! or its time is up. Times are nanoseconds on one clock.
use vstd::prelude::*;

verus! {

/// How long a probe waits for a spinning program to be entered.
pub const CANCELLATION_PROOF_ACK_TIMEOUT: u64 = 30_000_000_000;

/// How long a worker waits for the others to arrive at the barrier.
pub const INIT_PROOF_GATE_TIMEOUT: u64 = 30_000_000_000;

/// When a wait that begins now and lasts `timeout` is over.
pub fn deadline_after(now: u64, timeout: u64) -> (deadline: u64)
    requires
        now + timeout <= u64::MAX,
    ensures
        deadline == now + timeout,
{
    now + timeout
}

/// How a wait for the entry of a program ended.
#[derive(Clone, Copy, Debug, PartialEq, Eq, Structural)]
pub enum SpinEntryWait {
    Entered,
    Completed,
    TimedOut,
}

/// What a waiting thread does next.
#[derive(Clone, Copy, Debug, PartialEq, Eq, Structural)]
pub enum SpinEntryStep {
    Return(SpinEntryWait),
    /// Sleeps until the signal changes, for this long at most.
    Sleep { remaining: u64 },
}

/// Whether a spinning program was entered, and whether its evaluation is over.
#[derive(Clone, Copy, Debug, PartialEq, Eq, Structural)]
pub struct SpinEntrySignal {
    pub entered: bool,
    pub completed: bool,
}

impl SpinEntrySignal {
    /// The signal before the program is evaluated.
    pub fn new() -> (signal: Self)
        ensures
            signal == (SpinEntrySignal { entered: false, completed: false }),
    {
        SpinEntrySignal { entered: false, completed: false }
    }

    /// The program was entered.
    pub fn acknowledge(&mut self)
        ensures
            *final(self) == (SpinEntrySignal { entered: true, ..*old(self) }),
    {
        self.entered = true;
    }

    /// The evaluation is over.
    pub fn complete(&mut self)
        ensures
            *final(self) == (SpinEntrySignal { completed: true, ..*old(self) }),
    {
        self.completed = true;
    }

    /// What a thread that waits until `deadline` does at `now`. `timed_out` says that its last
    /// sleep was not ended by a change.
    pub open spec fn step(self, deadline: u64, now: u64, timed_out: bool) -> SpinEntryStep {
        if self.entered {
            SpinEntryStep::Return(SpinEntryWait::Entered)
        } else if self.completed {
            SpinEntryStep::Return(SpinEntryWait::Completed)
        } else if timed_out || now >= deadline {
            SpinEntryStep::Return(SpinEntryWait::TimedOut)
        } else {
            SpinEntryStep::Sleep { remaining: (deadline - now) as u64 }
        }
    }

    /// What a thread that waits until `deadline` does at `now`. `timed_out` says that its last
    /// sleep was not ended by a change.
    pub fn wait(&self, deadline: u64, now: u64, timed_out: bool) -> (step: SpinEntryStep)
        ensures
            step == self.step(deadline, now, timed_out),
    {
        if self.entered {
            return SpinEntryStep::Return(SpinEntryWait::Entered);
        }
        if self.completed {
            return SpinEntryStep::Return(SpinEntryWait::Completed);
        }
        if timed_out {
            return SpinEntryStep::Return(SpinEntryWait::TimedOut);
        }
        let remaining = deadline.saturating_sub(now);
        if remaining == 0 {
            return SpinEntryStep::Return(SpinEntryWait::TimedOut);
        }
        SpinEntryStep::Sleep { remaining }
    }
}

/// What the entry function does to the signal that is installed, and what it returns.
pub open spec fn acknowledging(installed: Option<SpinEntrySignal>) -> (
    Option<SpinEntrySignal>,
    i32,
) {
    match installed {
        Some(signal) => (Some(changed(signal, SpinEntryChange::Acknowledge)), 1),
        None => (None, 1),
    }
}

/// The entry function that a spinning program calls: it acknowledges the signal that is installed
/// on the thread, if one is, and returns one in any case.
pub fn nimbus_bun_embed_spin_entered_ack(installed: Option<SpinEntrySignal>) -> (acknowledged: (
    Option<SpinEntrySignal>,
    i32,
))
    ensures
        acknowledged == acknowledging(installed),
{
    match installed {
        Some(signal) => {
            let mut signal = signal;
            signal.acknowledge();
            (Some(signal), 1)
        },
        None => (None, 1),
    }
}

/// Something that happens to a spin entry signal.
pub enum SpinEntryChange {
    Acknowledge,
    Complete,
}

/// The signal after a change.
pub open spec fn changed(signal: SpinEntrySignal, change: SpinEntryChange) -> SpinEntrySignal {
    match change {
        SpinEntryChange::Acknowledge => SpinEntrySignal { entered: true, ..signal },
        SpinEntryChange::Complete => SpinEntrySignal { completed: true, ..signal },
    }
}

/// The signal after several changes.
pub open spec fn after_changes(signal: SpinEntrySignal, changes: Seq<SpinEntryChange>) ->
    SpinEntrySignal
    decreases changes.len(),
{
    if changes.len() == 0 {
        signal
    } else {
        changed(after_changes(signal, changes.drop_last()), changes.last())
    }
}

/// Once the program was entered, every waiter returns that it was, whatever else happens and
/// however late it looks.
pub proof fn law_entry_is_never_missed(
    signal: SpinEntrySignal,
    changes: Seq<SpinEntryChange>,
    deadline: u64,
    now: u64,
    timed_out: bool,
)
    requires
        signal.entered,
    ensures
        after_changes(signal, changes).step(deadline, now, timed_out) == SpinEntryStep::Return(
            SpinEntryWait::Entered,
        ),
    decreases changes.len(),
{
    if changes.len() > 0 {
        law_entry_is_never_missed(signal, changes.drop_last(), deadline, now, timed_out);
    }
}

/// A waiter sleeps only while nothing has happened and its time is not up, and never past its
/// deadline.
pub proof fn law_waiter_sleeps_within_its_deadline(
    signal: SpinEntrySignal,
    deadline: u64,
    now: u64,
    timed_out: bool,
)
    ensures
        signal.step(deadline, now, timed_out) is Sleep <==> !signal.entered && !signal.completed
            && !timed_out && now < deadline,
        signal.step(deadline, now, timed_out) matches SpinEntryStep::Sleep { remaining } ==> now
            + remaining == deadline,
{
}

/// The barrier at which the first machines wait for each other.
#[derive(Clone, Copy, Debug, PartialEq, Eq, Structural)]
pub struct InitProofGate {
    pub expected: usize,
    pub arrivals: usize,
    pub released: bool,
    pub cancelled: bool,
}

/// What a worker at the barrier does next.
#[derive(Clone, Copy, Debug, PartialEq, Eq, Structural)]
pub enum GateStep {
    /// The barrier lets the worker through, or refuses it.
    Return(bool),
    /// Sleeps until the barrier changes, for this long at most.
    Sleep { remaining: u64 },
}

impl InitProofGate {
    /// A barrier is released exactly when it was cancelled or all workers have arrived.
    pub open spec fn wf(self) -> bool {
        self.released == (self.cancelled || (0 < self.expected && self.expected <= self.arrivals))
    }

    /// A barrier at which nobody has arrived.
    pub fn new(expected: usize) -> (gate: Self)
        ensures
            gate == (InitProofGate { expected, arrivals: 0, released: false, cancelled: false }),
            gate.wf(),
    {
        InitProofGate { expected, arrivals: 0, released: false, cancelled: false }
    }

    /// Refuses everyone who is at the barrier or comes to it. Whoever sleeps is to be woken.
    pub fn cancel(&mut self)
        ensures
            *final(self) == (InitProofGate { cancelled: true, released: true, ..*old(self) }),
            final(self).wf(),
    {
        self.cancelled = true;
        self.released = true;
    }

    /// The barrier after one more arrival.
    pub open spec fn after_arrival(self) -> InitProofGate {
        if self.cancelled {
            self
        } else {
            InitProofGate {
                arrivals: (self.arrivals + 1) as usize,
                released: self.released || self.arrivals + 1 == self.expected,
                ..self
            }
        }
    }

    /// A worker arrives; where the barrier is cancelled it is refused at once. Returns whether
    /// this opened the barrier, so that whoever sleeps is to be woken.
    pub fn arrive(&mut self) -> (opened: bool)
        requires
            old(self).wf(),
            old(self).cancelled || old(self).arrivals < usize::MAX,
        ensures
            *final(self) == old(self).after_arrival(),
            final(self).wf(),
            opened == (!old(self).cancelled && old(self).arrivals + 1 == old(self).expected),
            opened <==> !old(self).released && final(self).released,
    {
        if self.cancelled {
            return false;
        }
        self.arrivals = self.arrivals + 1;
        if self.arrivals == self.expected {
            self.released = true;
            true
        } else {
            false
        }
    }

    /// What a worker that waits until `deadline` does at `now`.
    pub open spec fn step(self, deadline: u64, now: u64, timed_out: bool) -> GateStep {
        if self.released {
            GateStep::Return(!self.cancelled)
        } else if timed_out || now >= deadline {
            GateStep::Return(false)
        } else {
            GateStep::Sleep { remaining: (deadline - now) as u64 }
        }
    }

    /// The barrier after that: a worker whose time is up cancels it for all.
    pub open spec fn after_step(self, deadline: u64, now: u64, timed_out: bool) -> InitProofGate {
        if !self.released && (timed_out || now >= deadline) {
            InitProofGate { cancelled: true, released: true, ..self }
        } else {
            self
        }
    }

    /// What a worker that has arrived does at `now`. `timed_out` says that its last sleep was not
    /// ended by a change. A worker whose time is up cancels the barrier, and whoever sleeps is to
    /// be woken.
    pub fn wait(&mut self, deadline: u64, now: u64, timed_out: bool) -> (step: GateStep)
        requires
            old(self).wf(),
        ensures
            step == old(self).step(deadline, now, timed_out),
            *final(self) == old(self).after_step(deadline, now, timed_out),
            final(self).wf(),
    {
        if self.released {
            return GateStep::Return(!self.cancelled);
        }
        let remaining = deadline.saturating_sub(now);
        if timed_out || remaining == 0 {
            self.cancel();
            return GateStep::Return(false);
        }
        GateStep::Sleep { remaining }
    }
}

/// Something that happens at the barrier.
pub enum GateEvent {
    Arrive,
    Cancel,
    Wait { deadline: u64, now: u64, timed_out: bool },
}

/// The barrier after an event.
pub open spec fn gate_after(gate: InitProofGate, event: GateEvent) -> InitProofGate {
    match event {
        GateEvent::Arrive => gate.after_arrival(),
        GateEvent::Cancel => InitProofGate { cancelled: true, released: true, ..gate },
        GateEvent::Wait { deadline, now, timed_out } => gate.after_step(deadline, now, timed_out),
    }
}

/// The barrier after several events.
pub open spec fn gate_after_all(gate: InitProofGate, events: Seq<GateEvent>) -> InitProofGate
    decreases events.len(),
{
    if events.len() == 0 {
        gate
    } else {
        gate_after(gate_after_all(gate, events.drop_last()), events.last())
    }
}

/// How many of the events are arrivals.
pub open spec fn arrival_count(events: Seq<GateEvent>) -> nat
    decreases events.len(),
{
    if events.len() == 0 {
        0
    } else {
        arrival_count(events.drop_last()) + if events.last() is Arrive {
            1nat
        } else {
            0
        }
    }
}

/// The barrier of `expected` workers after several events.
proof fn lemma_gate_after_all(expected: usize, events: Seq<GateEvent>)
    requires
        arrival_count(events) <= usize::MAX,
    ensures
        ({
            let gate = gate_after_all(
                InitProofGate { expected, arrivals: 0, released: false, cancelled: false },
                events,
            );
            &&& gate.wf()
            &&& gate.expected == expected
            &&& gate.arrivals <= arrival_count(events)
            &&& !gate.cancelled ==> gate.arrivals == arrival_count(events)
        }),
    decreases events.len(),
{
    if events.len() > 0 {
        lemma_gate_after_all(expected, events.drop_last());
    }
}

/// No worker is let through before all have arrived, whatever the workers do and in whatever
/// order.
pub proof fn law_nobody_passes_before_all_arrived(
    expected: usize,
    events: Seq<GateEvent>,
    deadline: u64,
    now: u64,
    timed_out: bool,
)
    requires
        arrival_count(events) <= usize::MAX,
        gate_after_all(
            InitProofGate { expected, arrivals: 0, released: false, cancelled: false },
            events,
        ).step(deadline, now, timed_out) == GateStep::Return(true),
    ensures
        0 < expected <= arrival_count(events),
        forall|i: int| 0 <= i < events.len() ==> !(#[trigger] events[i] is Cancel),
{
    lemma_gate_after_all(expected, events);
    let start = InitProofGate { expected, arrivals: 0, released: false, cancelled: false };
    assert forall|i: int| 0 <= i < events.len() implies !(#[trigger] events[i] is Cancel) by {
        if events[i] is Cancel {
            lemma_cancelled_stays(start, events, i);
        }
    }
}

proof fn lemma_cancelled_stays(gate: InitProofGate, events: Seq<GateEvent>, i: int)
    requires
        0 <= i < events.len(),
        events[i] is Cancel,
    ensures
        gate_after_all(gate, events).cancelled,
        gate_after_all(gate, events).released,
    decreases events.len(),
{
    if i < events.len() - 1 {
        lemma_cancelled_stays(gate, events.drop_last(), i);
    }
}

/// Once the barrier is cancelled, or one worker's time is up, every worker is refused from then on.
pub proof fn law_cancelled_gate_refuses_everyone(
    gate: InitProofGate,
    events: Seq<GateEvent>,
    deadline: u64,
    now: u64,
    timed_out: bool,
)
    requires
        gate.cancelled,
        gate.released,
    ensures
        gate_after_all(gate, events).step(deadline, now, timed_out) == GateStep::Return(false),
        gate_after_all(gate, events).cancelled,
        gate_after_all(gate, events).released,
    decreases events.len(),
{
    if events.len() > 0 {
        law_cancelled_gate_refuses_everyone(gate, events.drop_last(), deadline, now, timed_out);
    }
}

/// Nobody cancels, and nobody's time is up.
pub open spec fn timely(events: Seq<GateEvent>) -> bool {
    forall|i: int|
        0 <= i < events.len() ==> match #[trigger] events[i] {
            GateEvent::Arrive => true,
            GateEvent::Cancel => false,
            GateEvent::Wait { deadline, now, timed_out } => !timed_out && now < deadline,
        }
}

/// Where nobody cancels and nobody's time is up, all expected workers are let through once they
/// have arrived, in whatever order they arrive and wait, and however late each looks then.
pub proof fn law_all_timely_workers_pass(
    expected: usize,
    events: Seq<GateEvent>,
    deadline: u64,
    now: u64,
    timed_out: bool,
)
    requires
        0 < expected <= arrival_count(events) <= usize::MAX,
        timely(events),
    ensures
        gate_after_all(
            InitProofGate { expected, arrivals: 0, released: false, cancelled: false },
            events,
        ).step(deadline, now, timed_out) == GateStep::Return(true),
{
    lemma_gate_after_all(expected, events);
    lemma_timely_is_not_cancelled(expected, events);
}

proof fn lemma_timely_is_not_cancelled(expected: usize, events: Seq<GateEvent>)
    requires
        timely(events),
    ensures
        !gate_after_all(
            InitProofGate { expected, arrivals: 0, released: false, cancelled: false },
            events,
        ).cancelled,
    decreases events.len(),
{
    if events.len() > 0 {
        let before = events.drop_last();
        assert forall|i: int| 0 <= i < before.len() implies match #[trigger] before[i] {
            GateEvent::Arrive => true,
            GateEvent::Cancel => false,
            GateEvent::Wait { deadline, now, timed_out } => !timed_out && now < deadline,
        } by {
            assert(before[i] == events[i]);
        }
        lemma_timely_is_not_cancelled(expected, before);
        assert(events[events.len() - 1] == events.last());
    }
}

/// Where nobody cancels and nobody's time is up, the arrival of the last expected worker lets all
/// of them through.
pub proof fn law_last_arrival_opens_the_gate(
    gate: InitProofGate,
    deadline: u64,
    now: u64,
    timed_out: bool,
)
    requires
        gate.wf(),
        !gate.cancelled,
        gate.arrivals + 1 == gate.expected,
    ensures
        gate.after_arrival().step(deadline, now, timed_out) == GateStep::Return(true),
{
}

/// A waiter returns that the program was entered exactly where it was, that the evaluation is over
/// exactly where it is and the program was not entered, and that its time is up only where neither
/// has happened.
pub proof fn law_waiter_returns_what_happened(
    signal: SpinEntrySignal,
    deadline: u64,
    now: u64,
    timed_out: bool,
)
    ensures
        ({
            let step = signal.step(deadline, now, timed_out);
            let late = timed_out || now >= deadline;
            &&& step == SpinEntryStep::Return(SpinEntryWait::Entered) <==> signal.entered
            &&& step == SpinEntryStep::Return(SpinEntryWait::Completed) <==> !signal.entered
                && signal.completed
            &&& step == SpinEntryStep::Return(SpinEntryWait::TimedOut) <==> !signal.entered
                && !signal.completed && late
        }),
{
}

/// The entry function acknowledges what is installed and nothing else, answers one in any case, and
/// leaves alone whether the evaluation is over; a waiter then returns that the program was entered.
pub proof fn law_entry_function_acknowledges_the_installed_signal(
    signal: SpinEntrySignal,
    deadline: u64,
    now: u64,
    timed_out: bool,
)
    ensures
        acknowledging(None) == (None::<SpinEntrySignal>, 1i32),
        acknowledging(Some(signal)).1 == 1,
        acknowledging(Some(signal)).0 matches Some(after) && after.entered && after.completed
            == signal.completed && after.step(deadline, now, timed_out) == SpinEntryStep::Return(
            SpinEntryWait::Entered,
        ),
        changed(signal, SpinEntryChange::Complete).completed,
        changed(signal, SpinEntryChange::Complete).entered == signal.entered,
{
}

/// A worker whose time is up cancels the barrier for all, unless it is open already, and changes
/// nothing else; a worker that looks in time changes nothing, and sleeps at most until its
/// deadline where the barrier is closed.
pub proof fn law_late_worker_cancels_the_barrier(
    gate: InitProofGate,
    deadline: u64,
    now: u64,
    timed_out: bool,
)
    ensures
        ({
            let late = timed_out || now >= deadline;
            let step = gate.step(deadline, now, timed_out);
            let after = gate.after_step(deadline, now, timed_out);
            &&& after.expected == gate.expected && after.arrivals == gate.arrivals
            &&& gate.released || !late ==> after == gate
            &&& !gate.released && late ==> after.cancelled && after.released && step
                == GateStep::Return(false)
            &&& gate.released ==> step == GateStep::Return(!gate.cancelled)
            &&& step is Sleep <==> !gate.released && !late
            &&& step matches GateStep::Sleep { remaining } ==> now + remaining == deadline
        }),
{
}

/// An arrival is counted unless the barrier is cancelled, and opens it exactly where it is the last
/// that was expected.
pub proof fn law_arrivals_are_counted(gate: InitProofGate)
    requires
        gate.wf(),
        gate.arrivals < usize::MAX,
    ensures
        gate.cancelled ==> gate.after_arrival() == gate,
        !gate.cancelled ==> gate.after_arrival().arrivals == gate.arrivals + 1
            && !gate.after_arrival().cancelled && gate.after_arrival().expected == gate.expected,
        !gate.cancelled ==> (gate.after_arrival().released <==> 0 < gate.expected <= gate.arrivals
            + 1),
{
}

/// Both waits last thirty seconds.
pub proof fn law_waits_last_thirty_seconds()
    ensures
        CANCELLATION_PROOF_ACK_TIMEOUT == 30 * 1_000_000_000,
        INIT_PROOF_GATE_TIMEOUT == 30 * 1_000_000_000,
{
}

} // verus!
