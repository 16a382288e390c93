//! Probes as plans: what to do with the machine, in which order, and which answer is the right one.
//!
//! A plan is a list of steps. Each step asks for one action, and the answer to it either passes
//! the step or ends the probe with the status that the step gives to that answer. A probe that
//! passes every step ends with status zero.
use vstd::prelude::*;

use crate::cancellation::{program_entry, ProofCancellationToken};
use crate::report::ReportLine;
use crate::script::{Script, SpinPolicy};
use crate::surfaces::is_accepted_permission_classification;

verus! {

/// A counter that the host functions keep.
#[derive(Clone, Copy, Debug, PartialEq, Eq, Structural)]
pub enum Counter {
    SyncCalls,
    SyncPayload,
    SyncReturned,
    AsyncCalls,
    AsyncPayload,
    TaskRuns,
    TaskReturned,
}

/// A promise that the embedder holds for the probe.
#[derive(Clone, Copy, Debug, PartialEq, Eq, Structural)]
pub enum PromiseSlot {
    /// The promise that the asynchronous host function made last.
    Host,
    /// The promise that the last evaluation returned.
    Invocation,
}

/// Something the embedder does that has no answer.
#[derive(Clone, Copy, Debug, PartialEq, Eq, Structural)]
pub enum Effect {
    /// Sets the counters of the synchronous host function to zero.
    ResetSyncCounters,
    /// Sets the counters of the asynchronous host function to zero and forgets its promise.
    ResetAsyncCounters,
    EnsureWaker,
    /// Takes the API lock for the steps up to the matching `Unlock`.
    Lock,
    /// Takes the API lock by its C entry point for the steps up to the matching `Unlock`.
    ProbeLock,
    Unlock,
    InstallSyncHostCall,
    InstallAsyncHostCall,
    InstallHostBridgeCall,
    /// Makes the machine build its termination exception on its own thread.
    MaterializeTermination,
    /// Denies module resolution on this thread until the denial is released.
    DenyResolution,
    ShrinkFootprint,
    /// Keeps the parsed request alive until it is let go.
    ProtectRequest,
    /// Lets the parsed request go.
    LetRequestGo,
}

/// Something that a probe holds until it gives it back.
#[derive(Clone, Copy, Debug, PartialEq, Eq, Structural)]
pub enum Resource {
    /// The API lock.
    Lock,
    /// The denial of module resolution on this thread.
    Denial,
    /// The parsed request of the invocation, which garbage collection would take.
    Request,
}

/// Which value of a program passes.
#[derive(Clone, Copy, Debug, PartialEq, Eq, Structural)]
pub enum Want {
    Anything,
    Number { expected: i32, mismatch: i32 },
    /// A promise, which the embedder keeps in the invocation slot.
    Promise { missing: i32 },
    /// The number of a classification that the inventory accepts; it is read.
    Classification { mismatch: i32 },
}

/// One step of a plan. The numbers are the statuses with which the step can end the probe.
#[derive(Clone, Copy, Debug, PartialEq, Eq)]
pub enum Step {
    Perform(Effect),
    /// Evaluates a program, which must not throw and must return what is wanted.
    Evaluate { script: Script, exception: i32, want: Want },
    /// Evaluates a program that must throw.
    EvaluateRejected { script: Script, accepted: i32 },
    /// Offers a program that the token must keep out.
    Gated {
        token: ProofCancellationToken,
        script: Script,
        exception: i32,
        cancelled_status: i32,
        ran: i32,
    },
    /// Evaluates a program that returns a number, which is read.
    ReadNumber { script: Script, exception: i32, mismatch: i32 },
    /// Evaluates a program that returns a number, which is read, or a promise of one.
    ReadSettled { script: Script, exception: i32, mismatch: i32 },
    /// Waits for the promise of the step before, if it was one, and reads its number.
    Settle { rejected: i32, mismatch: i32 },
    CounterIs { counter: Counter, expected: i32, mismatch: i32 },
    /// The asynchronous host function has made a promise.
    HostPromise { missing: i32 },
    Await { slot: PromiseSlot, failed: i32 },
    Fulfilled { slot: PromiseSlot, unfulfilled: i32 },
    /// The promise has resolved to a number.
    Resolved { slot: PromiseSlot, expected: i32, mismatch: i32 },
    ApplyDenyProfile { failed: i32 },
    /// Collects garbage and samples the heap size after it.
    CollectGarbage,
    /// Samples the heap size.
    MeasureHeap,
    /// Sample `after` is larger than sample `before`.
    HeapGrew { before: usize, after: usize, flat: i32 },
    /// Number `index` that was read has this value.
    ReadingIs { index: usize, expected: i32, mismatch: i32 },
    Report(ReportLine),
    /// Runs the spinning program and interrupts it.
    Spin(SpinPolicy),
    /// Parses the request of the invocation into an object.
    ParseRequest { malformed: i32 },
    /// Finds the entry point of the bundle.
    LookupInvoke { missing: i32 },
    /// Calls the entry point with the request.
    CallInvoke { failed: i32 },
    /// Waits for the promise that the entry point returned, if it returned one.
    SettleCall { failed: i32 },
    /// Turns the result into JSON text.
    Stringify { failed: i32, dead: i32 },
}

/// What the embedder is to do next.
#[derive(Clone, Copy, Debug, PartialEq, Eq)]
pub enum Action {
    /// Nothing: the step looks only at what was read before.
    Nothing,
    Perform(Effect),
    Evaluate(Script),
    ReadCounter(Counter),
    TakeHostPromise,
    Await(PromiseSlot),
    CheckFulfilled(PromiseSlot),
    ReadResult(PromiseSlot),
    /// Waits for the promise that the last evaluation returned and takes its result.
    Settle,
    ApplyDenyProfile,
    CollectGarbage,
    MeasureHeap,
    Print(ReportLine),
    Spin(SpinPolicy),
    ParseRequest,
    LookupInvoke,
    CallInvoke,
    Stringify,
    /// Gives back what the probe took last; the probe has ended.
    Release(Resource),
    /// The probe has ended with this status and holds nothing.
    Finish(i32),
}

/// What the embedder saw.
#[derive(Clone, Copy, Debug, PartialEq, Eq, Structural)]
pub enum Observation {
    Done,
    Failed,
    /// The program threw, or left an exception pending.
    Threw,
    Number(i32),
    Promise,
    /// A value that is neither a number nor a promise, or no value.
    Other,
    /// Waiting for the promise failed.
    WaitFailed,
    /// The promise is pending or was rejected.
    Unfulfilled,
    Bytes(u64),
    Request { empty: bool, object: bool, exception: bool },
    Callable,
    /// The JSON text does not exist.
    Dead,
    /// A nested run ended with this status.
    Status(i32),
}

/// What a probe has read so far.
#[verifier::ext_equal]
pub struct Memory {
    pub readings: Seq<i32>,
    pub heap: Seq<u64>,
    /// The last value was a promise that nothing has waited for.
    pub awaiting: bool,
}

/// The answer passes the step.
pub open spec fn accepts(step: Step, memory: Memory, seen: Observation) -> bool {
    match step {
        Step::Perform(_) | Step::Report(_) | Step::CollectGarbage | Step::MeasureHeap => true,
        Step::Evaluate { want, .. } => match want {
            Want::Anything => seen != Observation::Threw,
            Want::Number { expected, .. } => seen == Observation::Number(expected),
            Want::Promise { .. } => seen == Observation::Promise,
            Want::Classification { .. } => seen matches Observation::Number(class)
                && crate::surfaces::is_safe_classification(class as int),
        },
        Step::EvaluateRejected { .. } => seen == Observation::Threw,
        Step::Gated { token, .. } => token.cancelled,
        Step::ReadNumber { .. } => seen is Number,
        Step::ReadSettled { .. } => seen is Number || seen is Promise,
        Step::Settle { .. } => memory.awaiting ==> seen is Number,
        Step::CounterIs { expected, .. } => seen == Observation::Number(expected),
        Step::HostPromise { .. } => seen == Observation::Promise,
        Step::Await { .. } => seen == Observation::Done,
        Step::Fulfilled { .. } => seen == Observation::Done,
        Step::Resolved { expected, .. } => seen == Observation::Number(expected),
        Step::ApplyDenyProfile { .. } => seen == Observation::Done,
        Step::HeapGrew { before, after, .. } => {
            &&& before < memory.heap.len()
            &&& after < memory.heap.len()
            &&& memory.heap[before as int] < memory.heap[after as int]
        },
        Step::ReadingIs { index, expected, .. } => {
            &&& index < memory.readings.len()
            &&& memory.readings[index as int] == expected
        },
        Step::Spin(_) => seen == Observation::Done,
        Step::ParseRequest { .. } => seen == (Observation::Request {
            empty: false,
            object: true,
            exception: false,
        }),
        Step::LookupInvoke { .. } => seen == Observation::Callable,
        Step::CallInvoke { .. } => seen != Observation::Threw,
        Step::SettleCall { .. } => memory.awaiting ==> seen != Observation::WaitFailed && seen
            != Observation::Unfulfilled,
        Step::Stringify { .. } => seen == Observation::Done,
    }
}

/// The status with which the step ends the probe on an answer that does not pass.
pub open spec fn failure_status(step: Step, seen: Observation) -> i32 {
    match step {
        Step::Perform(_) | Step::Report(_) | Step::CollectGarbage | Step::MeasureHeap => 0,
        Step::Evaluate { exception, want, .. } => if seen == Observation::Threw {
            exception
        } else {
            match want {
                Want::Anything => 0,
                Want::Number { mismatch, .. } => mismatch,
                Want::Promise { missing } => missing,
                Want::Classification { mismatch } => mismatch,
            }
        },
        Step::EvaluateRejected { accepted, .. } => accepted,
        Step::Gated { exception, ran, .. } => if seen == Observation::Threw {
            exception
        } else {
            ran
        },
        Step::ReadNumber { exception, mismatch, .. } => if seen == Observation::Threw {
            exception
        } else {
            mismatch
        },
        Step::ReadSettled { exception, mismatch, .. } => if seen == Observation::Threw {
            exception
        } else {
            mismatch
        },
        Step::Settle { rejected, mismatch } => if seen == Observation::WaitFailed || seen
            == Observation::Unfulfilled {
            rejected
        } else {
            mismatch
        },
        Step::CounterIs { mismatch, .. } => mismatch,
        Step::HostPromise { missing } => missing,
        Step::Await { failed, .. } => failed,
        Step::Fulfilled { unfulfilled, .. } => unfulfilled,
        Step::Resolved { mismatch, .. } => mismatch,
        Step::ApplyDenyProfile { failed } => failed,
        Step::HeapGrew { flat, .. } => flat,
        Step::ReadingIs { mismatch, .. } => mismatch,
        Step::Spin(_) => seen->Status_0,
        Step::ParseRequest { malformed } => malformed,
        Step::LookupInvoke { missing } => missing,
        Step::CallInvoke { failed } => failed,
        Step::SettleCall { failed } => failed,
        Step::Stringify { failed, dead } => if seen == Observation::Threw {
            failed
        } else {
            dead
        },
    }
}

/// What the probe has read once the answer has passed the step.
pub open spec fn remembers(step: Step, memory: Memory, seen: Observation) -> Memory {
    match (step, seen) {
        (
            Step::Evaluate { want: Want::Classification { .. }, .. },
            Observation::Number(number),
        ) => Memory { readings: memory.readings.push(number), ..memory },
        (Step::ReadNumber { .. }, Observation::Number(number)) => Memory {
            readings: memory.readings.push(number),
            ..memory
        },
        (Step::ReadSettled { .. }, Observation::Number(number)) => Memory {
            readings: memory.readings.push(number),
            ..memory
        },
        (Step::ReadSettled { .. }, Observation::Promise) => Memory { awaiting: true, ..memory },
        (Step::Settle { .. }, Observation::Number(number)) if memory.awaiting => Memory {
            readings: memory.readings.push(number),
            awaiting: false,
            ..memory
        },
        (Step::CollectGarbage, Observation::Bytes(bytes)) => Memory {
            heap: memory.heap.push(bytes),
            ..memory
        },
        (Step::MeasureHeap, Observation::Bytes(bytes)) => Memory {
            heap: memory.heap.push(bytes),
            ..memory
        },
        (Step::CallInvoke { .. }, Observation::Promise) => Memory { awaiting: true, ..memory },
        (Step::SettleCall { .. }, _) => Memory { awaiting: false, ..memory },
        _ => memory,
    }
}

/// What the probe holds once the answer has passed the step.
pub open spec fn holds(step: Step, held: Seq<Resource>) -> Seq<Resource> {
    match step {
        Step::Perform(Effect::Lock) | Step::Perform(Effect::ProbeLock) => held.push(Resource::Lock),
        Step::Perform(Effect::DenyResolution) => held.push(Resource::Denial),
        Step::Perform(Effect::ProtectRequest) => held.push(Resource::Request),
        Step::Perform(Effect::Unlock) | Step::Perform(Effect::LetRequestGo) => if held.len() > 0 {
            held.drop_last()
        } else {
            held
        },
        _ => held,
    }
}

/// What the step asks for.
pub open spec fn action_of(step: Step, memory: Memory) -> Action {
    match step {
        Step::Perform(effect) => Action::Perform(effect),
        Step::Evaluate { script, .. } => Action::Evaluate(script),
        Step::EvaluateRejected { script, .. } => Action::Evaluate(script),
        Step::Gated { token, script, .. } => if token.cancelled {
            Action::Nothing
        } else {
            Action::Evaluate(script)
        },
        Step::ReadNumber { script, .. } => Action::Evaluate(script),
        Step::ReadSettled { script, .. } => Action::Evaluate(script),
        Step::Settle { .. } => if memory.awaiting {
            Action::Settle
        } else {
            Action::Nothing
        },
        Step::CounterIs { counter, .. } => Action::ReadCounter(counter),
        Step::HostPromise { .. } => Action::TakeHostPromise,
        Step::Await { slot, .. } => Action::Await(slot),
        Step::Fulfilled { slot, .. } => Action::CheckFulfilled(slot),
        Step::Resolved { slot, .. } => Action::ReadResult(slot),
        Step::ApplyDenyProfile { .. } => Action::ApplyDenyProfile,
        Step::CollectGarbage => Action::CollectGarbage,
        Step::MeasureHeap => Action::MeasureHeap,
        Step::HeapGrew { .. } => Action::Nothing,
        Step::ReadingIs { .. } => Action::Nothing,
        Step::Report(line) => Action::Print(line),
        Step::Spin(policy) => Action::Spin(policy),
        Step::ParseRequest { .. } => Action::ParseRequest,
        Step::LookupInvoke { .. } => Action::LookupInvoke,
        Step::CallInvoke { .. } => Action::CallInvoke,
        Step::SettleCall { .. } => if memory.awaiting {
            Action::Settle
        } else {
            Action::Nothing
        },
        Step::Stringify { .. } => Action::Stringify,
    }
}

/// The answer is one that the action can have: an effect is done, a program throws or returns a
/// number, a promise or something else, a heap sample is a number of bytes, a nested run that
/// failed has a status of its own. A finished probe takes anything.
pub open spec fn answers(action: Action, seen: Observation) -> bool {
    match action {
        Action::Nothing | Action::Perform(_) | Action::Print(_) | Action::Release(_) => seen
            == Observation::Done,
        Action::Evaluate(_) => seen == Observation::Threw || seen is Number || seen
            == Observation::Promise || seen == Observation::Other,
        Action::ReadCounter(_) => seen is Number,
        Action::TakeHostPromise => seen == Observation::Promise || seen == Observation::Other,
        Action::Await(_) => seen == Observation::Done || seen == Observation::WaitFailed,
        Action::CheckFulfilled(_) => seen == Observation::Done || seen == Observation::Unfulfilled,
        Action::ReadResult(_) => seen is Number || seen == Observation::Other,
        Action::Settle => seen == Observation::WaitFailed || seen == Observation::Unfulfilled
            || seen is Number || seen == Observation::Other,
        Action::ApplyDenyProfile => seen == Observation::Done || seen == Observation::Failed,
        Action::CollectGarbage | Action::MeasureHeap => seen is Bytes,
        Action::Spin(_) => seen == Observation::Done || (seen matches Observation::Status(status)
            && status != 0),
        Action::ParseRequest => seen is Request || seen == Observation::Failed,
        Action::LookupInvoke => seen == Observation::Callable || seen == Observation::Other,
        Action::CallInvoke => seen == Observation::Threw || seen == Observation::Promise || seen
            == Observation::Other,
        Action::Stringify => seen == Observation::Done || seen == Observation::Threw || seen
            == Observation::Dead,
        Action::Finish(_) => true,
    }
}

/// What an evaluation shows: an exception that it handed out or left pending counts before its
/// value, and a promise before a number.
pub fn evaluated(thrown: bool, pending: bool, promise: bool, number: Option<i32>) -> (seen:
    Observation)
    ensures
        seen == evaluation_shows(thrown, pending, promise, number),
{
    if thrown || pending {
        Observation::Threw
    } else if promise {
        Observation::Promise
    } else {
        value(number)
    }
}

/// What a promise shows that was waited for: a wait that failed counts before a promise that is
/// not fulfilled, and that before its result.
pub fn settled(waited: bool, fulfilled: bool, number: Option<i32>) -> (seen: Observation)
    ensures
        seen == settlement_shows(waited, fulfilled, number),
{
    if !waited {
        Observation::WaitFailed
    } else if !fulfilled {
        Observation::Unfulfilled
    } else {
        value(number)
    }
}

/// What an evaluation shows.
pub open spec fn evaluation_shows(
    thrown: bool,
    pending: bool,
    promise: bool,
    number: Option<i32>,
) -> Observation {
    if thrown || pending {
        Observation::Threw
    } else if promise {
        Observation::Promise
    } else {
        shown(number)
    }
}

/// What a promise shows that was waited for.
pub open spec fn settlement_shows(
    waited: bool,
    fulfilled: bool,
    number: Option<i32>,
) -> Observation {
    if !waited {
        Observation::WaitFailed
    } else if !fulfilled {
        Observation::Unfulfilled
    } else {
        shown(number)
    }
}

/// What a value shows that is a number or is none.
pub open spec fn shown(number: Option<i32>) -> Observation {
    match number {
        Some(number) => Observation::Number(number),
        None => Observation::Other,
    }
}

/// What a value shows that is a number or is none.
pub fn value(number: Option<i32>) -> (seen: Observation)
    ensures
        seen == shown(number),
{
    match number {
        Some(number) => Observation::Number(number),
        None => Observation::Other,
    }
}

/// The step can be taken, and every status that it can end the probe with shows a failure.
pub open spec fn step_wf(step: Step) -> bool {
    match step {
        Step::Perform(_) | Step::Report(_) | Step::CollectGarbage | Step::MeasureHeap | Step::Spin(
            _,
        ) => true,
        Step::Evaluate { script, exception, want } => {
            &&& script.wf()
            &&& exception != 0
            &&& match want {
                Want::Anything => true,
                Want::Number { mismatch, .. } => mismatch != 0,
                Want::Promise { missing } => missing != 0,
                Want::Classification { mismatch } => mismatch != 0,
            }
        },
        Step::EvaluateRejected { script, accepted } => script.wf() && accepted != 0,
        Step::Gated { script, exception, ran, .. } => script.wf() && exception != 0 && ran != 0,
        Step::ReadNumber { script, exception, mismatch } => script.wf() && exception != 0
            && mismatch != 0,
        Step::ReadSettled { script, exception, mismatch } => script.wf() && exception != 0
            && mismatch != 0,
        Step::Settle { rejected, mismatch } => rejected != 0 && mismatch != 0,
        Step::CounterIs { mismatch, .. } => mismatch != 0,
        Step::HostPromise { missing } => missing != 0,
        Step::Await { failed, .. } => failed != 0,
        Step::Fulfilled { unfulfilled, .. } => unfulfilled != 0,
        Step::Resolved { mismatch, .. } => mismatch != 0,
        Step::ApplyDenyProfile { failed } => failed != 0,
        Step::HeapGrew { flat, .. } => flat != 0,
        Step::ReadingIs { mismatch, .. } => mismatch != 0,
        Step::ParseRequest { malformed } => malformed != 0,
        Step::LookupInvoke { missing } => missing != 0,
        Step::CallInvoke { failed } => failed != 0,
        Step::SettleCall { failed } => failed != 0,
        Step::Stringify { failed, dead } => failed != 0 && dead != 0,
    }
}

/// Every step of the plan is well-formed.
pub open spec fn plan_wf(plan: Seq<Step>) -> bool {
    forall|k: int| 0 <= k < plan.len() ==> step_wf(#[trigger] plan[k])
}

/// A probe under way: its plan, how many steps have passed, what it read, the status that ended it
/// early, and what it holds, the last taken last.
#[verifier::ext_equal]
pub struct RunState {
    pub plan: Seq<Step>,
    pub at: nat,
    pub memory: Memory,
    pub failed: Option<i32>,
    pub held: Seq<Resource>,
}

impl RunState {
    /// The plan before its first step.
    pub open spec fn start(plan: Seq<Step>) -> RunState {
        RunState {
            plan,
            at: 0,
            memory: Memory { readings: Seq::empty(), heap: Seq::empty(), awaiting: false },
            failed: None,
            held: Seq::empty(),
        }
    }

    pub open spec fn wf(self) -> bool {
        self.at <= self.plan.len() && plan_wf(self.plan)
    }

    /// The status, once the probe has ended.
    pub open spec fn status(self) -> Option<i32> {
        if self.failed is Some {
            self.failed
        } else if self.at >= self.plan.len() {
            Some(0i32)
        } else {
            None
        }
    }

    /// What to do next.
    pub open spec fn action(self) -> Action {
        match self.status() {
            Some(status) => if self.held.len() > 0 {
                Action::Release(self.held.last())
            } else {
                Action::Finish(status)
            },
            None => action_of(self.plan[self.at as int], self.memory),
        }
    }

    /// The run after one more answer. A run that has ended only gives back what it holds.
    pub open spec fn advance(self, seen: Observation) -> RunState {
        if self.status() is Some {
            if self.held.len() > 0 {
                RunState { held: self.held.drop_last(), ..self }
            } else {
                self
            }
        } else {
            let step = self.plan[self.at as int];
            if accepts(step, self.memory, seen) {
                RunState {
                    at: self.at + 1,
                    memory: remembers(step, self.memory, seen),
                    held: holds(step, self.held),
                    ..self
                }
            } else {
                RunState { failed: Some(failure_status(step, seen)), ..self }
            }
        }
    }
}

/// What changes while a probe is under way.
struct Progress {
    at: usize,
    readings: Vec<i32>,
    heap: Vec<u64>,
    awaiting: bool,
    failed: Option<i32>,
    held: Vec<Resource>,
}

/// A probe under way.
pub struct ProbeRun {
    plan: Vec<Step>,
    progress: Progress,
}

impl View for ProbeRun {
    type V = RunState;

    closed spec fn view(&self) -> RunState {
        self.progress.state(self.plan@)
    }
}

impl ProbeRun {
    #[verifier::type_invariant]
    spec fn inv(self) -> bool {
        self@.wf()
    }

    /// Starts a plan.
    pub fn new(plan: Vec<Step>) -> (run: Self)
        requires
            plan_wf(plan@),
        ensures
            run@ == RunState::start(plan@),
    {
        ProbeRun { plan, progress: Progress::new() }
    }

    /// The status, once the probe has ended.
    pub fn status(&self) -> (status: Option<i32>)
        ensures
            status == self@.status(),
    {
        if self.progress.failed.is_some() {
            self.progress.failed
        } else if self.progress.at >= self.plan.len() {
            Some(0)
        } else {
            None
        }
    }

    /// What to do next. A program that is to be evaluated exists.
    pub fn action(&self) -> (action: Action)
        ensures
            action == self@.action(),
            action matches Action::Evaluate(script) ==> script.wf(),
    {
        proof {
            use_type_invariant(self);
        }
        if let Some(status) = self.status() {
            let held = self.progress.held.len();
            return if held > 0 {
                Action::Release(self.progress.held[held - 1])
            } else {
                Action::Finish(status)
            };
        }
        let awaiting = self.progress.awaiting;
        assert(step_wf(self@.plan[self@.at as int]));
        match self.plan[self.progress.at] {
            Step::Perform(effect) => Action::Perform(effect),
            Step::Evaluate { script, .. } => Action::Evaluate(script),
            Step::EvaluateRejected { script, .. } => Action::Evaluate(script),
            Step::Gated { token, script, cancelled_status, .. } => {
                match program_entry(&token, cancelled_status) {
                    Err(_) => Action::Nothing,
                    Ok(()) => Action::Evaluate(script),
                }
            },
            Step::ReadNumber { script, .. } => Action::Evaluate(script),
            Step::ReadSettled { script, .. } => Action::Evaluate(script),
            Step::Settle { .. } => if awaiting {
                Action::Settle
            } else {
                Action::Nothing
            },
            Step::CounterIs { counter, .. } => Action::ReadCounter(counter),
            Step::HostPromise { .. } => Action::TakeHostPromise,
            Step::Await { slot, .. } => Action::Await(slot),
            Step::Fulfilled { slot, .. } => Action::CheckFulfilled(slot),
            Step::Resolved { slot, .. } => Action::ReadResult(slot),
            Step::ApplyDenyProfile { .. } => Action::ApplyDenyProfile,
            Step::CollectGarbage => Action::CollectGarbage,
            Step::MeasureHeap => Action::MeasureHeap,
            Step::HeapGrew { .. } => Action::Nothing,
            Step::ReadingIs { .. } => Action::Nothing,
            Step::Report(line) => Action::Print(line),
            Step::Spin(policy) => Action::Spin(policy),
            Step::ParseRequest { .. } => Action::ParseRequest,
            Step::LookupInvoke { .. } => Action::LookupInvoke,
            Step::CallInvoke { .. } => Action::CallInvoke,
            Step::SettleCall { .. } => if awaiting {
                Action::Settle
            } else {
                Action::Nothing
            },
            Step::Stringify { .. } => Action::Stringify,
        }
    }

    /// The text of a line that the probe reports, if everything that it shows has been read.
    pub fn line(&self, line: ReportLine) -> (text: Option<String>)
        ensures
            text is Some <==> line.shows_known_values(
                self@.memory.readings.len(),
                self@.memory.heap.len(),
            ),
            text matches Some(text) ==> text@ == line.text(
                self@.memory.readings,
                self@.memory.heap,
            ),
    {
        line.render(&self.progress.readings, &self.progress.heap)
    }

    /// Takes the answer to the action that was due.
    pub fn observe(&mut self, seen: Observation)
        requires
            answers(old(self)@.action(), seen),
        ensures
            final(self)@ == old(self)@.advance(seen),
    {
        proof {
            use_type_invariant(&*self);
        }
        let ended = self.progress.failed.is_some() || self.progress.at >= self.plan.len();
        let mut progress = Progress::new();
        core::mem::swap(&mut progress, &mut self.progress);
        if ended {
            let released = progress.held.pop();
            assert(released is None ==> progress.held@ == old(self)@.held);
        } else {
            let step = self.plan[progress.at];
            match progress.judge(step, seen) {
                Some(status) => {
                    progress.failed = Some(status);
                },
                None => {
                    progress.at = progress.at + 1;
                    progress.hold(step);
                },
            }
        }
        assert(progress.state(self.plan@) == old(self)@.advance(seen));
        self.progress = progress;
    }
}

impl Progress {
    /// The run that has come this far with a plan.
    spec fn state(self, plan: Seq<Step>) -> RunState {
        RunState {
            plan,
            at: self.at as nat,
            memory: self.memory(),
            failed: self.failed,
            held: self.held@,
        }
    }

    spec fn memory(self) -> Memory {
        Memory { readings: self.readings@, heap: self.heap@, awaiting: self.awaiting }
    }

    fn new() -> (progress: Self)
        ensures
            forall|plan: Seq<Step>| #[trigger] progress.state(plan) == RunState::start(plan),
    {
        Progress {
            at: 0,
            readings: Vec::new(),
            heap: Vec::new(),
            awaiting: false,
            failed: None,
            held: Vec::new(),
        }
    }

    /// Takes or gives back what the step does.
    fn hold(&mut self, step: Step)
        ensures
            *final(self) == (Progress { held: final(self).held, ..*old(self) }),
            final(self).held@ == holds(step, old(self).held@),
    {
        match step {
            Step::Perform(Effect::Lock) => self.held.push(Resource::Lock),
            Step::Perform(Effect::ProbeLock) => self.held.push(Resource::Lock),
            Step::Perform(Effect::DenyResolution) => self.held.push(Resource::Denial),
            Step::Perform(Effect::ProtectRequest) => self.held.push(Resource::Request),
            Step::Perform(Effect::Unlock) => {
                self.held.pop();
            },
            Step::Perform(Effect::LetRequestGo) => {
                self.held.pop();
            },
            _ => {},
        }
    }

    /// Holds an answer against a step: reads what it gives, or returns the status of its failure.
    fn judge(&mut self, step: Step, seen: Observation) -> (failure: Option<i32>)
        requires
            answers(action_of(step, old(self).memory()), seen),
        ensures
            accepts(step, old(self).memory(), seen) ==> failure is None && final(self).memory()
                == remembers(step, old(self).memory(), seen),
            !accepts(step, old(self).memory(), seen) ==> failure == Some(
                failure_status(step, seen),
            ) && final(self).memory() == old(self).memory(),
            final(self).at == old(self).at,
            final(self).failed == old(self).failed,
            final(self).held == old(self).held,
    {
        let ghost before = self.memory();
        let failure: Option<i32> = match step {
            Step::Perform(_) => None,
            Step::Report(_) => None,
            Step::CollectGarbage => {
                if let Observation::Bytes(bytes) = seen {
                    self.heap.push(bytes);
                }
                None
            },
            Step::MeasureHeap => {
                if let Observation::Bytes(bytes) = seen {
                    self.heap.push(bytes);
                }
                None
            },
            Step::Evaluate { exception, want, .. } => {
                if seen == Observation::Threw {
                    Some(exception)
                } else {
                    match want {
                        Want::Anything => None,
                        Want::Number { expected, mismatch } => {
                            if seen == Observation::Number(expected) {
                                None
                            } else {
                                Some(mismatch)
                            }
                        },
                        Want::Promise { missing } => {
                            if seen == Observation::Promise {
                                None
                            } else {
                                Some(missing)
                            }
                        },
                        Want::Classification { mismatch } => {
                            match seen {
                                Observation::Number(class) => {
                                    if is_accepted_permission_classification(class) {
                                        self.readings.push(class);
                                        None
                                    } else {
                                        Some(mismatch)
                                    }
                                },
                                _ => Some(mismatch),
                            }
                        },
                    }
                }
            },
            Step::EvaluateRejected { accepted, .. } => {
                if seen == Observation::Threw {
                    None
                } else {
                    Some(accepted)
                }
            },
            Step::Gated { token, exception, cancelled_status, ran, .. } => {
                match program_entry(&token, cancelled_status) {
                    Err(_) => None,
                    Ok(()) => {
                        if seen == Observation::Threw {
                            Some(exception)
                        } else {
                            Some(ran)
                        }
                    },
                }
            },
            Step::ReadNumber { exception, mismatch, .. } => {
                match seen {
                    Observation::Threw => Some(exception),
                    Observation::Number(number) => {
                        self.readings.push(number);
                        None
                    },
                    _ => Some(mismatch),
                }
            },
            Step::ReadSettled { exception, mismatch, .. } => {
                match seen {
                    Observation::Threw => Some(exception),
                    Observation::Number(number) => {
                        self.readings.push(number);
                        None
                    },
                    Observation::Promise => {
                        self.awaiting = true;
                        None
                    },
                    _ => Some(mismatch),
                }
            },
            Step::Settle { rejected, mismatch } => {
                if !self.awaiting {
                    None
                } else {
                    match seen {
                        Observation::WaitFailed => Some(rejected),
                        Observation::Unfulfilled => Some(rejected),
                        Observation::Number(number) => {
                            self.readings.push(number);
                            self.awaiting = false;
                            None
                        },
                        _ => Some(mismatch),
                    }
                }
            },
            Step::CounterIs { expected, mismatch, .. } => {
                if seen == Observation::Number(expected) {
                    None
                } else {
                    Some(mismatch)
                }
            },
            Step::HostPromise { missing } => {
                if seen == Observation::Promise {
                    None
                } else {
                    Some(missing)
                }
            },
            Step::Await { failed, .. } => {
                if seen == Observation::Done {
                    None
                } else {
                    Some(failed)
                }
            },
            Step::Fulfilled { unfulfilled, .. } => {
                if seen == Observation::Done {
                    None
                } else {
                    Some(unfulfilled)
                }
            },
            Step::Resolved { expected, mismatch, .. } => {
                if seen == Observation::Number(expected) {
                    None
                } else {
                    Some(mismatch)
                }
            },
            Step::ApplyDenyProfile { failed } => {
                if seen == Observation::Done {
                    None
                } else {
                    Some(failed)
                }
            },
            Step::HeapGrew { before, after, flat } => {
                if before < self.heap.len() && after < self.heap.len() && self.heap[before]
                    < self.heap[after] {
                    None
                } else {
                    Some(flat)
                }
            },
            Step::ReadingIs { index, expected, mismatch } => {
                if index < self.readings.len() && self.readings[index] == expected {
                    None
                } else {
                    Some(mismatch)
                }
            },
            Step::Spin(_) => {
                match seen {
                    Observation::Status(status) => Some(status),
                    _ => None,
                }
            },
            Step::ParseRequest { malformed } => {
                match seen {
                    Observation::Request { empty, object, exception } => {
                        if empty || !object || exception {
                            Some(malformed)
                        } else {
                            None
                        }
                    },
                    _ => Some(malformed),
                }
            },
            Step::LookupInvoke { missing } => {
                if seen == Observation::Callable {
                    None
                } else {
                    Some(missing)
                }
            },
            Step::CallInvoke { failed } => {
                match seen {
                    Observation::Threw => Some(failed),
                    Observation::Promise => {
                        self.awaiting = true;
                        None
                    },
                    _ => None,
                }
            },
            Step::SettleCall { failed } => {
                if self.awaiting && (seen == Observation::WaitFailed || seen
                    == Observation::Unfulfilled) {
                    Some(failed)
                } else {
                    self.awaiting = false;
                    None
                }
            },
            Step::Stringify { failed, dead } => {
                match seen {
                    Observation::Done => None,
                    Observation::Threw => Some(failed),
                    _ => Some(dead),
                }
            },
        };
        assert(accepts(step, before, seen) ==> self.memory() == remembers(step, before, seen));
        failure
    }
}

} // verus!
