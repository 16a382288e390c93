//! What a probe has done when it ends with status zero: every action, in its order, and the answer
//! to it.
use vstd::prelude::*;

use crate::failures;
use crate::plan_parts;
use crate::probe;
use crate::probe::{Action, Counter, Effect, Memory, Observation, PromiseSlot, RunState, Step};
use crate::probe_laws;
use crate::probes;
use crate::report::ReportLine;
use crate::script::{BundleUse, LifecycleBody, Script, SpinPolicy};

verus! {

/// Action `k` of the run was to do this.
pub open spec fn did(plan: Seq<Step>, trace: Seq<Observation>, k: int, effect: Effect) -> bool {
    failures::asked(plan, trace, k) == Action::Perform(effect)
}

/// Nothing was to be done for step `k`: it looked at what was read before, or kept a program out.
pub open spec fn did_nothing(plan: Seq<Step>, trace: Seq<Observation>, k: int) -> bool {
    failures::asked(plan, trace, k) == Action::Nothing
}

/// Action `k` printed this line.
pub open spec fn printed(
    plan: Seq<Step>,
    trace: Seq<Observation>,
    k: int,
    line: ReportLine,
) -> bool {
    failures::asked(plan, trace, k) == Action::Print(line)
}

/// Action `k` evaluated the program, which did not throw.
pub open spec fn ran(plan: Seq<Step>, trace: Seq<Observation>, k: int, script: Script) -> bool {
    failures::asked(plan, trace, k) == Action::Evaluate(script) && trace[k] != Observation::Threw
}

/// Action `k` evaluated the program, which threw.
pub open spec fn was_rejected(
    plan: Seq<Step>,
    trace: Seq<Observation>,
    k: int,
    script: Script,
) -> bool {
    failures::asked(plan, trace, k) == Action::Evaluate(script) && trace[k] == Observation::Threw
}

/// Action `k` evaluated the program, which returned the number.
pub open spec fn gave(
    plan: Seq<Step>,
    trace: Seq<Observation>,
    k: int,
    script: Script,
    number: i32,
) -> bool {
    &&& failures::asked(plan, trace, k) == Action::Evaluate(script)
    &&& trace[k] == Observation::Number(number)
}

/// Action `k` evaluated the program, which returned a promise.
pub open spec fn promised(
    plan: Seq<Step>,
    trace: Seq<Observation>,
    k: int,
    script: Script,
) -> bool {
    failures::asked(plan, trace, k) == Action::Evaluate(script) && trace[k] == Observation::Promise
}

/// What was read after action `k` is what was read before it, and the number of answer `k` too.
pub open spec fn reads_one_more(plan: Seq<Step>, trace: Seq<Observation>, k: int) -> bool {
    let before = failures::memory_at(plan, trace, k);
    let after = failures::memory_at(plan, trace, k + 1);
    &&& trace[k] matches Observation::Number(number)
    &&& after.readings == before.readings.push(number)
    &&& after.heap == before.heap
}

/// Action `k` evaluated the program, which returned a number, and the number was read.
pub open spec fn read(plan: Seq<Step>, trace: Seq<Observation>, k: int, script: Script) -> bool {
    failures::asked(plan, trace, k) == Action::Evaluate(script) && reads_one_more(plan, trace, k)
}

/// Action `k` evaluated the program, which returned a number or a promise. The number was read,
/// and nothing was waited for; the promise was waited for next, and it was its number that was
/// read.
pub open spec fn read_or_promised(
    plan: Seq<Step>,
    trace: Seq<Observation>,
    k: int,
    script: Script,
) -> bool {
    &&& failures::asked(plan, trace, k) == Action::Evaluate(script)
    &&& trace[k] is Number ==> {
        &&& reads_one_more(plan, trace, k)
        &&& failures::asked(plan, trace, k + 1) == Action::Nothing
        &&& failures::memory_at(plan, trace, k + 2).readings
            == failures::memory_at(plan, trace, k + 1).readings
    }
    &&& trace[k] !is Number ==> {
        &&& trace[k] == Observation::Promise
        &&& failures::asked(plan, trace, k + 1) == Action::Settle
        &&& failures::memory_at(plan, trace, k + 1).readings
            == failures::memory_at(plan, trace, k).readings
        &&& reads_one_more(plan, trace, k + 1)
    }
}

/// Action `k` read the counter, which stood at the number.
pub open spec fn counted(
    plan: Seq<Step>,
    trace: Seq<Observation>,
    k: int,
    counter: Counter,
    number: i32,
) -> bool {
    &&& failures::asked(plan, trace, k) == Action::ReadCounter(counter)
    &&& trace[k] == Observation::Number(number)
}

/// Action `k` took the promise that the asynchronous host function had made.
pub open spec fn host_promised(plan: Seq<Step>, trace: Seq<Observation>, k: int) -> bool {
    &&& failures::asked(plan, trace, k) == Action::TakeHostPromise
    &&& trace[k] == Observation::Promise
}

/// Action `k` waited for the promise, and the wait ended well.
pub open spec fn waited(
    plan: Seq<Step>,
    trace: Seq<Observation>,
    k: int,
    slot: PromiseSlot,
) -> bool {
    failures::asked(plan, trace, k) == Action::Await(slot) && trace[k] == Observation::Done
}

/// Action `k` found the promise fulfilled.
pub open spec fn was_fulfilled(
    plan: Seq<Step>,
    trace: Seq<Observation>,
    k: int,
    slot: PromiseSlot,
) -> bool {
    failures::asked(plan, trace, k) == Action::CheckFulfilled(slot) && trace[k] == Observation::Done
}

/// Action `k` found that the promise had resolved to the number.
pub open spec fn resolved(
    plan: Seq<Step>,
    trace: Seq<Observation>,
    k: int,
    slot: PromiseSlot,
    number: i32,
) -> bool {
    &&& failures::asked(plan, trace, k) == Action::ReadResult(slot)
    &&& trace[k] == Observation::Number(number)
}

/// The size of the heap that answer `k` tells was sampled.
pub open spec fn samples_one_more(plan: Seq<Step>, trace: Seq<Observation>, k: int) -> bool {
    let before = failures::memory_at(plan, trace, k);
    let after = failures::memory_at(plan, trace, k + 1);
    &&& trace[k] matches Observation::Bytes(bytes)
    &&& after.heap == before.heap.push(bytes)
    &&& after.readings == before.readings
}

/// Action `k` collected garbage, and the size of the heap after it was sampled.
pub open spec fn collected(plan: Seq<Step>, trace: Seq<Observation>, k: int) -> bool {
    failures::asked(plan, trace, k) == Action::CollectGarbage && samples_one_more(plan, trace, k)
}

/// Action `k` measured the heap, and its size was sampled.
pub open spec fn measured(plan: Seq<Step>, trace: Seq<Observation>, k: int) -> bool {
    failures::asked(plan, trace, k) == Action::MeasureHeap && samples_one_more(plan, trace, k)
}

/// Action `k` ran the spinning program, and stopped it well.
pub open spec fn spun(
    plan: Seq<Step>,
    trace: Seq<Observation>,
    k: int,
    policy: SpinPolicy,
) -> bool {
    failures::asked(plan, trace, k) == Action::Spin(policy) && trace[k] == Observation::Done
}

/// After `n` answers the probe had ended with status zero.
#[verifier::opaque]
pub open spec fn was_through(plan: Seq<Step>, trace: Seq<Observation>, n: int) -> bool {
    &&& n <= trace.len()
    &&& probe_laws::feed(RunState::start(plan), trace.take(n)).status() == Some(0i32)
}

/// In a run that ends with status zero every action is that of its step, every answer passes it,
/// and what is read after it is what the step reads.
#[verifier::spinoff_prover]
#[verifier::rlimit(30)]
proof fn lemma_course(plan: Seq<Step>, trace: Seq<Observation>)
    requires
        probe::plan_wf(plan),
        failures::ends_with(plan, trace, 0),
    ensures
        plan.len() <= trace.len(),
        was_through(plan, trace, plan.len() as int),
        forall|k: int|
            0 <= k < plan.len() ==> {
                let memory = failures::memory_at(plan, trace, k);
                &&& #[trigger] failures::asked(plan, trace, k) == probe::action_of(plan[k], memory)
                &&& probe::accepts(plan[k], memory, trace[k])
                &&& probe::answers(failures::asked(plan, trace, k), trace[k])
                &&& failures::memory_at(plan, trace, k + 1) == probe::remembers(
                    plan[k],
                    memory,
                    trace[k],
                )
            },
{
    reveal(failures::asked);
    reveal(failures::memory_at);
    reveal(failures::ends_with);
    reveal(was_through);
    let start = RunState::start(plan);
    probe_laws::law_zero_means_every_step_passed(plan, trace);
    probe_laws::lemma_feed(plan, trace);
    assert forall|k: int| 0 <= k < plan.len() implies {
        let memory = failures::memory_at(plan, trace, k);
        &&& #[trigger] failures::asked(plan, trace, k) == probe::action_of(plan[k], memory)
        &&& probe::accepts(plan[k], memory, trace[k])
        &&& probe::answers(failures::asked(plan, trace, k), trace[k])
        &&& failures::memory_at(plan, trace, k + 1) == probe::remembers(
            plan[k],
            memory,
            trace[k],
        )
    } by {
        assert(probe_laws::passes(plan, trace, k));
        probe_laws::law_actions_follow_the_plan(plan, trace, k);
        assert(probe::answers(probe_laws::feed(start, trace.take(k)).action(), trace[k]));
        let before = probe_laws::feed(start, trace.take(k));
        assert(before.at == k);
        assert(trace.take(k + 1).drop_last() == trace.take(k));
        assert(trace.take(k + 1).last() == trace[k]);
    }
    let end = probe_laws::feed(start, trace.take(plan.len() as int));
    assert(end.at == plan.len());
}

/// The same of a part of the plan that begins at step `offset`.
#[verifier::spinoff_prover]
#[verifier::rlimit(30)]
proof fn lemma_course_of_part(
    plan: Seq<Step>,
    part: Seq<Step>,
    offset: int,
    trace: Seq<Observation>,
)
    requires
        probe::plan_wf(plan),
        failures::ends_with(plan, trace, 0),
        0 <= offset,
        offset + part.len() <= plan.len(),
        plan.subrange(offset, offset + part.len()) == part,
    ensures
        plan.len() <= trace.len(),
        was_through(plan, trace, plan.len() as int),
        forall|k: int|
            offset <= k < offset + part.len() ==> {
                let step = part[k - offset];
                let memory = failures::memory_at(plan, trace, k);
                &&& #[trigger] failures::asked(plan, trace, k) == probe::action_of(step, memory)
                &&& probe::accepts(step, memory, trace[k])
                &&& probe::answers(failures::asked(plan, trace, k), trace[k])
                &&& failures::memory_at(plan, trace, k + 1) == probe::remembers(
                    step,
                    memory,
                    trace[k],
                )
            },
{
    lemma_course(plan, trace);
    assert forall|k: int| offset <= k < offset + part.len() implies part[k - offset]
        == #[trigger] plan[k] by {
        assert(plan.subrange(offset, offset + part.len())[k - offset] == plan[k]);
    }
    assert forall|k: int| offset <= k < offset + part.len() implies {
        let step = part[k - offset];
        let memory = failures::memory_at(plan, trace, k);
        &&& #[trigger] failures::asked(plan, trace, k) == probe::action_of(step, memory)
        &&& probe::accepts(step, memory, trace[k])
        &&& probe::answers(failures::asked(plan, trace, k), trace[k])
        &&& failures::memory_at(plan, trace, k + 1) == probe::remembers(
            step,
            memory,
            trace[k],
        )
    } by {
        assert(part[k - offset] == plan[k]);
    }
}

/// A program at step `k` whose promise may have to be waited for is followed by the step that
/// waits.
spec fn waits_at_once(plan: Seq<Step>, k: int) -> bool {
    &&& plan[k] is ReadSettled ==> k + 1 < plan.len() && plan[k + 1] is Settle
    &&& plan[k] !is CallInvoke
}

/// A promise is waited for exactly after the program that returned it.
#[verifier::spinoff_prover]
#[verifier::rlimit(30)]
proof fn lemma_awaiting(plan: Seq<Step>, trace: Seq<Observation>, k: int)
    requires
        probe::plan_wf(plan),
        failures::ends_with(plan, trace, 0),
        forall|j: int| 0 <= j < plan.len() ==> #[trigger] waits_at_once(plan, j),
        0 <= k <= plan.len(),
    ensures
        k > 0 ==> k <= trace.len(),
        failures::memory_at(plan, trace, k).awaiting <==> (k > 0 && plan[k - 1] is ReadSettled
            && trace[k - 1] == Observation::Promise),
    decreases k,
{
    lemma_course(plan, trace);
    if k == 0 {
        reveal(failures::memory_at);
        assert(trace.take(0) == Seq::<Observation>::empty());
    } else {
        lemma_awaiting(plan, trace, k - 1);
        assert(failures::asked(plan, trace, k - 1) == probe::action_of(
            plan[k - 1],
            failures::memory_at(plan, trace, k - 1),
        ));
        assert(waits_at_once(plan, k - 1));
        if k > 1 {
            assert(waits_at_once(plan, k - 2));
        }
    }
}

/// The probe of the synchronous host call ends with status zero only after all of this, in this
/// order.
#[verifier::spinoff_prover]
#[verifier::rlimit(30)]
pub proof fn law_course_of_the_sync_probe(trace: Seq<Observation>)
    requires
        failures::ends_with(plan_parts::sync_host_call_steps(), trace, 0),
    ensures
        ({
            let plan = plan_parts::sync_host_call_steps();
            &&& did(plan, trace, 0, Effect::ResetSyncCounters)
            &&& did(plan, trace, 1, Effect::Lock)
            &&& did(plan, trace, 2, Effect::InstallSyncHostCall)
            &&& gave(plan, trace, 3, Script::SyncHostCall, 42)
            &&& counted(plan, trace, 4, Counter::SyncCalls, 1)
            &&& counted(plan, trace, 5, Counter::SyncPayload, 41)
            &&& counted(plan, trace, 6, Counter::SyncReturned, 42)
            &&& did(plan, trace, 7, Effect::Unlock)
            &&& was_through(plan, trace, 8)
        }),
{
    let plan = plan_parts::sync_host_call_steps();
    let part = plan_parts::sync_host_call_steps();
    crate::guarantees::lemma_plans_are_well_formed();
    assert(plan.subrange(0, 8) == part);
    lemma_course_of_part(plan, part, 0, trace);
}

/// The probe of the asynchronous host call ends with status zero only after all of this, in this
/// order.
#[verifier::spinoff_prover]
#[verifier::rlimit(30)]
pub proof fn law_course_of_the_async_probe(trace: Seq<Observation>)
    requires
        failures::ends_with(plan_parts::async_host_call_steps(), trace, 0),
    ensures
        ({
            let plan = plan_parts::async_host_call_steps();
            &&& did(plan, trace, 0, Effect::ResetAsyncCounters)
            &&& did(plan, trace, 1, Effect::EnsureWaker)
            &&& did(plan, trace, 2, Effect::Lock)
            &&& did(plan, trace, 3, Effect::InstallAsyncHostCall)
            &&& ran(plan, trace, 4, Script::AsyncHostCall)
            &&& did(plan, trace, 5, Effect::Unlock)
            &&& counted(plan, trace, 6, Counter::AsyncCalls, 1)
            &&& counted(plan, trace, 7, Counter::AsyncPayload, 41)
            &&& counted(plan, trace, 8, Counter::TaskRuns, 0)
            &&& host_promised(plan, trace, 9)
            &&& did(plan, trace, 10, Effect::ProbeLock)
            &&& waited(plan, trace, 11, PromiseSlot::Host)
            &&& counted(plan, trace, 12, Counter::TaskRuns, 1)
            &&& counted(plan, trace, 13, Counter::TaskReturned, 42)
            &&& was_fulfilled(plan, trace, 14, PromiseSlot::Host)
            &&& resolved(plan, trace, 15, PromiseSlot::Host, 42)
            &&& gave(plan, trace, 16, Script::AsyncObserved, 42)
            &&& did(plan, trace, 17, Effect::Unlock)
            &&& was_through(plan, trace, 18)
        }),
{
    let plan = plan_parts::async_host_call_steps();
    let part = plan_parts::async_host_call_steps();
    crate::guarantees::lemma_plans_are_well_formed();
    assert(plan.subrange(0, 18) == part);
    lemma_course_of_part(plan, part, 0, trace);
}

/// The probe of the program bundle ends with status zero only after all of this, in this order, up
/// to the invocation of the bundled mutation.
#[verifier::spinoff_prover]
#[verifier::rlimit(30)]
pub proof fn law_course_of_the_bundle_probe_up_to_its_invocation(trace: Seq<Observation>)
    requires
        failures::ends_with(probes::program_bundle_steps(), trace, 0),
    ensures
        ({
            let plan = probes::program_bundle_steps();
            &&& did(plan, trace, 0, Effect::ResetSyncCounters)
            &&& did(plan, trace, 1, Effect::ResetAsyncCounters)
            &&& did(plan, trace, 2, Effect::EnsureWaker)
            &&& did(plan, trace, 3, Effect::Lock)
            &&& did(plan, trace, 4, Effect::InstallSyncHostCall)
            &&& did(plan, trace, 5, Effect::InstallAsyncHostCall)
            &&& gave(plan, trace, 6, Script::BundleContext, 1)
            &&& ran(plan, trace, 7, Script::Bundle(BundleUse::HostCalls))
            &&& promised(plan, trace, 8, Script::BundleInvoke)
            &&& did(plan, trace, 9, Effect::Unlock)
        }),
{
    let plan = probes::program_bundle_steps();
    let part = plan_parts::bundle_start_steps();
    crate::guarantees::lemma_plans_are_well_formed();
    assert(plan.subrange(0, 10) == part);
    lemma_course_of_part(plan, part, 0, trace);
}

/// The probe of the program bundle ends with status zero only after all of this, in this order,
/// after the invocation of the bundled mutation.
#[verifier::spinoff_prover]
#[verifier::rlimit(30)]
pub proof fn law_course_of_the_bundle_probe_after_its_invocation(trace: Seq<Observation>)
    requires
        failures::ends_with(probes::program_bundle_steps(), trace, 0),
    ensures
        ({
            let plan = probes::program_bundle_steps();
            &&& counted(plan, trace, 10, Counter::AsyncCalls, 1)
            &&& counted(plan, trace, 11, Counter::AsyncPayload, 41)
            &&& counted(plan, trace, 12, Counter::TaskRuns, 0)
            &&& counted(plan, trace, 13, Counter::SyncCalls, 0)
            &&& host_promised(plan, trace, 14)
            &&& did(plan, trace, 15, Effect::ProbeLock)
            &&& waited(plan, trace, 16, PromiseSlot::Invocation)
            &&& counted(plan, trace, 17, Counter::TaskRuns, 1)
            &&& counted(plan, trace, 18, Counter::TaskReturned, 42)
            &&& counted(plan, trace, 19, Counter::SyncCalls, 1)
            &&& counted(plan, trace, 20, Counter::SyncPayload, 41)
            &&& counted(plan, trace, 21, Counter::SyncReturned, 42)
            &&& was_fulfilled(plan, trace, 22, PromiseSlot::Host)
            &&& was_fulfilled(plan, trace, 23, PromiseSlot::Invocation)
            &&& resolved(plan, trace, 24, PromiseSlot::Invocation, 42)
            &&& gave(plan, trace, 25, Script::BundleState, 42)
            &&& did(plan, trace, 26, Effect::Unlock)
            &&& was_through(plan, trace, 27)
        }),
{
    let plan = probes::program_bundle_steps();
    let part = plan_parts::bundle_finish_steps();
    crate::guarantees::lemma_plans_are_well_formed();
    assert(plan.subrange(10, 27) == part);
    lemma_course_of_part(plan, part, 10, trace);
}

/// The probe of the cancellations ends with status zero only after all of this, in this order.
#[verifier::spinoff_prover]
#[verifier::rlimit(30)]
pub proof fn law_course_of_the_timeout_probe(trace: Seq<Observation>)
    requires
        failures::ends_with(probes::timeout_and_cancel_steps(), trace, 0),
    ensures
        ({
            let plan = probes::timeout_and_cancel_steps();
            &&& did(plan, trace, 0, Effect::EnsureWaker)
            &&& did(plan, trace, 1, Effect::Lock)
            &&& did(plan, trace, 2, Effect::MaterializeTermination)
            &&& gave(plan, trace, 3, Script::TimeoutContext, 1)
            &&& ran(plan, trace, 4, Script::Bundle(BundleUse::Timeout))
            &&& did(plan, trace, 5, Effect::Unlock)
            &&& did_nothing(plan, trace, 6)
            &&& did(plan, trace, 7, Effect::ProbeLock)
            &&& gave(plan, trace, 8, Script::PreEntryState, 1)
            &&& did(plan, trace, 9, Effect::Unlock)
            &&& did(plan, trace, 10, Effect::Lock)
            &&& gave(plan, trace, 11, Script::Recovery, 42)
            &&& did(plan, trace, 12, Effect::Unlock)
            &&& spun(plan, trace, 13, SpinPolicy::Deadline)
            &&& did(plan, trace, 14, Effect::Lock)
            &&& gave(plan, trace, 15, Script::Recovery, 42)
            &&& did(plan, trace, 16, Effect::Unlock)
            &&& spun(plan, trace, 17, SpinPolicy::ExternalCancel)
            &&& did(plan, trace, 18, Effect::Lock)
            &&& gave(plan, trace, 19, Script::Recovery, 42)
            &&& did(plan, trace, 20, Effect::Unlock)
            &&& printed(plan, trace, 21, ReportLine::Text("nimbus bun embed cancellation policy:"))
            &&& printed(
                plan,
                trace,
                22,
                ReportLine::Text("  before_guest_entry: owner_entry_gate_denied_and_recovered"),
            )
            &&& printed(
                plan,
                trace,
                23,
                ReportLine::Text("  after_guest_entry_sync_loop: spin_entered_ack"),
            )
            &&& printed(plan, trace, 24, ReportLine::Text("  recovery_after_deadline_cancel: ok"))
            &&& printed(plan, trace, 25, ReportLine::Text("  recovery_after_external_cancel: ok"))
            &&& printed(
                plan,
                trace,
                26,
                ReportLine::Text("  cancellation_timing_policy: state_ack_not_sleep"),
            )
            &&& was_through(plan, trace, 27)
        }),
{
    let plan = probes::timeout_and_cancel_steps();
    let part = probes::timeout_and_cancel_steps();
    crate::guarantees::lemma_plans_are_well_formed();
    assert(plan.subrange(0, 27) == part);
    lemma_course_of_part(plan, part, 0, trace);
}

/// The probe of the heap ends with status zero only after all of this, in this order, up to the end
/// of the load.
#[verifier::spinoff_prover]
#[verifier::rlimit(30)]
pub proof fn law_course_of_the_memory_probe_under_load(trace: Seq<Observation>)
    requires
        failures::ends_with(probes::memory_behavior_steps(), trace, 0),
    ensures
        ({
            let plan = probes::memory_behavior_steps();
            &&& did(plan, trace, 0, Effect::ResetSyncCounters)
            &&& did(plan, trace, 1, Effect::ResetAsyncCounters)
            &&& did(plan, trace, 2, Effect::EnsureWaker)
            &&& did(plan, trace, 3, Effect::Lock)
            &&& did(plan, trace, 4, Effect::InstallSyncHostCall)
            &&& did(plan, trace, 5, Effect::InstallAsyncHostCall)
            &&& gave(plan, trace, 6, Script::MemoryContext, 1)
            &&& ran(plan, trace, 7, Script::Bundle(BundleUse::Memory))
            &&& did(plan, trace, 8, Effect::Unlock)
            &&& collected(plan, trace, 9)
            &&& measured(plan, trace, 10)
            &&& did(plan, trace, 11, Effect::Lock)
            &&& promised(plan, trace, 12, Script::MemoryInvocations)
            &&& did(plan, trace, 13, Effect::Unlock)
            &&& did(plan, trace, 14, Effect::ProbeLock)
            &&& waited(plan, trace, 15, PromiseSlot::Invocation)
            &&& was_fulfilled(plan, trace, 16, PromiseSlot::Invocation)
            &&& resolved(plan, trace, 17, PromiseSlot::Invocation, 16)
            &&& did(plan, trace, 18, Effect::Unlock)
            &&& counted(plan, trace, 19, Counter::AsyncCalls, 16)
            &&& counted(plan, trace, 20, Counter::TaskRuns, 16)
            &&& counted(plan, trace, 21, Counter::SyncCalls, 16)
        }),
{
    let plan = probes::memory_behavior_steps();
    let part = plan_parts::memory_load_steps();
    crate::guarantees::lemma_plans_are_well_formed();
    assert(plan.subrange(0, 22) == part);
    lemma_course_of_part(plan, part, 0, trace);
}

/// The probe of the heap ends with status zero only after all of this, in this order, after the
/// load.
#[verifier::spinoff_prover]
#[verifier::rlimit(30)]
pub proof fn law_course_of_the_memory_probe_after_the_load(trace: Seq<Observation>)
    requires
        failures::ends_with(probes::memory_behavior_steps(), trace, 0),
    ensures
        ({
            let plan = probes::memory_behavior_steps();
            &&& measured(plan, trace, 22)
            &&& collected(plan, trace, 23)
            &&& did(plan, trace, 24, Effect::Lock)
            &&& gave(plan, trace, 25, Script::MemoryRelease, 1)
            &&& did(plan, trace, 26, Effect::Unlock)
            &&& collected(plan, trace, 27)
            &&& did(plan, trace, 28, Effect::Lock)
            &&& did(plan, trace, 29, Effect::ShrinkFootprint)
            &&& measured(plan, trace, 30)
            &&& did(plan, trace, 31, Effect::Unlock)
        }),
{
    let plan = probes::memory_behavior_steps();
    let part = plan_parts::memory_release_steps();
    crate::guarantees::lemma_plans_are_well_formed();
    assert(plan.subrange(22, 32) == part);
    lemma_course_of_part(plan, part, 22, trace);
}

/// The probe of the heap ends with status zero only after all of this, in this order, at its end.
#[verifier::spinoff_prover]
#[verifier::rlimit(30)]
pub proof fn law_course_of_the_memory_probe_report(trace: Seq<Observation>)
    requires
        failures::ends_with(probes::memory_behavior_steps(), trace, 0),
    ensures
        ({
            let plan = probes::memory_behavior_steps();
            &&& printed(plan, trace, 32, ReportLine::Text("nimbus bun embed memory behavior:"))
            &&& printed(
                plan,
                trace,
                33,
                ReportLine::Count { label: "invocation_count", value: 16 },
            )
            &&& printed(
                plan,
                trace,
                34,
                ReportLine::HeapBytes { label: "heap_after_setup_gc_bytes", sample: 0 },
            )
            &&& printed(
                plan,
                trace,
                35,
                ReportLine::HeapBytes { label: "heap_before_load_bytes", sample: 1 },
            )
            &&& printed(
                plan,
                trace,
                36,
                ReportLine::HeapBytes { label: "heap_after_load_bytes", sample: 2 },
            )
            &&& printed(
                plan,
                trace,
                37,
                ReportLine::HeapBytes { label: "heap_retained_after_gc_bytes", sample: 3 },
            )
            &&& printed(
                plan,
                trace,
                38,
                ReportLine::HeapBytes { label: "heap_after_release_gc_bytes", sample: 4 },
            )
            &&& printed(
                plan,
                trace,
                39,
                ReportLine::HeapBytes { label: "heap_after_shrink_bytes", sample: 5 },
            )
            &&& printed(
                plan,
                trace,
                40,
                ReportLine::HeapDifference {
                    label: "observed_load_growth_bytes",
                    larger: 2,
                    smaller: 1,
                },
            )
            &&& printed(
                plan,
                trace,
                41,
                ReportLine::HeapDifference {
                    label: "observed_gc_retained_growth_bytes",
                    larger: 3,
                    smaller: 0,
                },
            )
            &&& printed(
                plan,
                trace,
                42,
                ReportLine::HeapDifference {
                    label: "observed_release_drop_bytes",
                    larger: 3,
                    smaller: 4,
                },
            )
            &&& printed(plan, trace, 43, ReportLine::Text("  hard_heap_limit: not_observed"))
            &&& printed(plan, trace, 44, ReportLine::Text("  growth_assertion: full_gc_live_size"))
            &&& printed(
                plan,
                trace,
                45,
                ReportLine::Text("  pressure_signal: vm.heap_size_and_sync_gc"),
            )
            &&& printed(
                plan,
                trace,
                46,
                ReportLine::Text("  safe_first_policy: fresh_vm_or_discard_on_pressure"),
            )
            &&& did_nothing(plan, trace, 47)
            &&& was_through(plan, trace, 48)
        }),
{
    let plan = probes::memory_behavior_steps();
    let part = plan_parts::memory_report_steps();
    crate::guarantees::lemma_plans_are_well_formed();
    assert(plan.subrange(32, 48) == part);
    lemma_course_of_part(plan, part, 32, trace);
}

/// The probe of the ways to a module ends with status zero only after all of this, in this order,
/// at its start.
#[verifier::spinoff_prover]
#[verifier::rlimit(30)]
pub proof fn law_course_of_the_module_probe_setup(trace: Seq<Observation>)
    requires
        failures::ends_with(probes::package_module_policy_steps(), trace, 0),
    ensures
        ({
            let plan = probes::package_module_policy_steps();
            &&& did(plan, trace, 0, Effect::EnsureWaker)
            &&& did(plan, trace, 1, Effect::ProbeLock)
            &&& gave(plan, trace, 2, Script::ModuleContext, 1)
            &&& ran(plan, trace, 3, Script::Bundle(BundleUse::Module))
            &&& gave(plan, trace, 4, Script::WrapperLoaded, 1)
            &&& was_rejected(plan, trace, 5, Script::StaticEsm)
            &&& did(plan, trace, 6, Effect::Unlock)
            &&& did(plan, trace, 7, Effect::DenyResolution)
        }),
{
    let plan = probes::package_module_policy_steps();
    let part = plan_parts::module_setup_steps();
    crate::guarantees::lemma_plans_are_well_formed();
    assert(plan.subrange(0, 8) == part);
    lemma_course_of_part(plan, part, 0, trace);
}

/// The probe of the ways to a module ends with status zero only after all of this, in this order,
/// for the imports.
#[verifier::spinoff_prover]
#[verifier::rlimit(30)]
pub proof fn law_course_of_the_module_probe_imports(trace: Seq<Observation>)
    requires
        failures::ends_with(probes::package_module_policy_steps(), trace, 0),
    ensures
        ({
            let plan = probes::package_module_policy_steps();
            &&& did(plan, trace, 8, Effect::ProbeLock)
            &&& read_or_promised(plan, trace, 9, Script::ImportNodeFs)
            &&& did(plan, trace, 11, Effect::Unlock)
            &&& did(plan, trace, 12, Effect::ProbeLock)
            &&& read_or_promised(plan, trace, 13, Script::ImportPackage)
            &&& did(plan, trace, 15, Effect::Unlock)
            &&& did(plan, trace, 16, Effect::ProbeLock)
            &&& read_or_promised(plan, trace, 17, Script::ImportPlugin)
            &&& did(plan, trace, 19, Effect::Unlock)
            &&& did(plan, trace, 20, Effect::ProbeLock)
            &&& read_or_promised(plan, trace, 21, Script::ImportNodeVm)
            &&& did(plan, trace, 23, Effect::Unlock)
        }),
{
    let plan = probes::package_module_policy_steps();
    let part = plan_parts::module_imports_steps();
    crate::guarantees::lemma_plans_are_well_formed();
    assert(plan.subrange(8, 24) == part);
    lemma_course_of_part(plan, part, 8, trace);
    lemma_awaiting(plan, trace, 9);
    lemma_awaiting(plan, trace, 13);
    lemma_awaiting(plan, trace, 17);
    lemma_awaiting(plan, trace, 21);
}

/// The probe of the ways to a module ends with status zero only after all of this, in this order,
/// for the resolvers.
#[verifier::spinoff_prover]
#[verifier::rlimit(30)]
pub proof fn law_course_of_the_module_probe_resolvers(trace: Seq<Observation>)
    requires
        failures::ends_with(probes::package_module_policy_steps(), trace, 0),
    ensures
        ({
            let plan = probes::package_module_policy_steps();
            &&& did(plan, trace, 24, Effect::ProbeLock)
            &&& read(plan, trace, 25, Script::RequireStatus)
            &&& did(plan, trace, 26, Effect::Unlock)
            &&& did(plan, trace, 27, Effect::ProbeLock)
            &&& read_or_promised(plan, trace, 28, Script::BunResolve)
            &&& did(plan, trace, 30, Effect::Unlock)
            &&& did(plan, trace, 31, Effect::ProbeLock)
            &&& read(plan, trace, 32, Script::BunResolveSync)
            &&& did(plan, trace, 33, Effect::Unlock)
            &&& did(plan, trace, 34, Effect::ProbeLock)
            &&& read(plan, trace, 35, Script::NativeAddonResolveSync)
            &&& did(plan, trace, 36, Effect::Unlock)
            &&& did(plan, trace, 37, Effect::ProbeLock)
            &&& read_or_promised(plan, trace, 38, Script::WrapperNodeBuiltin)
            &&& did(plan, trace, 40, Effect::Unlock)
            &&& did(plan, trace, 41, Effect::ProbeLock)
            &&& read_or_promised(plan, trace, 42, Script::WrapperExternalPackage)
            &&& did(plan, trace, 44, Effect::Unlock)
        }),
{
    let plan = probes::package_module_policy_steps();
    let part = plan_parts::module_resolvers_steps();
    crate::guarantees::lemma_plans_are_well_formed();
    assert(plan.subrange(24, 45) == part);
    lemma_course_of_part(plan, part, 24, trace);
    lemma_awaiting(plan, trace, 28);
    lemma_awaiting(plan, trace, 38);
    lemma_awaiting(plan, trace, 42);
}

/// The probe of the ways to a module ends with status zero only after all of this, in this order,
/// for the report.
#[verifier::spinoff_prover]
#[verifier::rlimit(30)]
pub proof fn law_course_of_the_module_probe_report(trace: Seq<Observation>)
    requires
        failures::ends_with(probes::package_module_policy_steps(), trace, 0),
    ensures
        ({
            let plan = probes::package_module_policy_steps();
            &&& printed(
                plan,
                trace,
                45,
                ReportLine::Text("nimbus bun embed package/module policy:"),
            )
            &&& printed(
                plan,
                trace,
                46,
                ReportLine::Text("  artifact_shape: self_contained_program_wrapper"),
            )
            &&& printed(
                plan,
                trace,
                47,
                ReportLine::Text("  evaluation_format: program_via_Bun__REPL__evaluate"),
            )
            &&& printed(
                plan,
                trace,
                48,
                ReportLine::Text("  static_esm_import_in_program: rejected"),
            )
            &&& printed(
                plan,
                trace,
                49,
                ReportLine::Policy { label: "dynamic_import_node_fs", reading: 0 },
            )
            &&& printed(
                plan,
                trace,
                50,
                ReportLine::Policy { label: "dynamic_import_package_root", reading: 1 },
            )
            &&& printed(
                plan,
                trace,
                51,
                ReportLine::Policy { label: "plugin_virtual_module_import", reading: 2 },
            )
            &&& printed(
                plan,
                trace,
                52,
                ReportLine::Policy { label: "node_vm_module_import", reading: 3 },
            )
            &&& printed(plan, trace, 53, ReportLine::Policy { label: "require", reading: 4 })
            &&& printed(
                plan,
                trace,
                54,
                ReportLine::Text("  require.resolve: unreachable_with_require"),
            )
            &&& printed(
                plan,
                trace,
                55,
                ReportLine::Text("  import.meta.resolve: unreachable_with_static_esm"),
            )
            &&& printed(
                plan,
                trace,
                56,
                ReportLine::Text("  node_vm_global: unreachable_with_node_vm_module"),
            )
            &&& printed(plan, trace, 57, ReportLine::Policy { label: "Bun.resolve", reading: 5 })
            &&& printed(
                plan,
                trace,
                58,
                ReportLine::Policy { label: "Bun.resolveSync", reading: 6 },
            )
            &&& printed(
                plan,
                trace,
                59,
                ReportLine::Policy { label: "native_addon_resolveSync", reading: 7 },
            )
            &&& printed(
                plan,
                trace,
                60,
                ReportLine::Policy { label: "generated_node_builtin_helper", reading: 8 },
            )
            &&& printed(
                plan,
                trace,
                61,
                ReportLine::Policy { label: "generated_external_package_helper", reading: 9 },
            )
            &&& printed(plan, trace, 62, ReportLine::Text("  selected_next_lane: program_wrapper"))
            &&& printed(
                plan,
                trace,
                63,
                ReportLine::Text("  resolver_policy_hook: native_embedder_deny_all"),
            )
            &&& printed(
                plan,
                trace,
                64,
                ReportLine::Text("  required_resolver_api: nimbus_owned_bun_package_resolver"),
            )
        }),
{
    let plan = probes::package_module_policy_steps();
    let part = plan_parts::module_report_steps();
    crate::guarantees::lemma_plans_are_well_formed();
    assert(plan.subrange(45, 65) == part);
    lemma_course_of_part(plan, part, 45, trace);
}

/// The probe of the ways to a module ends with status zero only after all of this, in this order,
/// for the verdict.
#[verifier::spinoff_prover]
#[verifier::rlimit(30)]
pub proof fn law_course_of_the_module_probe_verdict(trace: Seq<Observation>)
    requires
        failures::ends_with(probes::package_module_policy_steps(), trace, 0),
    ensures
        ({
            let plan = probes::package_module_policy_steps();
            &&& did_nothing(plan, trace, 65)
            &&& did_nothing(plan, trace, 66)
            &&& did_nothing(plan, trace, 67)
            &&& did_nothing(plan, trace, 68)
            &&& did_nothing(plan, trace, 69)
            &&& did_nothing(plan, trace, 70)
            &&& did_nothing(plan, trace, 71)
            &&& did_nothing(plan, trace, 72)
            &&& did_nothing(plan, trace, 73)
            &&& did_nothing(plan, trace, 74)
            &&& was_through(plan, trace, 75)
        }),
{
    let plan = probes::package_module_policy_steps();
    let part = plan_parts::module_verdict_steps();
    crate::guarantees::lemma_plans_are_well_formed();
    assert(plan.subrange(65, 75) == part);
    lemma_course_of_part(plan, part, 65, trace);
}

/// The inventory ends with status zero only after all of this, in this order: its setup, then for
/// every surface its classification, which is absent, denied or under the deny profile, and its
/// line in the report.
#[verifier::spinoff_prover]
#[verifier::rlimit(30)]
pub proof fn law_course_of_the_inventory(trace: Seq<Observation>, surface: int)
    requires
        failures::ends_with(probes::permission_surface_inventory_steps(), trace, 0),
        0 <= surface < 97,
    ensures
        ({
            let plan = probes::permission_surface_inventory_steps();
            let k = 9 + 2 * surface;
            &&& did(plan, trace, 0, Effect::EnsureWaker)
            &&& did(plan, trace, 1, Effect::Lock)
            &&& did(plan, trace, 2, Effect::InstallSyncHostCall)
            &&& did(plan, trace, 3, Effect::InstallAsyncHostCall)
            &&& gave(plan, trace, 4, Script::PermissionContext, 1)
            &&& ran(plan, trace, 5, Script::Bundle(BundleUse::Permission))
            &&& failures::asked(plan, trace, 6) == Action::ApplyDenyProfile
            &&& trace[6] == Observation::Done
            &&& gave(plan, trace, 7, Script::PermissionHelpers, 1)
            &&& printed(
                plan,
                trace,
                8,
                ReportLine::Text("nimbus bun embed permission surface inventory:"),
            )
            &&& failures::asked(plan, trace, k) == Action::Evaluate(
                Script::PermissionSurface(surface as usize),
            )
            &&& trace[k] == Observation::Number(1) || trace[k] == Observation::Number(2) || trace[k]
                == Observation::Number(3)
            &&& reads_one_more(plan, trace, k)
            &&& printed(plan, trace, k + 1, ReportLine::Surface(surface as usize))
            &&& did(plan, trace, 203, Effect::Unlock)
            &&& was_through(plan, trace, 204)
        }),
{
    let plan = probes::permission_surface_inventory_steps();
    let k = 9 + 2 * surface;
    crate::guarantees::lemma_plans_are_well_formed();
    lemma_course(plan, trace);
    assert(plan[k] == probes::surface_step(2 * surface));
    assert(plan[k + 1] == probes::surface_step(2 * surface + 1));
    assert(failures::asked(plan, trace, k) == Action::Evaluate(
        Script::PermissionSurface(surface as usize),
    ));
}

/// Steps `k` to `k + 5` were one lifecycle invocation: the machine was locked, the program with
/// this body and this message id was evaluated and returned a promise, and the promise was waited
/// for, was fulfilled and had resolved to 42.
pub open spec fn invoked(
    plan: Seq<Step>,
    trace: Seq<Observation>,
    k: int,
    body: LifecycleBody,
    message_id: int,
) -> bool {
    &&& did(plan, trace, k, Effect::ProbeLock)
    &&& promised(
        plan,
        trace,
        k + 1,
        Script::LifecycleInvoke { body, message_id: message_id as i32 },
    )
    &&& waited(plan, trace, k + 2, PromiseSlot::Invocation)
    &&& was_fulfilled(plan, trace, k + 3, PromiseSlot::Invocation)
    &&& resolved(plan, trace, k + 4, PromiseSlot::Invocation, 42)
    &&& did(plan, trace, k + 5, Effect::Unlock)
}

proof fn lemma_invoked(
    plan: Seq<Step>,
    trace: Seq<Observation>,
    k: int,
    body: LifecycleBody,
    message_id: int,
    base: i32,
)
    requires
        probe::plan_wf(plan),
        failures::ends_with(plan, trace, 0),
        0 <= k,
        k + 6 <= plan.len(),
        i32::MIN <= message_id <= i32::MAX,
        plan.subrange(k, k + 6) == plan_parts::lifecycle_invocation_steps(
            body,
            message_id as i32,
            base,
        ),
    ensures
        invoked(plan, trace, k, body, message_id),
{
    lemma_course_of_part(
        plan,
        plan_parts::lifecycle_invocation_steps(body, message_id as i32, base),
        k,
        trace,
    );
}

/// The lifecycle probe ends with status zero only after invocation `n` of those that share the
/// machine, for every `n` from one to eight: its body is `reuse-` and the number before `n`, and
/// the id that it expects is `n`, since the context numbers its messages so. The invocations come
/// in this order, one after the other.
#[verifier::spinoff_prover]
#[verifier::rlimit(30)]
pub proof fn law_lifecycle_invocations_are_numbered_in_order(trace: Seq<Observation>, n: int)
    requires
        failures::ends_with(probes::lifecycle_reuse_steps(), trace, 0),
        1 <= n <= 8,
    ensures
        invoked(
            probes::lifecycle_reuse_steps(),
            trace,
            10 + 6 * (n - 1),
            LifecycleBody::Reuse((n - 1) as i32),
            n,
        ),
{
    let plan = probes::lifecycle_reuse_steps();
    let k = 10 + 6 * (n - 1);
    crate::report_laws::lemma_lifecycle_is_well_formed();
    let body = LifecycleBody::Reuse((n - 1) as i32);
    let part = plan_parts::lifecycle_invocation_steps(body, n as i32, 233);
    failures::lemma_lifecycle_step(0);
    assert forall|j: int| 0 <= j < 6 implies plan[k + j] == #[trigger] part[j] by {
        failures::lemma_lifecycle_step(k + j);
        assert((k + j - 10) / 6 == n - 1);
        assert((k + j - 10) % 6 == j);
    }
    assert(plan.subrange(k, k + 6) == part);
    lemma_invoked(plan, trace, k, body, n, 233);
}

/// The message ids of all programs that a lifecycle run may evaluate, whatever the answers are: a
/// program that invokes the mutation carries the id that comes after all those before it, counted
/// from one, and its body is the one of that id.
#[verifier::spinoff_prover]
#[verifier::rlimit(30)]
pub proof fn law_lifecycle_message_ids_count_up(trace: Seq<Observation>, k: int)
    requires
        probe_laws::fair(RunState::start(probes::lifecycle_reuse_steps()), trace),
        0 <= k <= trace.len(),
    ensures
        failures::asked(probes::lifecycle_reuse_steps(), trace, k) matches Action::Evaluate(
            Script::LifecycleInvoke { body, message_id },
        ) ==> {
            ||| 1 <= message_id <= 8 && body == LifecycleBody::Reuse((message_id - 1) as i32) && k
                == 11 + 6 * (message_id - 1)
            ||| message_id == 9 && body == LifecycleBody::PostCancel && k == 74
        },
{
    let plan = probes::lifecycle_reuse_steps();
    let start = RunState::start(plan);
    crate::report_laws::lemma_lifecycle_is_well_formed();
    failures::lemma_lifecycle_step(0);
    probe_laws::lemma_shorter_is_fair(start, trace, k);
    probe_laws::lemma_feed(plan, trace.take(k));
    let run = probe_laws::feed(start, trace.take(k));
    reveal(failures::asked);
    if run.status() is None {
        assert(run.at == k);
        failures::lemma_lifecycle_step(k);
        lemma_lifecycle_invocation_steps(k, run.memory);
    }
}

/// Where the steps of the lifecycle probe stand that invoke the mutation.
#[verifier::spinoff_prover]
#[verifier::rlimit(30)]
proof fn lemma_lifecycle_invocation_steps(k: int, memory: Memory)
    requires
        0 <= k < 97,
    ensures
        probe::action_of(failures::lifecycle_step(k), memory) matches Action::Evaluate(
            Script::LifecycleInvoke { body, message_id },
        ) ==> {
            ||| 1 <= message_id <= 8 && body == LifecycleBody::Reuse((message_id - 1) as i32) && k
                == 11 + 6 * (message_id - 1)
            ||| message_id == 9 && body == LifecycleBody::PostCancel && k == 74
        },
{
}

/// The lifecycle probe ends with status zero only after cancellation `n`, for every `n` from one
/// to three: a spinning program was stopped from outside, and after it the machine still ran a
/// program.
#[verifier::spinoff_prover]
#[verifier::rlimit(30)]
pub proof fn law_lifecycle_recovers_from_every_cancellation(trace: Seq<Observation>, n: int)
    requires
        failures::ends_with(probes::lifecycle_reuse_steps(), trace, 0),
        1 <= n <= 3,
    ensures
        ({
            let plan = probes::lifecycle_reuse_steps();
            let k = 61 + 4 * (n - 1);
            &&& spun(plan, trace, k, SpinPolicy::ExternalCancel)
            &&& did(plan, trace, k + 1, Effect::Lock)
            &&& gave(plan, trace, k + 2, Script::Recovery, 42)
            &&& did(plan, trace, k + 3, Effect::Unlock)
        }),
{
    let plan = probes::lifecycle_reuse_steps();
    let k = 61 + 4 * (n - 1);
    crate::report_laws::lemma_lifecycle_is_well_formed();
    lemma_course(plan, trace);
    failures::lemma_lifecycle_step(k);
    failures::lemma_lifecycle_step(k + 1);
    failures::lemma_lifecycle_step(k + 2);
    failures::lemma_lifecycle_step(k + 3);
}

proof fn lemma_lifecycle_part(trace: Seq<Observation>, part: Seq<Step>, offset: int)
    requires
        failures::ends_with(probes::lifecycle_reuse_steps(), trace, 0),
        0 <= offset,
        offset + part.len() <= 97,
        forall|k: int|
            offset <= k < offset + part.len() ==> #[trigger] failures::lifecycle_step(k)
                == part[k - offset],
    ensures
        probes::lifecycle_reuse_steps().len() == 97,
        probe::plan_wf(probes::lifecycle_reuse_steps()),
        probes::lifecycle_reuse_steps().subrange(offset, offset + part.len()) == part,
{
    let plan = probes::lifecycle_reuse_steps();
    crate::report_laws::lemma_lifecycle_is_well_formed();
    failures::lemma_lifecycle_step(0);
    assert forall|j: int| 0 <= j < part.len() implies plan[offset + j] == #[trigger] part[j] by {
        failures::lemma_lifecycle_step(offset + j);
        assert(failures::lifecycle_step(offset + j) == part[j]);
    }
    assert(plan.subrange(offset, offset + part.len()) == part);
}

/// The lifecycle probe ends with status zero only after all of this, in this order, before the
/// first invocation.
#[verifier::spinoff_prover]
#[verifier::rlimit(30)]
pub proof fn law_course_of_the_lifecycle_probe_setup(trace: Seq<Observation>)
    requires
        failures::ends_with(probes::lifecycle_reuse_steps(), trace, 0),
    ensures
        ({
            let plan = probes::lifecycle_reuse_steps();
            &&& did(plan, trace, 0, Effect::ResetSyncCounters)
            &&& did(plan, trace, 1, Effect::ResetAsyncCounters)
            &&& did(plan, trace, 2, Effect::EnsureWaker)
            &&& did(plan, trace, 3, Effect::ProbeLock)
            &&& did(plan, trace, 4, Effect::MaterializeTermination)
            &&& did(plan, trace, 5, Effect::InstallSyncHostCall)
            &&& did(plan, trace, 6, Effect::InstallAsyncHostCall)
            &&& gave(plan, trace, 7, Script::LifecycleContext, 1)
            &&& ran(plan, trace, 8, Script::Bundle(BundleUse::Lifecycle))
            &&& did(plan, trace, 9, Effect::Unlock)
        }),
{
    let plan = probes::lifecycle_reuse_steps();
    let part = plan_parts::lifecycle_setup_steps();
    lemma_lifecycle_part(trace, part, 0);
    lemma_course_of_part(plan, part, 0, trace);
}

/// The lifecycle probe ends with status zero only after all of this, in this order, after the
/// cancellations: one invocation more, with a body of its own and the next id, then the counters,
/// the state, and the report.
#[verifier::spinoff_prover]
#[verifier::rlimit(30)]
pub proof fn law_course_of_the_lifecycle_probe_after_the_cancellations(trace: Seq<Observation>)
    requires
        failures::ends_with(probes::lifecycle_reuse_steps(), trace, 0),
    ensures
        ({
            let plan = probes::lifecycle_reuse_steps();
            &&& invoked(plan, trace, 73, LifecycleBody::PostCancel, 9)
            &&& counted(plan, trace, 79, Counter::AsyncCalls, 9)
            &&& counted(plan, trace, 80, Counter::TaskRuns, 9)
            &&& counted(plan, trace, 81, Counter::SyncCalls, 9)
            &&& did(plan, trace, 82, Effect::ProbeLock)
            &&& gave(plan, trace, 83, Script::LifecycleState { expected_total: 9 }, 42)
            &&& did(plan, trace, 84, Effect::Unlock)
        }),
{
    let plan = probes::lifecycle_reuse_steps();
    let again = plan_parts::lifecycle_invocation_steps(LifecycleBody::PostCancel, 9, 241);
    lemma_lifecycle_part(trace, again, 73);
    lemma_invoked(plan, trace, 73, LifecycleBody::PostCancel, 9, 241);
    let counts = plan_parts::lifecycle_counts_steps(9, 244);
    let state = plan_parts::lifecycle_state_steps();
    lemma_lifecycle_part(trace, counts, 79);
    lemma_course_of_part(plan, counts, 79, trace);
    lemma_lifecycle_part(trace, state, 82);
    lemma_course_of_part(plan, state, 82, trace);
}

/// The report of the lifecycle probe, line by line.
#[verifier::spinoff_prover]
#[verifier::rlimit(30)]
pub proof fn law_course_of_the_lifecycle_probe_report(trace: Seq<Observation>)
    requires
        failures::ends_with(probes::lifecycle_reuse_steps(), trace, 0),
    ensures
        ({
            let plan = probes::lifecycle_reuse_steps();
            &&& printed(
                plan,
                trace,
                85,
                ReportLine::Text("nimbus bun embed lifecycle reuse stress:"),
            )
            &&& printed(
                plan,
                trace,
                86,
                ReportLine::Count { label: "fresh_vm_create_invoke_destroy_iterations", value: 4 },
            )
            &&& printed(
                plan,
                trace,
                87,
                ReportLine::Count { label: "retained_vm_invocations_before_cancel", value: 8 },
            )
            &&& printed(
                plan,
                trace,
                88,
                ReportLine::Count { label: "external_cancel_recovery_iterations", value: 3 },
            )
            &&& printed(
                plan,
                trace,
                89,
                ReportLine::Text("  external_cancel_trigger: spin_entered_ack"),
            )
            &&& printed(
                plan,
                trace,
                90,
                ReportLine::Text("  cancellation_timing_policy: state_ack_not_sleep"),
            )
            &&& printed(
                plan,
                trace,
                91,
                ReportLine::Text("  normal_completion_before_cancel: retained_invocations_ok"),
            )
            &&& printed(
                plan,
                trace,
                92,
                ReportLine::Text("  promise_microtask_progress: async_host_bridge_ok"),
            )
            &&& printed(
                plan,
                trace,
                93,
                ReportLine::Text("  teardown_loop: fresh_vm_create_invoke_destroy_ok"),
            )
            &&& printed(
                plan,
                trace,
                94,
                ReportLine::Text("  retained_vm_post_cancel_invocation: ok"),
            )
            &&& printed(
                plan,
                trace,
                95,
                ReportLine::Text("  retained_vm_reuse: trusted_generated_wrapper_ok"),
            )
            &&& printed(
                plan,
                trace,
                96,
                ReportLine::Text(
                    "  product_first_policy: fresh_vm_or_discard_with_outer_quota_required",
                ),
            )
            &&& was_through(plan, trace, 97)
        }),
{
    let plan = probes::lifecycle_reuse_steps();
    let part = plan_parts::lifecycle_report_steps();
    lemma_lifecycle_part(trace, part, 85);
    lemma_course_of_part(plan, part, 85, trace);
}

/// An invocation ends with status zero only after all of this, in this order. The transport of the
/// host bridge is in place before tenant code is evaluated, and only where the caller brought a
/// host bridge.
#[verifier::spinoff_prover]
#[verifier::rlimit(30)]
pub proof fn law_course_of_an_invocation(host_bridge: bool, trace: Seq<Observation>)
    requires
        failures::ends_with(probes::program_invocation_steps(host_bridge), trace, 0),
    ensures
        ({
            let plan = probes::program_invocation_steps(host_bridge);
            let k = if host_bridge {
                8int
            } else {
                6int
            };
            &&& did(plan, trace, 0, Effect::EnsureWaker)
            &&& did(plan, trace, 1, Effect::DenyResolution)
            &&& did(plan, trace, 2, Effect::ProbeLock)
            &&& failures::asked(plan, trace, 3) == Action::ParseRequest
            &&& trace[3] == (Observation::Request { empty: false, object: true, exception: false })
            &&& did(plan, trace, 4, Effect::ProtectRequest)
            &&& failures::asked(plan, trace, 5) == Action::ApplyDenyProfile
            &&& trace[5] == Observation::Done
            &&& host_bridge ==> did(plan, trace, 6, Effect::InstallHostBridgeCall) && gave(
                plan,
                trace,
                7,
                Script::HostBridgeTransport,
                1,
            )
            &&& ran(plan, trace, k, Script::ProgramWrapper)
            &&& failures::asked(plan, trace, k + 1) == Action::LookupInvoke
            &&& trace[k + 1] == Observation::Callable
            &&& failures::asked(plan, trace, k + 2) == Action::CallInvoke
            &&& trace[k + 2] != Observation::Threw
            &&& trace[k + 2] == Observation::Promise ==> {
                &&& failures::asked(plan, trace, k + 3) == Action::Settle
                &&& trace[k + 3] is Number || trace[k + 3] == Observation::Other
            }
            &&& trace[k + 2] != Observation::Promise ==> did_nothing(plan, trace, k + 3)
            &&& failures::asked(plan, trace, k + 4) == Action::Stringify
            &&& trace[k + 4] == Observation::Done
            &&& did(plan, trace, k + 5, Effect::LetRequestGo)
            &&& did(plan, trace, k + 6, Effect::Unlock)
            &&& was_through(plan, trace, k + 7)
        }),
{
    let plan = probes::program_invocation_steps(host_bridge);
    let k = if host_bridge {
        8int
    } else {
        6int
    };
    crate::guarantees::lemma_plans_are_well_formed();
    lemma_course(plan, trace);
    assert(probe_laws::fair(RunState::start(plan), trace)) by {
        reveal(failures::ends_with);
    }
    failures::lemma_nothing_awaited(plan, trace, k + 2);
}

} // verus!
