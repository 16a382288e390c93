//! What a probe has shown when it ends with status zero, and what an invocation never does.
use vstd::prelude::*;

use crate::plan_parts;
use crate::probe;
use crate::probe::{
    Action, Counter, Effect, Memory, Observation, PromiseSlot, RunState, Step,
};
use crate::probe_laws;
use crate::probes;
use crate::script::Script;
use crate::surfaces;
use crate::surfaces::PERMISSION_SURFACE_COUNT;

verus! {

/// Everything that `earlier` holds stands at the same place in `later`.
pub open spec fn extends(earlier: Memory, later: Memory) -> bool {
    &&& earlier.readings.len() <= later.readings.len()
    &&& earlier.heap.len() <= later.heap.len()
    &&& forall|i: int|
        0 <= i < earlier.readings.len() ==> #[trigger] later.readings[i] == earlier.readings[i]
    &&& forall|i: int|
        0 <= i < earlier.heap.len() ==> #[trigger] later.heap[i] == earlier.heap[i]
}

/// A run never changes or forgets what it has read.
pub proof fn law_readings_are_kept(plan: Seq<Step>, trace: Seq<Observation>, k: int)
    requires
        0 <= k <= trace.len(),
    ensures
        extends(
            probe_laws::memory_before(plan, trace, k),
            probe_laws::feed(RunState::start(plan), trace).memory,
        ),
    decreases trace.len(),
{
    assert(trace.take(trace.len() as int) == trace);
    if k < trace.len() {
        law_readings_are_kept(plan, trace.drop_last(), k);
        assert(trace.drop_last().take(k) == trace.take(k));
    }
}

/// Step `k` reads this counter, and it was `n`.
pub open spec fn counter_was(
    plan: Seq<Step>,
    trace: Seq<Observation>,
    k: int,
    counter: Counter,
    n: i32,
) -> bool {
    &&& plan[k] matches Step::CounterIs { counter: read, .. } && read == counter
    &&& trace[k] == Observation::Number(n)
}

/// Step `k` evaluates this program, and it returned `n`.
pub open spec fn program_gave(
    plan: Seq<Step>,
    trace: Seq<Observation>,
    k: int,
    script: Script,
    n: i32,
) -> bool {
    &&& plan[k] matches Step::Evaluate { script: evaluated, .. } && evaluated == script
    &&& trace[k] == Observation::Number(n)
}

/// A zero status of the synchronous probe: the program called the host function once, with 41, and
/// got the 42 that it returned.
pub proof fn law_sync_call_arrives_once(trace: Seq<Observation>)
    requires
        ({
            let start = RunState::start(plan_parts::sync_host_call_steps());
            &&& probe_laws::fair(start, trace)
            &&& probe_laws::feed(start, trace).status() == Some(0i32)
        }),
    ensures
        ({
            let plan = plan_parts::sync_host_call_steps();
            &&& program_gave(plan, trace, 3, Script::SyncHostCall, 42)
            &&& counter_was(plan, trace, 4, Counter::SyncCalls, 1)
            &&& counter_was(plan, trace, 5, Counter::SyncPayload, 41)
            &&& counter_was(plan, trace, 6, Counter::SyncReturned, 42)
        }),
{
    let plan = plan_parts::sync_host_call_steps();
    lemma_plans_are_well_formed();
    probe_laws::law_zero_means_every_step_passed(plan, trace);
    assert(probe_laws::passes(plan, trace, 3) && probe_laws::passes(plan, trace, 4));
    assert(probe_laws::passes(plan, trace, 5) && probe_laws::passes(plan, trace, 6));
}

/// A zero status of the asynchronous probe: the program called the host function once, with 41; no
/// task ran before the promise was waited for, and one ran by the end of the wait; and the promise
/// and the program got its 42.
pub proof fn law_async_task_runs_in_the_wait(trace: Seq<Observation>)
    requires
        ({
            let start = RunState::start(plan_parts::async_host_call_steps());
            &&& probe_laws::fair(start, trace)
            &&& probe_laws::feed(start, trace).status() == Some(0i32)
        }),
    ensures
        ({
            let plan = plan_parts::async_host_call_steps();
            &&& counter_was(plan, trace, 6, Counter::AsyncCalls, 1)
            &&& counter_was(plan, trace, 7, Counter::AsyncPayload, 41)
            &&& counter_was(plan, trace, 8, Counter::TaskRuns, 0)
            &&& plan[11] is Await && trace[11] == Observation::Done
            &&& counter_was(plan, trace, 12, Counter::TaskRuns, 1)
            &&& counter_was(plan, trace, 13, Counter::TaskReturned, 42)
            &&& plan[15] is Resolved && trace[15] == Observation::Number(42)
            &&& program_gave(plan, trace, 16, Script::AsyncObserved, 42)
        }),
{
    let plan = plan_parts::async_host_call_steps();
    lemma_plans_are_well_formed();
    probe_laws::law_zero_means_every_step_passed(plan, trace);
    assert(probe_laws::passes(plan, trace, 6) && probe_laws::passes(plan, trace, 7));
    assert(probe_laws::passes(plan, trace, 8) && probe_laws::passes(plan, trace, 11));
    assert(probe_laws::passes(plan, trace, 12) && probe_laws::passes(plan, trace, 13));
    assert(probe_laws::passes(plan, trace, 15) && probe_laws::passes(plan, trace, 16));
}

/// A zero status of the bundle probe: before the wait there was one asynchronous call, and neither
/// a task nor a synchronous call; after it there was one of each, and the mutation gave 42.
pub proof fn law_bundle_calls_the_host_once_each_way(trace: Seq<Observation>)
    requires
        ({
            let start = RunState::start(probes::program_bundle_steps());
            &&& probe_laws::fair(start, trace)
            &&& probe_laws::feed(start, trace).status() == Some(0i32)
        }),
    ensures
        ({
            let plan = probes::program_bundle_steps();
            &&& counter_was(plan, trace, 10, Counter::AsyncCalls, 1)
            &&& counter_was(plan, trace, 11, Counter::AsyncPayload, 41)
            &&& counter_was(plan, trace, 12, Counter::TaskRuns, 0)
            &&& counter_was(plan, trace, 13, Counter::SyncCalls, 0)
            &&& plan[16] is Await && trace[16] == Observation::Done
            &&& counter_was(plan, trace, 17, Counter::TaskRuns, 1)
            &&& counter_was(plan, trace, 18, Counter::TaskReturned, 42)
            &&& counter_was(plan, trace, 19, Counter::SyncCalls, 1)
            &&& counter_was(plan, trace, 20, Counter::SyncPayload, 41)
            &&& counter_was(plan, trace, 21, Counter::SyncReturned, 42)
            &&& plan[24] is Resolved && trace[24] == Observation::Number(42)
            &&& program_gave(plan, trace, 25, Script::BundleState, 42)
        }),
{
    let plan = probes::program_bundle_steps();
    lemma_plans_are_well_formed();
    probe_laws::law_zero_means_every_step_passed(plan, trace);
    assert(plan_parts::bundle_start_steps().len() == 10);
    assert(probe_laws::passes(plan, trace, 10) && probe_laws::passes(plan, trace, 11));
    assert(probe_laws::passes(plan, trace, 12) && probe_laws::passes(plan, trace, 13));
    assert(probe_laws::passes(plan, trace, 16) && probe_laws::passes(plan, trace, 17));
    assert(probe_laws::passes(plan, trace, 18) && probe_laws::passes(plan, trace, 19));
    assert(probe_laws::passes(plan, trace, 20) && probe_laws::passes(plan, trace, 21));
    assert(probe_laws::passes(plan, trace, 24) && probe_laws::passes(plan, trace, 25));
}

proof fn lemma_lifecycle_lengths(n: nat)
    ensures
        probes::retained_invocation_steps(n).len() == 6 * n,
        probes::cancel_and_recover_steps(n).len() == 4 * n,
    decreases n,
{
    if n > 0 {
        lemma_lifecycle_lengths((n - 1) as nat);
    }
}

/// Where the counters of the lifecycle probe are read, and where its state is.
proof fn lemma_lifecycle_places()
    ensures
        ({
            let plan = probes::lifecycle_reuse_steps();
            let counts = plan_parts::lifecycle_counts_steps(8, 236);
            let counts_again = plan_parts::lifecycle_counts_steps(9, 244);
            &&& plan.len() == 97
            &&& plan[58] == counts[0] && plan[59] == counts[1] && plan[60] == counts[2]
            &&& plan[79] == counts_again[0] && plan[80] == counts_again[1] && plan[81]
                == counts_again[2]
            &&& plan[83] == plan_parts::lifecycle_state_steps()[1]
        }),
{
    lemma_lifecycle_lengths(8);
    lemma_lifecycle_lengths(3);
}

/// A zero status of the lifecycle probe: before the cancellations there were eight calls and eight
/// tasks, one for each invocation that shares the machine; after them, with one invocation more,
/// there were nine of each kind, and the programs saw as many.
pub proof fn law_lifecycle_counts_nine_calls_of_each_kind(trace: Seq<Observation>)
    requires
        ({
            let start = RunState::start(probes::lifecycle_reuse_steps());
            &&& probe_laws::fair(start, trace)
            &&& probe_laws::feed(start, trace).status() == Some(0i32)
        }),
    ensures
        ({
            let plan = probes::lifecycle_reuse_steps();
            &&& counter_was(plan, trace, 58, Counter::AsyncCalls, 8)
            &&& counter_was(plan, trace, 59, Counter::TaskRuns, 8)
            &&& counter_was(plan, trace, 60, Counter::SyncCalls, 8)
            &&& counter_was(plan, trace, 79, Counter::AsyncCalls, 9)
            &&& counter_was(plan, trace, 80, Counter::TaskRuns, 9)
            &&& counter_was(plan, trace, 81, Counter::SyncCalls, 9)
            &&& program_gave(plan, trace, 83, Script::LifecycleState { expected_total: 9 }, 42)
        }),
{
    let plan = probes::lifecycle_reuse_steps();
    crate::report_laws::lemma_lifecycle_is_well_formed();
    probe_laws::law_zero_means_every_step_passed(plan, trace);
    lemma_lifecycle_places();
    assert(probe_laws::passes(plan, trace, 58) && probe_laws::passes(plan, trace, 59));
    assert(probe_laws::passes(plan, trace, 60) && probe_laws::passes(plan, trace, 79));
    assert(probe_laws::passes(plan, trace, 80) && probe_laws::passes(plan, trace, 81));
    assert(probe_laws::passes(plan, trace, 83));
}

/// A zero status of the inventory: every surface is absent, denied or under the deny profile.
pub proof fn law_inventory_accepts_only_safe_surfaces(trace: Seq<Observation>, surface: int)
    requires
        ({
            let start = RunState::start(probes::permission_surface_inventory_steps());
            &&& probe_laws::fair(start, trace)
            &&& probe_laws::feed(start, trace).status() == Some(0i32)
        }),
        0 <= surface < PERMISSION_SURFACE_COUNT,
    ensures
        trace.len() > 9 + 2 * surface,
        trace[9 + 2 * surface] matches Observation::Number(class)
            && surfaces::is_safe_classification(class as int),
{
    let plan = probes::permission_surface_inventory_steps();
    lemma_plans_are_well_formed();
    probe_laws::law_zero_means_every_step_passed(plan, trace);
    let k = 9 + 2 * surface;
    assert(plan[k] == probes::surface_step(2 * surface));
    assert(probe_laws::passes(plan, trace, k));
}

/// A zero status of the module policy probe: `require` is absent, and every other way to a
/// module was denied by the resolver.
pub proof fn law_module_policy_denies_every_way(trace: Seq<Observation>)
    requires
        ({
            let start = RunState::start(probes::package_module_policy_steps());
            &&& probe_laws::fair(start, trace)
            &&& probe_laws::feed(start, trace).status() == Some(0i32)
        }),
    ensures
        ({
            let readings = probe_laws::feed(
                RunState::start(probes::package_module_policy_steps()),
                trace,
            ).memory.readings;
            readings == seq![8i32, 8, 8, 8, 1, 8, 8, 8, 8, 8]
        }),
{
    let plan = probes::package_module_policy_steps();
    lemma_plans_are_well_formed();
    probe_laws::law_zero_means_every_step_passed(plan, trace);
    let verdict = plan.len() - 10;
    assert(plan_parts::module_verdict_steps().len() == 10);
    assert forall|j: int| 0 <= j < 10 implies #[trigger] plan[verdict + j]
        == plan_parts::module_verdict_steps()[j] by {}
    let readings = probe_laws::feed(RunState::start(plan), trace).memory.readings;
    assert forall|j: int| 0 <= j < 10 implies (#[trigger] plan_parts::module_verdict_steps()[j])
        matches Step::ReadingIs { index, expected, .. } && readings.len() > index
        && readings[index as int] == expected by {
        assert(plan[verdict + j] == plan_parts::module_verdict_steps()[j]);
        assert(probe_laws::passes(plan, trace, verdict + j));
        law_readings_are_kept(plan, trace, verdict + j);
    }
    let steps = plan_parts::module_verdict_steps();
    assert(steps[0] matches Step::ReadingIs { index: 4, expected: 1, .. });
    assert(steps[1] matches Step::ReadingIs { index: 0, expected: 8, .. });
    assert(steps[2] matches Step::ReadingIs { index: 1, expected: 8, .. });
    assert(steps[3] matches Step::ReadingIs { index: 2, expected: 8, .. });
    assert(steps[4] matches Step::ReadingIs { index: 3, expected: 8, .. });
    assert(steps[5] matches Step::ReadingIs { index: 5, expected: 8, .. });
    assert(steps[6] matches Step::ReadingIs { index: 6, expected: 8, .. });
    assert(steps[7] matches Step::ReadingIs { index: 7, expected: 8, .. });
    assert(steps[8] matches Step::ReadingIs { index: 8, expected: 8, .. });
    assert(steps[9] matches Step::ReadingIs { index: 9, expected: 8, .. });
    crate::report_laws::lemma_module();
    probe_laws::lemma_feed(plan, trace);
    let end = plan.len() as int;
    crate::report_laws::lemma_memory_is_counted(plan, trace, end, 10, 0);
    lemma_nothing_is_read_after_the_end(plan, trace, end);
}

/// What comes after the last step of a plan is not read.
proof fn lemma_nothing_is_read_after_the_end(plan: Seq<Step>, trace: Seq<Observation>, end: int)
    requires
        probe::plan_wf(plan),
        probe_laws::fair(RunState::start(plan), trace),
        end == plan.len(),
        probe_laws::feed(RunState::start(plan), trace).at >= end,
        end <= trace.len(),
    ensures
        probe_laws::feed(RunState::start(plan), trace).memory == probe_laws::memory_before(
            plan,
            trace,
            end,
        ),
    decreases trace.len(),
{
    let start = RunState::start(plan);
    if trace.len() > end {
        let shorter = trace.drop_last();
        probe_laws::lemma_feed(plan, trace);
        assert(shorter.take(end) == trace.take(end));
        let ended = probe_laws::feed(start, trace.take(end));
        assert(ended.at == end);
        probe_laws::lemma_shorter_is_fair(start, trace, trace.len() - 1);
        assert(trace.take(trace.len() - 1) == shorter);
        probe_laws::lemma_feed(plan, shorter);
        let before = probe_laws::feed(start, shorter);
        assert(shorter.take(shorter.len() as int) == shorter);
        if before.at < end {
            assert(before.at >= end - 1);
        }
        lemma_nothing_is_read_after_the_end(plan, shorter, end);
    } else {
        assert(trace.take(end) == trace);
    }
}

/// A zero status of the memory probe: of the two full collections before and after the payloads
/// were retained, the second left the larger heap.
pub proof fn law_memory_probe_sees_the_retained_payloads(trace: Seq<Observation>)
    requires
        ({
            let start = RunState::start(probes::memory_behavior_steps());
            &&& probe_laws::fair(start, trace)
            &&& probe_laws::feed(start, trace).status() == Some(0i32)
        }),
    ensures
        probes::memory_behavior_steps()[9] == Step::CollectGarbage,
        probes::memory_behavior_steps()[15] == (Step::Await {
            slot: PromiseSlot::Invocation,
            failed: 185,
        }),
        probes::memory_behavior_steps()[23] == Step::CollectGarbage,
        trace.len() > 23,
        trace[9] is Bytes,
        trace[23] is Bytes,
        trace[9]->Bytes_0 < trace[23]->Bytes_0,
{
    let plan = probes::memory_behavior_steps();
    lemma_plans_are_well_formed();
    probe_laws::lemma_feed(plan, trace);
    probe_laws::law_zero_means_every_step_passed(plan, trace);
    let k = plan.len() - 1;
    assert(plan[k] == (Step::HeapGrew { before: 0, after: 3, flat: 192 }));
    assert(probe_laws::passes(plan, trace, k));
    law_readings_are_kept(plan, trace, k);
    crate::report_laws::lemma_memory();
    lemma_sample(plan, trace, 9, 0);
    lemma_sample(plan, trace, 23, 3);
}

/// The sample that a collection takes is the one that is kept for it.
proof fn lemma_sample(plan: Seq<Step>, trace: Seq<Observation>, k: int, sample: nat)
    requires
        plan == probes::memory_behavior_steps(),
        probe_laws::fair(RunState::start(plan), trace),
        probe_laws::feed(RunState::start(plan), trace).status() == Some(0i32),
        (k == 9 && sample == 0) || (k == 23 && sample == 3),
    ensures
        trace.len() > k,
        trace[k] is Bytes,
        probe_laws::feed(RunState::start(plan), trace).memory.heap.len() > sample,
        probe_laws::feed(RunState::start(plan), trace).memory.heap[sample as int]
            == trace[k]->Bytes_0,
{
    let start = RunState::start(plan);
    lemma_plans_are_well_formed();
    crate::report_laws::lemma_memory();
    probe_laws::lemma_feed(plan, trace);
    probe_laws::law_zero_means_every_step_passed(plan, trace);
    assert(plan[k] == Step::CollectGarbage);
    crate::report_laws::lemma_memory_samples();
    crate::report_laws::lemma_memory_is_counted(plan, trace, k, 0, 6);
    let before = probe_laws::feed(start, trace.take(k));
    assert(before.at == k);
    assert(probe::answers(before.action(), trace[k]));
    assert(trace.take(k + 1).drop_last() == trace.take(k));
    law_readings_are_kept(plan, trace, k + 1);
    let after = probe_laws::memory_before(plan, trace, k + 1);
    assert(after.heap == before.memory.heap.push(trace[k]->Bytes_0));
    assert(after.heap[sample as int] == trace[k]->Bytes_0);
}

/// Whatever happens, the cancellation probe never evaluates the program whose token was
/// cancelled before entry.
pub proof fn law_cancelled_program_is_never_evaluated(trace: Seq<Observation>)
    requires
        probe_laws::fair(RunState::start(probes::timeout_and_cancel_steps()), trace),
    ensures
        probe_laws::feed(RunState::start(probes::timeout_and_cancel_steps()), trace).action()
            != Action::Evaluate(Script::PreEntry),
{
    let plan = probes::timeout_and_cancel_steps();
    lemma_plans_are_well_formed();
    probe_laws::lemma_feed(plan, trace);
}

/// A zero status of the cancellation probe: the machine ran a program after each of the three
/// cancellations, and both spinning programs were interrupted as they should be.
pub proof fn law_machine_recovers_from_every_cancellation(trace: Seq<Observation>)
    requires
        ({
            let start = RunState::start(probes::timeout_and_cancel_steps());
            &&& probe_laws::fair(start, trace)
            &&& probe_laws::feed(start, trace).status() == Some(0i32)
        }),
    ensures
        forall|k: int|
            0 <= k < probes::timeout_and_cancel_steps().len() ==> match (
            #[trigger] probes::timeout_and_cancel_steps()[k]) {
                Step::Spin(_) => trace[k] == Observation::Done,
                Step::Evaluate { script: Script::Recovery, .. } => trace[k]
                    == Observation::Number(42),
                Step::Evaluate { script: Script::PreEntryState, .. } => trace[k]
                    == Observation::Number(1),
                _ => true,
            },
{
    let plan = probes::timeout_and_cancel_steps();
    lemma_plans_are_well_formed();
    probe_laws::law_zero_means_every_step_passed(plan, trace);
    assert forall|k: int| 0 <= k < plan.len() implies match (#[trigger] plan[k]) {
        Step::Spin(_) => trace[k] == Observation::Done,
        Step::Evaluate { script: Script::Recovery, .. } => trace[k] == Observation::Number(42),
        Step::Evaluate { script: Script::PreEntryState, .. } => trace[k] == Observation::Number(1),
        _ => true,
    } by {
        assert(probe_laws::passes(plan, trace, k));
    }
}

/// The bundle of an invocation is evaluated only once the request has been parsed, the deny
/// profile has been applied and, where there is a host bridge, its transport has hidden it.
pub proof fn law_tenant_code_runs_behind_the_deny_profile(
    host_bridge: bool,
    trace: Seq<Observation>,
)
    requires
        ({
            let start = RunState::start(probes::program_invocation_steps(host_bridge));
            &&& probe_laws::fair(start, trace)
            &&& probe_laws::feed(start, trace).action() == Action::Evaluate(Script::ProgramWrapper)
        }),
    ensures
        ({
            let plan = probes::program_invocation_steps(host_bridge);
            &&& trace.len() > 5
            &&& plan[3] is ParseRequest
            &&& trace[3] == (Observation::Request { empty: false, object: true, exception: false })
            &&& plan[5] is ApplyDenyProfile
            &&& trace[5] == Observation::Done
            &&& host_bridge ==> {
                &&& trace.len() > 7
                &&& program_gave(plan, trace, 7, Script::HostBridgeTransport, 1)
            }
        }),
{
    let plan = probes::program_invocation_steps(host_bridge);
    lemma_plans_are_well_formed();
    probe_laws::lemma_feed(plan, trace);
    let run = probe_laws::feed(RunState::start(plan), trace);
    assert(probe_laws::passes(plan, trace, 3));
    assert(probe_laws::passes(plan, trace, 5));
    if host_bridge {
        assert(probe_laws::passes(plan, trace, 7));
    }
}

/// A status of the inventory that is not zero names what failed: the setup, or one surface, whose
/// program threw where the status is even, and whose classification is not accepted where it is
/// odd.
pub proof fn law_inventory_status_names_the_surface(trace: Seq<Observation>, status: i32)
    requires
        ({
            let start = RunState::start(probes::permission_surface_inventory_steps());
            &&& probe_laws::fair(start, trace)
            &&& probe_laws::feed(start, trace).status() == Some(status)
        }),
        status != 0,
    ensures
        100 <= status <= 105 || {
            let surface = (status - 110) / 2;
            let k = 9 + 2 * surface;
            &&& 0 <= surface < PERMISSION_SURFACE_COUNT
            &&& status == 110 + 2 * surface || status == 111 + 2 * surface
            &&& k < trace.len()
            &&& status == 110 + 2 * surface <==> trace[k] == Observation::Threw
            &&& !(trace[k] matches Observation::Number(class)
                && surfaces::is_safe_classification(class as int))
        },
{
    let plan = probes::permission_surface_inventory_steps();
    lemma_plans_are_well_formed();
    let k = probe_laws::law_status_is_of_the_first_failure(plan, trace, status);
    let setup = plan_parts::permission_setup_steps();
    if k < 9 {
        assert(plan[k] == setup[k]);
    } else if k < plan.len() - 1 {
        assert(plan[k] == probes::surface_step(k - 9));
    }
}

/// No program is interrupted on a machine that has not made its termination exception: the plans
/// that interrupt one make it before.
pub proof fn law_termination_is_made_before_it_is_requested(plan: Seq<Step>, k: int)
    requires
        plan == probes::timeout_and_cancel_steps() || plan == probes::lifecycle_reuse_steps(),
        0 <= k < plan.len(),
        plan[k] is Spin,
    ensures
        exists|j: int| 0 <= j < k && #[trigger] plan[j] == Step::Perform(
            Effect::MaterializeTermination,
        ),
{
    if plan == probes::timeout_and_cancel_steps() {
        assert(plan[2] == Step::Perform(Effect::MaterializeTermination));
        assert(!(plan[0] is Spin) && !(plan[1] is Spin) && !(plan[2] is Spin));
    } else {
        let setup = plan_parts::lifecycle_setup_steps();
        assert(forall|j: int| 0 <= j < setup.len() ==> #[trigger] plan[j] == setup[j]);
        assert(plan[4] == Step::Perform(Effect::MaterializeTermination));
        assert(!(plan[0] is Spin) && !(plan[1] is Spin) && !(plan[2] is Spin));
        assert(!(plan[3] is Spin) && !(plan[4] is Spin));
    }
}

/// The plans are well-formed; `lemma_lifecycle_is_well_formed` says it of the lifecycle probe.
pub proof fn lemma_plans_are_well_formed()
    ensures
        probe::plan_wf(probes::permission_surface_inventory_steps()),
        probe::plan_wf(probes::package_module_policy_steps()),
        probe::plan_wf(probes::memory_behavior_steps()),
        probe::plan_wf(probes::timeout_and_cancel_steps()),
        probe::plan_wf(plan_parts::sync_host_call_steps()),
        probe::plan_wf(plan_parts::async_host_call_steps()),
        probe::plan_wf(probes::program_bundle_steps()),
        probe::plan_wf(probes::program_invocation_steps(true)),
        probe::plan_wf(probes::program_invocation_steps(false)),
{
}

} // verus!
