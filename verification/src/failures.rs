//! What the status of a probe says: which answer, to which action, ended it.
//!
//! A caller sees only the status. For each probe a relation says what that status means, in terms
//! of the action that was due and of the answer to it, and a law says that no run ends otherwise.
use vstd::prelude::*;

use crate::plan_parts;
use crate::probe;
use crate::probe::{Action, Counter, Memory, Observation, PromiseSlot, RunState, Step};
use crate::probe_laws;
use crate::probes;
use crate::script::{BundleUse, LifecycleBody, Script, SpinPolicy};

verus! {

/// The action that is due after the first `k` answers.
#[verifier::opaque]
pub open spec fn asked(plan: Seq<Step>, trace: Seq<Observation>, k: int) -> Action {
    probe_laws::feed(RunState::start(plan), trace.take(k)).action()
}

/// What has been read after the first `k` answers.
#[verifier::opaque]
pub open spec fn memory_at(plan: Seq<Step>, trace: Seq<Observation>, k: int) -> Memory {
    probe_laws::memory_before(plan, trace, k)
}

/// The run of the plan ends with this status on these answers, and each of them is one that the
/// action before it can have.
#[verifier::opaque]
pub open spec fn ends_with(plan: Seq<Step>, trace: Seq<Observation>, status: i32) -> bool {
    &&& probe_laws::fair(RunState::start(plan), trace)
    &&& probe_laws::feed(RunState::start(plan), trace).status() == Some(status)
}

/// The program threw.
pub open spec fn threw(action: Action, script: Script, seen: Observation) -> bool {
    action == Action::Evaluate(script) && seen == Observation::Threw
}

/// The program returned something else than the number.
pub open spec fn returned_other(
    action: Action,
    script: Script,
    number: i32,
    seen: Observation,
) -> bool {
    &&& action == Action::Evaluate(script)
    &&& seen != Observation::Threw
    &&& seen != Observation::Number(number)
}

/// The program returned something else than a promise.
pub open spec fn returned_no_promise(action: Action, script: Script, seen: Observation) -> bool {
    &&& action == Action::Evaluate(script)
    &&& seen != Observation::Threw
    &&& seen != Observation::Promise
}

/// The program returned something else than a number.
pub open spec fn returned_no_number(action: Action, script: Script, seen: Observation) -> bool {
    &&& action == Action::Evaluate(script)
    &&& seen != Observation::Threw
    &&& seen !is Number
}

/// The program returned neither a number nor a promise.
pub open spec fn returned_neither(action: Action, script: Script, seen: Observation) -> bool {
    action == Action::Evaluate(script) && seen == Observation::Other
}

/// The program ran although it must be rejected.
pub open spec fn was_accepted(action: Action, script: Script, seen: Observation) -> bool {
    action == Action::Evaluate(script) && seen != Observation::Threw
}

/// The counter stood at another number.
pub open spec fn counter_differs(
    action: Action,
    counter: Counter,
    number: i32,
    seen: Observation,
) -> bool {
    &&& action == Action::ReadCounter(counter)
    &&& seen matches Observation::Number(found)
    &&& found != number
}

/// The asynchronous host function had made no promise.
pub open spec fn no_host_promise(action: Action, seen: Observation) -> bool {
    action == Action::TakeHostPromise && seen == Observation::Other
}

/// Waiting for the promise failed.
pub open spec fn wait_failed(action: Action, slot: PromiseSlot, seen: Observation) -> bool {
    action == Action::Await(slot) && seen == Observation::WaitFailed
}

/// The promise was pending or rejected after the wait.
pub open spec fn stayed_unfulfilled(action: Action, slot: PromiseSlot, seen: Observation) -> bool {
    action == Action::CheckFulfilled(slot) && seen == Observation::Unfulfilled
}

/// The promise resolved to something else than the number.
pub open spec fn result_differs(
    action: Action,
    slot: PromiseSlot,
    number: i32,
    seen: Observation,
) -> bool {
    action == Action::ReadResult(slot) && seen != Observation::Number(number)
}

/// The promise that a program returned could not be waited for, or was not fulfilled.
pub open spec fn promise_failed(action: Action, seen: Observation) -> bool {
    &&& action == Action::Settle
    &&& seen == Observation::WaitFailed || seen == Observation::Unfulfilled
}

/// The promise that a program returned was fulfilled with something else than a number.
pub open spec fn promise_differs(action: Action, seen: Observation) -> bool {
    action == Action::Settle && seen == Observation::Other
}

/// The heap was not larger at sample `after` than at sample `before`.
pub open spec fn heap_is_flat(memory: Memory, before: int, after: int) -> bool {
    !(before < memory.heap.len() && after < memory.heap.len() && memory.heap[before]
        < memory.heap[after])
}

/// Number `index` of those that were read is another one.
pub open spec fn reading_differs(memory: Memory, index: int, number: i32) -> bool {
    !(index < memory.readings.len() && memory.readings[index] == number)
}

/// The run of the spinning program failed with this status.
pub open spec fn spin_failed(
    action: Action,
    policy: SpinPolicy,
    status: i32,
    seen: Observation,
) -> bool {
    action == Action::Spin(policy) && seen == Observation::Status(status)
}

/// Where a run that failed stood when it did: at the action of some step, with an answer to it
/// that the step does not let pass.
pub proof fn lemma_failure(plan: Seq<Step>, trace: Seq<Observation>, status: i32) -> (k: int)
    requires
        probe::plan_wf(plan),
        ends_with(plan, trace, status),
        status != 0,
    ensures
        0 <= k < trace.len(),
        k < plan.len(),
        asked(plan, trace, k) == probe::action_of(
            plan[k],
            memory_at(plan, trace, k),
        ),
        probe::answers(asked(plan, trace, k), trace[k]),
        !probe::accepts(plan[k], memory_at(plan, trace, k), trace[k]),
        status == probe::failure_status(plan[k], trace[k]),
{
    reveal(asked);
    reveal(memory_at);
    reveal(ends_with);
    let k = probe_laws::law_status_is_of_the_first_failure(plan, trace, status);
    probe_laws::law_actions_follow_the_plan(plan, trace, k);
    assert(probe::answers(
        probe_laws::feed(RunState::start(plan), trace.take(k)).action(),
        trace[k],
    ));
    k
}

/// What a status of the probe of the synchronous host call says.
pub open spec fn sync_reason(status: i32, action: Action, seen: Observation) -> bool {
    match status {
        2 => threw(action, Script::SyncHostCall, seen),
        3 => counter_differs(action, Counter::SyncCalls, 1, seen),
        4 => counter_differs(action, Counter::SyncPayload, 41, seen),
        5 => counter_differs(action, Counter::SyncReturned, 42, seen),
        6 => returned_other(action, Script::SyncHostCall, 42, seen),
        _ => false,
    }
}

/// A status of the probe of the synchronous host call says which answer ended it.
#[verifier::spinoff_prover]
#[verifier::rlimit(30)]
pub proof fn law_sync_status_says_what_failed(trace: Seq<Observation>, status: i32) -> (k: int)
    requires
        ends_with(plan_parts::sync_host_call_steps(), trace, status),
        status != 0,
    ensures
        0 <= k < trace.len(),
        sync_reason(
            status,
            asked(plan_parts::sync_host_call_steps(), trace, k),
            trace[k],
        ),
{
    crate::guarantees::lemma_plans_are_well_formed();
    lemma_failure(plan_parts::sync_host_call_steps(), trace, status)
}

/// What a status of the probe of the asynchronous host call says.
pub open spec fn async_reason(status: i32, action: Action, seen: Observation) -> bool {
    match status {
        10 => threw(action, Script::AsyncHostCall, seen),
        11 => counter_differs(action, Counter::AsyncCalls, 1, seen),
        12 => counter_differs(action, Counter::AsyncPayload, 41, seen),
        13 => counter_differs(action, Counter::TaskRuns, 0, seen),
        14 => no_host_promise(action, seen),
        15 => counter_differs(action, Counter::TaskRuns, 1, seen),
        16 => counter_differs(action, Counter::TaskReturned, 42, seen),
        17 => {
            ||| wait_failed(action, PromiseSlot::Host, seen)
            ||| stayed_unfulfilled(action, PromiseSlot::Host, seen)
        },
        18 => result_differs(action, PromiseSlot::Host, 42, seen),
        19 => threw(action, Script::AsyncObserved, seen),
        20 => returned_other(action, Script::AsyncObserved, 42, seen),
        _ => false,
    }
}

/// A status of the probe of the asynchronous host call says which answer ended it.
#[verifier::spinoff_prover]
#[verifier::rlimit(30)]
pub proof fn law_async_status_says_what_failed(trace: Seq<Observation>, status: i32) -> (k: int)
    requires
        ends_with(plan_parts::async_host_call_steps(), trace, status),
        status != 0,
    ensures
        0 <= k < trace.len(),
        async_reason(
            status,
            asked(plan_parts::async_host_call_steps(), trace, k),
            trace[k],
        ),
{
    crate::guarantees::lemma_plans_are_well_formed();
    lemma_failure(plan_parts::async_host_call_steps(), trace, status)
}

/// What a status of the probe of the program bundle says.
pub open spec fn bundle_reason(status: i32, action: Action, seen: Observation) -> bool {
    match status {
        21 => threw(action, Script::BundleContext, seen),
        22 => returned_other(action, Script::BundleContext, 1, seen),
        23 => threw(action, Script::Bundle(BundleUse::HostCalls), seen),
        24 => threw(action, Script::BundleInvoke, seen),
        25 => returned_no_promise(action, Script::BundleInvoke, seen),
        26 => counter_differs(action, Counter::AsyncCalls, 1, seen),
        28 => counter_differs(action, Counter::AsyncPayload, 41, seen),
        29 => counter_differs(action, Counter::TaskRuns, 0, seen),
        30 => counter_differs(action, Counter::SyncCalls, 0, seen),
        31 => no_host_promise(action, seen),
        32 => counter_differs(action, Counter::TaskRuns, 1, seen),
        33 => counter_differs(action, Counter::TaskReturned, 42, seen),
        34 => counter_differs(action, Counter::SyncCalls, 1, seen),
        35 => counter_differs(action, Counter::SyncPayload, 41, seen),
        36 => counter_differs(action, Counter::SyncReturned, 42, seen),
        37 => stayed_unfulfilled(action, PromiseSlot::Host, seen),
        38 => {
            ||| wait_failed(action, PromiseSlot::Invocation, seen)
            ||| stayed_unfulfilled(action, PromiseSlot::Invocation, seen)
        },
        39 => result_differs(action, PromiseSlot::Invocation, 42, seen),
        40 => threw(action, Script::BundleState, seen),
        41 => returned_other(action, Script::BundleState, 42, seen),
        _ => false,
    }
}

/// A status of the probe of the program bundle says which answer ended it.
#[verifier::spinoff_prover]
#[verifier::rlimit(30)]
pub proof fn law_bundle_status_says_what_failed(trace: Seq<Observation>, status: i32) -> (k: int)
    requires
        ends_with(probes::program_bundle_steps(), trace, status),
        status != 0,
    ensures
        0 <= k < trace.len(),
        bundle_reason(
            status,
            asked(probes::program_bundle_steps(), trace, k),
            trace[k],
        ),
{
    crate::guarantees::lemma_plans_are_well_formed();
    lemma_failure(probes::program_bundle_steps(), trace, status)
}

/// What a status of the probe of the cancellations says.
pub open spec fn timeout_reason(status: i32, k: int, action: Action, seen: Observation) -> bool {
    ||| spin_failed(action, SpinPolicy::Deadline, status, seen)
    ||| spin_failed(action, SpinPolicy::ExternalCancel, status, seen)
    ||| match status {
        42 => threw(action, Script::Bundle(BundleUse::Timeout), seen),
        50 => k == 15 && threw(action, Script::Recovery, seen),
        51 => k == 15 && returned_other(action, Script::Recovery, 42, seen),
        60 => k == 19 && threw(action, Script::Recovery, seen),
        61 => k == 19 && returned_other(action, Script::Recovery, 42, seen),
        62 => threw(action, Script::TimeoutContext, seen),
        63 => returned_other(action, Script::TimeoutContext, 1, seen),
        67 => k == 11 && threw(action, Script::Recovery, seen),
        68 => k == 11 && returned_other(action, Script::Recovery, 42, seen),
        70 => threw(action, Script::PreEntryState, seen),
        71 => returned_other(action, Script::PreEntryState, 1, seen),
        _ => false,
    }
}

/// A status of the probe of the cancellations says which answer ended it.
#[verifier::spinoff_prover]
#[verifier::rlimit(30)]
pub proof fn law_timeout_status_says_what_failed(trace: Seq<Observation>, status: i32) -> (k: int)
    requires
        ends_with(probes::timeout_and_cancel_steps(), trace, status),
        status != 0,
    ensures
        0 <= k < trace.len(),
        timeout_reason(
            status,
            k,
            asked(probes::timeout_and_cancel_steps(), trace, k),
            trace[k],
        ),
{
    crate::guarantees::lemma_plans_are_well_formed();
    lemma_failure(probes::timeout_and_cancel_steps(), trace, status)
}

/// What a status of the probe of the heap says.
pub open spec fn memory_reason(
    status: i32,
    action: Action,
    memory: Memory,
    seen: Observation,
) -> bool {
    match status {
        180 => threw(action, Script::MemoryContext, seen),
        181 => returned_other(action, Script::MemoryContext, 1, seen),
        182 => threw(action, Script::Bundle(BundleUse::Memory), seen),
        183 => threw(action, Script::MemoryInvocations, seen),
        184 => returned_no_promise(action, Script::MemoryInvocations, seen),
        185 => {
            ||| wait_failed(action, PromiseSlot::Invocation, seen)
            ||| stayed_unfulfilled(action, PromiseSlot::Invocation, seen)
        },
        186 => result_differs(action, PromiseSlot::Invocation, 16, seen),
        187 => counter_differs(action, Counter::AsyncCalls, 16, seen),
        188 => counter_differs(action, Counter::TaskRuns, 16, seen),
        189 => counter_differs(action, Counter::SyncCalls, 16, seen),
        190 => threw(action, Script::MemoryRelease, seen),
        191 => returned_other(action, Script::MemoryRelease, 1, seen),
        192 => action == Action::Nothing && heap_is_flat(memory, 0, 3),
        _ => false,
    }
}

/// A status of the probe of the heap says which answer ended it.
#[verifier::spinoff_prover]
#[verifier::rlimit(30)]
pub proof fn law_memory_status_says_what_failed(trace: Seq<Observation>, status: i32) -> (k: int)
    requires
        ends_with(probes::memory_behavior_steps(), trace, status),
        status != 0,
    ensures
        0 <= k < trace.len(),
        memory_reason(
            status,
            asked(probes::memory_behavior_steps(), trace, k),
            memory_at(probes::memory_behavior_steps(), trace, k),
            trace[k],
        ),
{
    crate::guarantees::lemma_plans_are_well_formed();
    lemma_failure(probes::memory_behavior_steps(), trace, status)
}

/// What a status of the probe of the ways to a module says.
pub open spec fn module_reason(
    status: i32,
    k: int,
    action: Action,
    memory: Memory,
    seen: Observation,
) -> bool {
    match status {
        200 => threw(action, Script::ModuleContext, seen),
        201 => returned_other(action, Script::ModuleContext, 1, seen),
        202 => threw(action, Script::Bundle(BundleUse::Module), seen),
        203 => threw(action, Script::WrapperLoaded, seen),
        204 => returned_other(action, Script::WrapperLoaded, 1, seen),
        206 => was_accepted(action, Script::StaticEsm, seen),
        207 => threw(action, Script::ImportNodeFs, seen),
        208 => k == 10 && promise_failed(action, seen),
        209 => {
            ||| returned_neither(action, Script::ImportNodeFs, seen)
            ||| k == 10 && promise_differs(action, seen)
        },
        212 => threw(action, Script::RequireStatus, seen),
        213 => returned_no_number(action, Script::RequireStatus, seen),
        214 => threw(action, Script::BunResolve, seen),
        215 => k == 29 && promise_failed(action, seen),
        216 => {
            ||| returned_neither(action, Script::BunResolve, seen)
            ||| k == 29 && promise_differs(action, seen)
        },
        217 => threw(action, Script::BunResolveSync, seen),
        218 => returned_no_number(action, Script::BunResolveSync, seen),
        219 => threw(action, Script::WrapperNodeBuiltin, seen),
        220 => k == 39 && promise_failed(action, seen),
        221 => threw(action, Script::WrapperExternalPackage, seen),
        222 => k == 43 && promise_failed(action, seen),
        223 => {
            ||| returned_neither(action, Script::WrapperNodeBuiltin, seen)
            ||| k == 39 && promise_differs(action, seen)
        },
        224 => {
            ||| returned_neither(action, Script::WrapperExternalPackage, seen)
            ||| k == 43 && promise_differs(action, seen)
        },
        230 => threw(action, Script::ImportPackage, seen),
        231 => k == 14 && promise_failed(action, seen),
        232 => {
            ||| returned_neither(action, Script::ImportPackage, seen)
            ||| k == 14 && promise_differs(action, seen)
        },
        233 => threw(action, Script::ImportPlugin, seen),
        234 => k == 18 && promise_failed(action, seen),
        235 => {
            ||| returned_neither(action, Script::ImportPlugin, seen)
            ||| k == 18 && promise_differs(action, seen)
        },
        236 => threw(action, Script::NativeAddonResolveSync, seen),
        237 => returned_no_number(action, Script::NativeAddonResolveSync, seen),
        240 => action == Action::Nothing && reading_differs(memory, 4, 1),
        241 => action == Action::Nothing && reading_differs(memory, 0, 8),
        242 => action == Action::Nothing && reading_differs(memory, 1, 8),
        243 => action == Action::Nothing && reading_differs(memory, 2, 8),
        244 => {
            ||| action == Action::Nothing && reading_differs(memory, 5, 8)
            ||| action == Action::Nothing && reading_differs(memory, 6, 8)
        },
        245 => action == Action::Nothing && reading_differs(memory, 7, 8),
        246 => {
            ||| action == Action::Nothing && reading_differs(memory, 8, 8)
            ||| action == Action::Nothing && reading_differs(memory, 9, 8)
        },
        247 => {
            ||| threw(action, Script::ImportNodeVm, seen)
            ||| action == Action::Nothing && reading_differs(memory, 3, 8)
        },
        248 => k == 22 && promise_failed(action, seen),
        249 => {
            ||| returned_neither(action, Script::ImportNodeVm, seen)
            ||| k == 22 && promise_differs(action, seen)
        },
        _ => false,
    }
}

/// A status of the probe of the ways to a module says which answer ended it.
#[verifier::spinoff_prover]
#[verifier::rlimit(30)]
pub proof fn law_module_status_says_what_failed(trace: Seq<Observation>, status: i32) -> (k: int)
    requires
        ends_with(probes::package_module_policy_steps(), trace, status),
        status != 0,
    ensures
        0 <= k < trace.len(),
        module_reason(
            status,
            k,
            asked(probes::package_module_policy_steps(), trace, k),
            memory_at(probes::package_module_policy_steps(), trace, k),
            trace[k],
        ),
{
    crate::guarantees::lemma_plans_are_well_formed();
    lemma_failure(probes::package_module_policy_steps(), trace, status)
}

/// What a status of the inventory says: the setup failed, or surface `i` has the program whose
/// statuses are `110 + 2 * i` where it threw and `111 + 2 * i` where it did not classify the
/// surface as absent, denied or under the deny profile.
pub open spec fn inventory_reason(status: i32, action: Action, seen: Observation) -> bool {
    match status {
        100 => threw(action, Script::PermissionContext, seen),
        101 => returned_other(action, Script::PermissionContext, 1, seen),
        102 => threw(action, Script::Bundle(BundleUse::Permission), seen),
        103 => threw(action, Script::PermissionHelpers, seen),
        104 => returned_other(action, Script::PermissionHelpers, 1, seen),
        105 => action == Action::ApplyDenyProfile && seen == Observation::Failed,
        _ => {
            &&& 110 <= status < 110 + 2 * 97
            &&& action == Action::Evaluate(Script::PermissionSurface(((status - 110) / 2) as usize))
            &&& status % 2 == 0 ==> seen == Observation::Threw
            &&& status % 2 == 1 ==> seen != Observation::Threw && seen != Observation::Number(1)
                && seen != Observation::Number(2) && seen != Observation::Number(3)
        },
    }
}

/// A status of the inventory says which answer ended it.
#[verifier::spinoff_prover]
#[verifier::rlimit(30)]
pub proof fn law_inventory_status_says_what_failed(
    trace: Seq<Observation>,
    status: i32,
) -> (k: int)
    requires
        ends_with(probes::permission_surface_inventory_steps(), trace, status),
        status != 0,
    ensures
        0 <= k < trace.len(),
        inventory_reason(
            status,
            asked(probes::permission_surface_inventory_steps(), trace, k),
            trace[k],
        ),
{
    let plan = probes::permission_surface_inventory_steps();
    crate::guarantees::lemma_plans_are_well_formed();
    let k = lemma_failure(plan, trace, status);
    if 9 <= k < 203 {
        assert(plan[k] == probes::surface_step(k - 9));
    }
    k
}

/// What the status of one lifecycle invocation says, where `base` is the first of its statuses.
pub open spec fn lifecycle_invocation_reason(
    body: LifecycleBody,
    message_id: int,
    base: int,
    status: i32,
    action: Action,
    seen: Observation,
) -> bool {
    let script = Script::LifecycleInvoke { body, message_id: message_id as i32 };
    ||| status == base && threw(action, script, seen)
    ||| status == base + 1 && returned_no_promise(action, script, seen)
    ||| status == base + 2 && (wait_failed(action, PromiseSlot::Invocation, seen)
        || stayed_unfulfilled(action, PromiseSlot::Invocation, seen))
    ||| status == base + 3 && result_differs(action, PromiseSlot::Invocation, 42, seen)
}

/// What the status of the counters of the lifecycle probe says, where `base` is the first of them.
pub open spec fn lifecycle_counts_reason(
    number: i32,
    base: int,
    status: i32,
    action: Action,
    seen: Observation,
) -> bool {
    ||| status == base && counter_differs(action, Counter::AsyncCalls, number, seen)
    ||| status == base + 1 && counter_differs(action, Counter::TaskRuns, number, seen)
    ||| status == base + 2 && counter_differs(action, Counter::SyncCalls, number, seen)
}

/// What a status of the lifecycle probe says. Some statuses have two meanings; the place in the
/// run tells them apart.
pub open spec fn lifecycle_reason(status: i32, k: int, action: Action, seen: Observation) -> bool {
    if k < 10 {
        match status {
            230 => threw(action, Script::LifecycleContext, seen),
            231 => returned_other(action, Script::LifecycleContext, 1, seen),
            232 => threw(action, Script::Bundle(BundleUse::Lifecycle), seen),
            _ => false,
        }
    } else if k < 58 {
        // Six steps for each of the invocations that share the machine.
        let n = (k - 10) / 6;
        lifecycle_invocation_reason(
            LifecycleBody::Reuse(n as i32),
            n + 1,
            233,
            status,
            action,
            seen,
        )
    } else if k < 61 {
        lifecycle_counts_reason(8, 236, status, action, seen)
    } else if k < 73 {
        ||| spin_failed(action, SpinPolicy::ExternalCancel, status, seen)
        ||| status == 239 && threw(action, Script::Recovery, seen)
        ||| status == 240 && returned_other(action, Script::Recovery, 42, seen)
    } else if k < 79 {
        lifecycle_invocation_reason(LifecycleBody::PostCancel, 9, 241, status, action, seen)
    } else if k < 82 {
        lifecycle_counts_reason(9, 244, status, action, seen)
    } else {
        ||| status == 242 && threw(action, Script::LifecycleState { expected_total: 9 }, seen)
        ||| status == 243 && returned_other(
            action,
            Script::LifecycleState { expected_total: 9 },
            42,
            seen,
        )
    }
}

/// Step `j` of invocation `n`, counted from zero, among the first `m` that share the machine.
pub proof fn lemma_retained_invocation(m: nat, n: int, j: int)
    requires
        0 <= n < m,
        0 <= j < 6,
        m <= 8,
    ensures
        probes::retained_invocation_steps(m).len() == 6 * m,
        probes::retained_invocation_steps(m)[6 * n + j] == plan_parts::lifecycle_invocation_steps(
            LifecycleBody::Reuse(n as i32),
            (n + 1) as i32,
            233,
        )[j],
    decreases m,
{
    let shorter = probes::retained_invocation_steps((m - 1) as nat);
    if n == m - 1 {
        lemma_lifecycle_lengths((m - 1) as nat);
    } else {
        lemma_retained_invocation((m - 1) as nat, n, j);
        assert(probes::retained_invocation_steps(m)[6 * n + j] == shorter[6 * n + j]);
    }
}

/// Step `j` of cancellation `n`, counted from zero, among the first `m`.
pub proof fn lemma_cancellation(m: nat, n: int, j: int)
    requires
        0 <= n < m,
        0 <= j < 4,
    ensures
        probes::cancel_and_recover_steps(m).len() == 4 * m,
        probes::cancel_and_recover_steps(m)[4 * n + j] == (if j == 0 {
            Step::Spin(SpinPolicy::ExternalCancel)
        } else {
            plan_parts::recovery_steps(239, 240)[j - 1]
        }),
    decreases m,
{
    let shorter = probes::cancel_and_recover_steps((m - 1) as nat);
    if n == m - 1 {
        lemma_lifecycle_lengths((m - 1) as nat);
    } else {
        lemma_cancellation((m - 1) as nat, n, j);
        assert(probes::cancel_and_recover_steps(m)[4 * n + j] == shorter[4 * n + j]);
    }
}

proof fn lemma_lifecycle_lengths(n: nat)
    ensures
        probes::retained_invocation_steps(n).len() == 6 * n,
        probes::cancel_and_recover_steps(n).len() == 4 * n,
    decreases n,
{
    if n > 0 {
        lemma_lifecycle_lengths((n - 1) as nat);
    }
}

/// Step `k` of the lifecycle probe.
pub open spec fn lifecycle_step(k: int) -> Step {
    if k < 10 {
        plan_parts::lifecycle_setup_steps()[k]
    } else if k < 58 {
        plan_parts::lifecycle_invocation_steps(
            LifecycleBody::Reuse(((k - 10) / 6) as i32),
            ((k - 10) / 6 + 1) as i32,
            233,
        )[(k - 10) % 6]
    } else if k < 61 {
        plan_parts::lifecycle_counts_steps(8, 236)[k - 58]
    } else if k < 73 {
        if (k - 61) % 4 == 0 {
            Step::Spin(SpinPolicy::ExternalCancel)
        } else {
            plan_parts::recovery_steps(239, 240)[(k - 61) % 4 - 1]
        }
    } else if k < 79 {
        plan_parts::lifecycle_invocation_steps(LifecycleBody::PostCancel, 9, 241)[k - 73]
    } else if k < 82 {
        plan_parts::lifecycle_counts_steps(9, 244)[k - 79]
    } else if k < 85 {
        plan_parts::lifecycle_state_steps()[k - 82]
    } else {
        plan_parts::lifecycle_report_steps()[k - 85]
    }
}

/// The lifecycle probe step by step.
#[verifier::spinoff_prover]
#[verifier::rlimit(30)]
pub proof fn lemma_lifecycle_step(k: int)
    requires
        0 <= k < 97,
    ensures
        probes::lifecycle_reuse_steps().len() == 97,
        probes::lifecycle_reuse_steps()[k] == lifecycle_step(k),
{
    lemma_lifecycle_lengths(8);
    lemma_lifecycle_lengths(3);
    let plan = probes::lifecycle_reuse_steps();
    if 10 <= k < 58 {
        lemma_retained_invocation(8, (k - 10) / 6, (k - 10) % 6);
        assert(plan[k] == probes::retained_invocation_steps(8)[k - 10]);
    } else if 61 <= k < 73 {
        lemma_cancellation(3, (k - 61) / 4, (k - 61) % 4);
        assert(plan[k] == probes::cancel_and_recover_steps(3)[k - 61]);
    }
}

/// A status of the lifecycle probe says which answer ended it.
#[verifier::spinoff_prover]
#[verifier::rlimit(30)]
pub proof fn law_lifecycle_status_says_what_failed(
    trace: Seq<Observation>,
    status: i32,
) -> (k: int)
    requires
        ends_with(probes::lifecycle_reuse_steps(), trace, status),
        status != 0,
    ensures
        0 <= k < trace.len(),
        lifecycle_reason(
            status,
            k,
            asked(probes::lifecycle_reuse_steps(), trace, k),
            trace[k],
        ),
{
    let plan = probes::lifecycle_reuse_steps();
    crate::report_laws::lemma_lifecycle_is_well_formed();
    let k = lemma_failure(plan, trace, status);
    lemma_lifecycle_lengths(8);
    lemma_lifecycle_lengths(3);
    lemma_lifecycle_step(k);
    k
}

/// What the status of an invocation says. An invocation without a host bridge installs none, so
/// that 309 and 310 come only with one.
pub open spec fn invocation_reason(
    host_bridge: bool,
    status: i32,
    action: Action,
    seen: Observation,
) -> bool {
    match status {
        301 => {
            &&& action == Action::ParseRequest
            &&& seen != (Observation::Request { empty: false, object: true, exception: false })
        },
        302 => threw(action, Script::ProgramWrapper, seen),
        303 => {
            ||| action == Action::LookupInvoke && seen == Observation::Other
            ||| action == Action::CallInvoke && seen == Observation::Threw
        },
        304 => promise_failed(action, seen),
        305 => action == Action::Stringify && seen == Observation::Threw,
        306 => action == Action::Stringify && seen == Observation::Dead,
        309 => host_bridge && threw(action, Script::HostBridgeTransport, seen),
        310 => host_bridge && returned_other(action, Script::HostBridgeTransport, 1, seen),
        315 => action == Action::ApplyDenyProfile && seen == Observation::Failed,
        _ => false,
    }
}

/// The status of an invocation says which of its parts failed.
#[verifier::spinoff_prover]
#[verifier::rlimit(30)]
pub proof fn law_invocation_status_says_what_failed(
    host_bridge: bool,
    trace: Seq<Observation>,
    status: i32,
) -> (k: int)
    requires
        ends_with(probes::program_invocation_steps(host_bridge), trace, status),
        status != 0,
    ensures
        0 <= k < trace.len(),
        invocation_reason(
            host_bridge,
            status,
            asked(probes::program_invocation_steps(host_bridge), trace, k),
            trace[k],
        ),
{
    crate::guarantees::lemma_plans_are_well_formed();
    lemma_failure(probes::program_invocation_steps(host_bridge), trace, status)
}

/// This answer to this action of an invocation is one of a sound part: the request is an object,
/// the profile could be applied, the transport is in place, no program threw, the entry point is
/// there, a promise that it returned is fulfilled, with whatever value, and the result has a text.
pub open spec fn is_sound(action: Action, seen: Observation) -> bool {
    match action {
        Action::ParseRequest => seen == (Observation::Request {
            empty: false,
            object: true,
            exception: false,
        }),
        Action::ApplyDenyProfile => seen == Observation::Done,
        Action::Evaluate(Script::HostBridgeTransport) => seen == Observation::Number(1),
        Action::Evaluate(_) => seen != Observation::Threw,
        Action::LookupInvoke => seen == Observation::Callable,
        Action::CallInvoke => seen != Observation::Threw,
        Action::Settle => seen != Observation::WaitFailed && seen != Observation::Unfulfilled,
        Action::Stringify => seen == Observation::Done,
        _ => true,
    }
}

/// An invocation all of whose parts are sound ends with status zero, whether its entry point
/// returned a promise or not, and one that ends with status zero had only sound parts.
#[verifier::spinoff_prover]
#[verifier::rlimit(30)]
pub proof fn law_invocation_of_sound_parts_ends_with_zero(
    host_bridge: bool,
    trace: Seq<Observation>,
)
    requires
        probe_laws::fair(
            RunState::start(probes::program_invocation_steps(host_bridge)),
            trace,
        ),
        probes::program_invocation_steps(host_bridge).len() <= trace.len(),
    ensures
        ends_with(probes::program_invocation_steps(host_bridge), trace, 0) <==> (forall|k: int|
            0 <= k < probes::program_invocation_steps(host_bridge).len() ==> is_sound(
                #[trigger] asked(probes::program_invocation_steps(host_bridge), trace, k),
                trace[k],
            )),
{
    let plan = probes::program_invocation_steps(host_bridge);
    crate::guarantees::lemma_plans_are_well_formed();
    let status = lemma_end(plan, trace);
    if status == 0 {
        assert forall|k: int| 0 <= k < plan.len() implies is_sound(
            #[trigger] asked(plan, trace, k),
            trace[k],
        ) by {
            lemma_passing(plan, trace, k);
            lemma_sound_answers_pass(host_bridge, k, memory_at(plan, trace, k), trace[k]);
        }
    } else {
        let k = lemma_failure(plan, trace, status);
        lemma_sound_answers_pass(host_bridge, k, memory_at(plan, trace, k), trace[k]);
        assert(!is_sound(asked(plan, trace, k), trace[k]));
    }
}

/// An answer passes its step of an invocation exactly where it is one of a sound part.
#[verifier::spinoff_prover]
#[verifier::rlimit(30)]
proof fn lemma_sound_answers_pass(host_bridge: bool, k: int, memory: Memory, seen: Observation)
    requires
        0 <= k < probes::program_invocation_steps(host_bridge).len(),
        probe::answers(
            probe::action_of(probes::program_invocation_steps(host_bridge)[k], memory),
            seen,
        ),
    ensures
        probe::accepts(probes::program_invocation_steps(host_bridge)[k], memory, seen)
            <==> is_sound(
            probe::action_of(probes::program_invocation_steps(host_bridge)[k], memory),
            seen,
        ),
{
}

/// A run has ended once there are as many answers as steps.
proof fn lemma_end(plan: Seq<Step>, trace: Seq<Observation>) -> (status: i32)
    requires
        probe::plan_wf(plan),
        probe_laws::fair(RunState::start(plan), trace),
        plan.len() <= trace.len(),
    ensures
        ends_with(plan, trace, status),
        status != 0 ==> !ends_with(plan, trace, 0),
{
    reveal(ends_with);
    probe_laws::law_every_probe_ends(plan, trace);
    probe_laws::feed(RunState::start(plan), trace).status()->0
}

/// In a run that ends with zero the answer to every step passes it.
proof fn lemma_passing(plan: Seq<Step>, trace: Seq<Observation>, k: int)
    requires
        probe::plan_wf(plan),
        ends_with(plan, trace, 0),
        0 <= k < plan.len(),
    ensures
        k < trace.len(),
        asked(plan, trace, k) == probe::action_of(plan[k], memory_at(plan, trace, k)),
        probe::answers(asked(plan, trace, k), trace[k]),
        probe::accepts(plan[k], memory_at(plan, trace, k), trace[k]),
{
    reveal(asked);
    reveal(memory_at);
    reveal(ends_with);
    probe_laws::law_zero_means_every_step_passed(plan, trace);
    probe_laws::law_actions_follow_the_plan(plan, trace, k);
    assert(probe_laws::passes(plan, trace, k));
    assert(probe::answers(
        probe_laws::feed(RunState::start(plan), trace.take(k)).action(),
        trace[k],
    ));
}

/// The entry point was called and returned: what comes next. A promise is waited for, and its
/// value, whatever it is, is turned into text; a wait that failed or a promise that is not
/// fulfilled ends the invocation with status 304. A value that is no promise is turned into text
/// at once, and an entry point that threw ends the invocation with status 303.
#[verifier::spinoff_prover]
#[verifier::rlimit(30)]
pub proof fn law_promise_of_the_entry_point_is_waited_for(
    host_bridge: bool,
    trace: Seq<Observation>,
    seen: Observation,
)
    requires
        probe_laws::fair(
            RunState::start(probes::program_invocation_steps(host_bridge)),
            trace,
        ),
        ({
            let start = RunState::start(probes::program_invocation_steps(host_bridge));
            probe_laws::feed(start, trace).action() == Action::CallInvoke
        }),
        probe::answers(Action::Settle, seen),
    ensures
        ({
            let start = RunState::start(probes::program_invocation_steps(host_bridge));
            let run = probe_laws::feed(start, trace);
            let waiting = run.advance(Observation::Promise);
            let settled = waiting.advance(seen);
            let direct = run.advance(Observation::Other);
            &&& run.advance(Observation::Threw).status() == Some(303i32)
            &&& waiting.status() is None
            &&& waiting.action() == Action::Settle
            &&& (seen == Observation::WaitFailed || seen == Observation::Unfulfilled)
                <==> settled.status() == Some(304i32)
            &&& !(seen == Observation::WaitFailed || seen == Observation::Unfulfilled)
                <==> settled.status() is None && settled.action() == Action::Stringify
            &&& direct.action() == Action::Nothing
            &&& direct.advance(Observation::Done).status() is None
            &&& direct.advance(Observation::Done).action() == Action::Stringify
        }),
{
    let plan = probes::program_invocation_steps(host_bridge);
    let start = RunState::start(plan);
    crate::guarantees::lemma_plans_are_well_formed();
    probe_laws::lemma_feed(plan, trace);
    let run = probe_laws::feed(start, trace);
    let call = if host_bridge {
        10int
    } else {
        8int
    };
    assert(run.status() is None);
    assert(run.at == call);
    assert(plan[call] == Step::CallInvoke { failed: 303 });
    assert(plan[call + 1] == Step::SettleCall { failed: 304 });
    assert(plan[call + 2] == (Step::Stringify { failed: 305, dead: 306 }));
    reveal(memory_at);
    lemma_nothing_awaited(plan, trace, call);
    assert(trace.take(call) == trace);
}

/// No step before the call of the entry point leaves a promise to wait for.
pub proof fn lemma_nothing_awaited(plan: Seq<Step>, trace: Seq<Observation>, k: int)
    requires
        probe::plan_wf(plan),
        probe_laws::fair(RunState::start(plan), trace),
        0 <= k <= trace.len(),
        k <= plan.len(),
        forall|j: int|
            0 <= j < k ==> !((#[trigger] plan[j]) is ReadSettled) && !(plan[j] is CallInvoke),
    ensures
        !memory_at(plan, trace, k).awaiting,
    decreases k,
{
    reveal(memory_at);
    if k > 0 {
        lemma_nothing_awaited(plan, trace, k - 1);
        let shorter = trace.take(k - 1);
        assert(trace.take(k).drop_last() == shorter);
        assert(trace.take(k).last() == trace[k - 1]);
        probe_laws::lemma_shorter_is_fair(RunState::start(plan), trace, k - 1);
        probe_laws::lemma_feed(plan, shorter);
        let before = probe_laws::feed(RunState::start(plan), shorter);
        assert(probe_laws::feed(RunState::start(plan), trace.take(k)) == before.advance(
            trace[k - 1],
        ));
        if before.status() is None {
            assert(before.at == k - 1);
        }
    }
}

} // verus!
