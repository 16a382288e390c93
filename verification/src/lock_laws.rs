//! What the plans hold: whatever touches the machine does so under the API lock, and module
//! resolution is denied outside of it.
use vstd::prelude::*;

use crate::plan_parts;
use crate::probe;
use crate::probe::{Action, Effect, Observation, Resource, RunState, Step};
use crate::probe_laws;
use crate::probes;
use crate::script::{LifecycleBody, SpinPolicy};
use crate::surfaces::PERMISSION_SURFACE_COUNT;

verus! {

/// How a step changes the number of locks that are held.
pub open spec fn lock_change(step: Step) -> int {
    match step {
        Step::Perform(Effect::Lock) => 1,
        Step::Perform(Effect::ProbeLock) => 1,
        Step::Perform(Effect::Unlock) => -1,
        _ => 0,
    }
}

/// How many locks the first `k` steps leave held.
pub open spec fn lock_depth(steps: Seq<Step>, k: int) -> int
    decreases k,
{
    if k <= 0 {
        0
    } else {
        lock_depth(steps, k - 1) + lock_change(steps[k - 1])
    }
}

/// The step evaluates a program, waits for a promise, looks at a value of the machine, gives it a
/// function or a termination exception, keeps or lets go of a value, or shrinks its memory. A
/// gated program and a spinning one are not among them: the first is never entered, and the run of
/// the second takes the lock itself. The heap is measured, and garbage collected, with and without
/// the lock.
pub open spec fn needs_lock(step: Step) -> bool {
    match step {
        Step::Evaluate { .. } | Step::EvaluateRejected { .. } | Step::ReadNumber { .. }
        | Step::ReadSettled { .. } | Step::Settle { .. } | Step::Await { .. } | Step::Fulfilled {
            ..
        } | Step::Resolved { .. } | Step::ApplyDenyProfile { .. } | Step::ParseRequest { .. }
        | Step::LookupInvoke { .. } | Step::CallInvoke { .. } | Step::SettleCall { .. }
        | Step::Stringify { .. } => true,
        Step::Perform(effect) => match effect {
            Effect::InstallSyncHostCall | Effect::InstallAsyncHostCall
            | Effect::InstallHostBridgeCall | Effect::MaterializeTermination
            | Effect::ShrinkFootprint | Effect::ProtectRequest | Effect::LetRequestGo => true,
            _ => false,
        },
        _ => false,
    }
}

/// Steps that begin with `before` locks held and end with `after`, hold one lock at most, hold
/// one wherever they need it, and hold none where they deny module resolution.
pub open spec fn guarded(steps: Seq<Step>, before: int, after: int) -> bool {
    &&& forall|k: int|
        0 <= k <= steps.len() ==> 0 <= before + #[trigger] lock_depth(steps, k) <= 1
    &&& forall|k: int|
        0 <= k < steps.len() && needs_lock(steps[k]) ==> before + #[trigger] lock_depth(steps, k)
            == 1
    &&& forall|k: int|
        0 <= k < steps.len() && steps[k] == Step::Perform(Effect::DenyResolution) ==> before
            + #[trigger] lock_depth(steps, k) == 0
    &&& before + lock_depth(steps, steps.len() as int) == after
}

proof fn lemma_depth_of_concatenation(first: Seq<Step>, second: Seq<Step>, k: int)
    requires
        0 <= k <= first.len() + second.len(),
    ensures
        k <= first.len() ==> lock_depth(first + second, k) == lock_depth(first, k),
        k >= first.len() ==> lock_depth(first + second, k) == lock_depth(first, first.len() as int)
            + lock_depth(second, k - first.len()),
    decreases k,
{
    if k > 0 {
        lemma_depth_of_concatenation(first, second, k - 1);
    }
}

proof fn lemma_concatenation(
    first: Seq<Step>,
    second: Seq<Step>,
    before: int,
    between: int,
    after: int,
)
    requires
        guarded(first, before, between),
        guarded(second, between, after),
    ensures
        guarded(first + second, before, after),
{
    let both = first + second;
    assert forall|k: int| 0 <= k <= both.len() implies 0 <= before + #[trigger] lock_depth(both, k)
        <= 1 by {
        lemma_depth_of_concatenation(first, second, k);
        if k > first.len() {
            assert(0 <= between + lock_depth(second, k - first.len()) <= 1);
        } else {
            assert(0 <= before + lock_depth(first, k) <= 1);
        }
    }
    assert forall|k: int| 0 <= k < both.len() && needs_lock(both[k]) implies before
        + #[trigger] lock_depth(both, k) == 1 by {
        lemma_depth_of_concatenation(first, second, k);
        if k >= first.len() {
            assert(between + lock_depth(second, k - first.len()) == 1);
        } else {
            assert(before + lock_depth(first, k) == 1);
        }
    }
    assert forall|k: int|
        0 <= k < both.len() && both[k] == Step::Perform(Effect::DenyResolution) implies before
        + #[trigger] lock_depth(both, k) == 0 by {
        lemma_depth_of_concatenation(first, second, k);
        if k >= first.len() {
            assert(between + lock_depth(second, k - first.len()) == 0);
        } else {
            assert(before + lock_depth(first, k) == 0);
        }
    }
    lemma_depth_of_concatenation(first, second, both.len() as int);
    lemma_depth_of_concatenation(first, second, first.len() as int);
}

proof fn lemma_sync_host_call()
    ensures
        guarded(plan_parts::sync_host_call_steps(), 0, 0),
{
    reveal_with_fuel(lock_depth, 9);
}

#[verifier::rlimit(60)]
proof fn lemma_async_host_call()
    ensures
        guarded(plan_parts::async_host_call_steps(), 0, 0),
{
    reveal_with_fuel(lock_depth, 20);
}

proof fn lemma_bundle_start()
    ensures
        guarded(plan_parts::bundle_start_steps(), 0, 0),
{
    reveal_with_fuel(lock_depth, 12);
}

proof fn lemma_bundle_finish()
    ensures
        guarded(plan_parts::bundle_finish_steps(), 0, 0),
{
    reveal_with_fuel(lock_depth, 19);
}

proof fn lemma_program_bundle()
    ensures
        guarded(probes::program_bundle_steps(), 0, 0),
{
    lemma_bundle_start();
    lemma_bundle_finish();
    lemma_concatenation(
        plan_parts::bundle_start_steps(),
        plan_parts::bundle_finish_steps(),
        0,
        0,
        0,
    );
}

#[verifier::rlimit(60)]
proof fn lemma_memory_load()
    ensures
        guarded(plan_parts::memory_load_steps(), 0, 0),
{
    reveal_with_fuel(lock_depth, 25);
}

proof fn lemma_memory_release()
    ensures
        guarded(plan_parts::memory_release_steps(), 0, 0),
{
    reveal_with_fuel(lock_depth, 12);
}

proof fn lemma_memory_report()
    ensures
        guarded(plan_parts::memory_report_steps(), 0, 0),
{
    reveal_with_fuel(lock_depth, 18);
}

proof fn lemma_module_setup()
    ensures
        guarded(plan_parts::module_setup_steps(), 0, 0),
{
    reveal_with_fuel(lock_depth, 10);
}

proof fn lemma_module_imports()
    ensures
        guarded(plan_parts::module_imports_steps(), 0, 0),
{
    reveal_with_fuel(lock_depth, 18);
}

#[verifier::rlimit(60)]
proof fn lemma_module_resolvers()
    ensures
        guarded(plan_parts::module_resolvers_steps(), 0, 0),
{
    reveal_with_fuel(lock_depth, 26);
}

#[verifier::rlimit(60)]
proof fn lemma_module_report()
    ensures
        guarded(plan_parts::module_report_steps(), 0, 0),
{
    reveal_with_fuel(lock_depth, 22);
}

proof fn lemma_module_verdict()
    ensures
        guarded(plan_parts::module_verdict_steps(), 0, 0),
{
    reveal_with_fuel(lock_depth, 12);
}

proof fn lemma_timeout_parts(exception: i32, mismatch: i32)
    ensures
        guarded(plan_parts::timeout_setup_steps(), 0, 0),
        guarded(plan_parts::recovery_steps(exception, mismatch), 0, 0),
        guarded(plan_parts::timeout_report_steps(), 0, 0),
        guarded(seq![Step::Spin(SpinPolicy::Deadline)], 0, 0),
        guarded(seq![Step::Spin(SpinPolicy::ExternalCancel)], 0, 0),
{
    reveal_with_fuel(lock_depth, 12);
}

proof fn lemma_timeout()
    ensures
        guarded(probes::timeout_and_cancel_steps(), 0, 0),
{
    lemma_timeout_parts(67, 68);
    lemma_timeout_parts(50, 51);
    lemma_timeout_parts(60, 61);
    let setup = plan_parts::timeout_setup_steps() + plan_parts::recovery_steps(67, 68);
    lemma_concatenation(
        plan_parts::timeout_setup_steps(),
        plan_parts::recovery_steps(67, 68),
        0,
        0,
        0,
    );
    let deadline = setup + seq![Step::Spin(SpinPolicy::Deadline)];
    lemma_concatenation(setup, seq![Step::Spin(SpinPolicy::Deadline)], 0, 0, 0);
    let recovered = deadline + plan_parts::recovery_steps(50, 51);
    lemma_concatenation(deadline, plan_parts::recovery_steps(50, 51), 0, 0, 0);
    let cancelled = recovered + seq![Step::Spin(SpinPolicy::ExternalCancel)];
    lemma_concatenation(recovered, seq![Step::Spin(SpinPolicy::ExternalCancel)], 0, 0, 0);
    let all = cancelled + plan_parts::recovery_steps(60, 61);
    lemma_concatenation(cancelled, plan_parts::recovery_steps(60, 61), 0, 0, 0);
    lemma_concatenation(all, plan_parts::timeout_report_steps(), 0, 0, 0);
}

proof fn lemma_surface_depth(k: int)
    requires
        0 <= k <= 2 * PERMISSION_SURFACE_COUNT,
    ensures
        lock_depth(
            Seq::new(2 * PERMISSION_SURFACE_COUNT as nat, |i: int| probes::surface_step(i)),
            k,
        ) == 0,
    decreases k,
{
    if k > 0 {
        lemma_surface_depth(k - 1);
    }
}

proof fn lemma_permission()
    ensures
        guarded(probes::permission_surface_inventory_steps(), 0, 0),
{
    let setup = plan_parts::permission_setup_steps();
    let surfaces = Seq::new(
        2 * PERMISSION_SURFACE_COUNT as nat,
        |i: int| probes::surface_step(i),
    );
    let end = seq![Step::Perform(Effect::Unlock)];
    assert(guarded(setup, 0, 1) && guarded(end, 1, 0)) by {
        reveal_with_fuel(lock_depth, 11);
    }
    assert forall|k: int| 0 <= k <= surfaces.len() implies #[trigger] lock_depth(surfaces, k)
        == 0 by {
        lemma_surface_depth(k);
    }
    lemma_concatenation(setup, surfaces, 0, 1, 1);
    lemma_concatenation(setup + surfaces, end, 0, 1, 0);
}

proof fn lemma_memory()
    ensures
        guarded(probes::memory_behavior_steps(), 0, 0),
{
    let load = plan_parts::memory_load_steps();
    let release = plan_parts::memory_release_steps();
    let report = plan_parts::memory_report_steps();
    lemma_memory_load();
    lemma_memory_release();
    lemma_memory_report();
    lemma_concatenation(load, release, 0, 0, 0);
    lemma_concatenation(load + release, report, 0, 0, 0);
}

proof fn lemma_module()
    ensures
        guarded(probes::package_module_policy_steps(), 0, 0),
{
    let setup = plan_parts::module_setup_steps();
    let imports = plan_parts::module_imports_steps();
    let resolvers = plan_parts::module_resolvers_steps();
    let report = plan_parts::module_report_steps();
    let verdict = plan_parts::module_verdict_steps();
    lemma_module_setup();
    lemma_module_imports();
    lemma_module_resolvers();
    lemma_module_report();
    lemma_module_verdict();
    lemma_concatenation(setup, imports, 0, 0, 0);
    lemma_concatenation(setup + imports, resolvers, 0, 0, 0);
    lemma_concatenation(setup + imports + resolvers, report, 0, 0, 0);
    lemma_concatenation(setup + imports + resolvers + report, verdict, 0, 0, 0);
}

proof fn lemma_lifecycle_parts(body: LifecycleBody, message_id: i32, expected: i32, base: i32)
    ensures
        guarded(plan_parts::lifecycle_setup_steps(), 0, 0),
        guarded(plan_parts::lifecycle_invocation_steps(body, message_id, base), 0, 0),
        guarded(plan_parts::lifecycle_counts_steps(expected, base), 0, 0),
        guarded(plan_parts::lifecycle_state_steps(), 0, 0),
        guarded(plan_parts::lifecycle_report_steps(), 0, 0),
{
    reveal_with_fuel(lock_depth, 14);
}

proof fn lemma_retained(n: nat)
    ensures
        guarded(probes::retained_invocation_steps(n), 0, 0),
    decreases n,
{
    if n > 0 {
        let shorter = (n - 1) as nat;
        lemma_retained(shorter);
        let body = LifecycleBody::Reuse(shorter as i32);
        lemma_lifecycle_parts(body, n as i32, 0, 233);
        lemma_concatenation(
            probes::retained_invocation_steps(shorter),
            plan_parts::lifecycle_invocation_steps(body, n as i32, 233),
            0,
            0,
            0,
        );
    }
}

proof fn lemma_cancel_and_recover(n: nat)
    ensures
        guarded(probes::cancel_and_recover_steps(n), 0, 0),
    decreases n,
{
    if n > 0 {
        let shorter = probes::cancel_and_recover_steps((n - 1) as nat);
        lemma_cancel_and_recover((n - 1) as nat);
        lemma_timeout_parts(239, 240);
        let spin = seq![Step::Spin(SpinPolicy::ExternalCancel)];
        lemma_concatenation(shorter, spin, 0, 0, 0);
        lemma_concatenation(shorter + spin, plan_parts::recovery_steps(239, 240), 0, 0, 0);
    }
}

proof fn lemma_lifecycle()
    ensures
        guarded(probes::lifecycle_reuse_steps(), 0, 0),
{
    let retained = probes::LIFECYCLE_RETAINED_INVOCATIONS;
    let cancels = probes::LIFECYCLE_CANCEL_ITERATIONS as nat;
    lemma_lifecycle_parts(LifecycleBody::PostCancel, 9, retained, 236);
    lemma_lifecycle_parts(LifecycleBody::PostCancel, 9, 9, 241);
    lemma_lifecycle_parts(LifecycleBody::PostCancel, 9, 9, 244);
    lemma_retained(retained as nat);
    lemma_cancel_and_recover(cancels);
    let s0 = plan_parts::lifecycle_setup_steps();
    let s1 = s0 + probes::retained_invocation_steps(retained as nat);
    lemma_concatenation(s0, probes::retained_invocation_steps(retained as nat), 0, 0, 0);
    let s2 = s1 + plan_parts::lifecycle_counts_steps(retained, 236);
    lemma_concatenation(s1, plan_parts::lifecycle_counts_steps(retained, 236), 0, 0, 0);
    let s3 = s2 + probes::cancel_and_recover_steps(cancels);
    lemma_concatenation(s2, probes::cancel_and_recover_steps(cancels), 0, 0, 0);
    let last = plan_parts::lifecycle_invocation_steps(LifecycleBody::PostCancel, 9, 241);
    let s4 = s3 + last;
    lemma_concatenation(s3, last, 0, 0, 0);
    let s5 = s4 + plan_parts::lifecycle_counts_steps(9, 244);
    lemma_concatenation(s4, plan_parts::lifecycle_counts_steps(9, 244), 0, 0, 0);
    let s6 = s5 + plan_parts::lifecycle_state_steps();
    lemma_concatenation(s5, plan_parts::lifecycle_state_steps(), 0, 0, 0);
    lemma_concatenation(s6, plan_parts::lifecycle_report_steps(), 0, 0, 0);
}

proof fn lemma_invocation(host_bridge: bool)
    ensures
        guarded(probes::program_invocation_steps(host_bridge), 0, 0),
{
    let request = plan_parts::invocation_request_steps();
    let transport = if host_bridge {
        plan_parts::host_bridge_transport_steps()
    } else {
        Seq::empty()
    };
    let call = plan_parts::invocation_call_steps();
    assert(guarded(request, 0, 1) && guarded(transport, 1, 1) && guarded(call, 1, 0)) by {
        reveal_with_fuel(lock_depth, 8);
    }
    lemma_concatenation(request, transport, 0, 1, 1);
    lemma_concatenation(request + transport, call, 0, 1, 0);
}

/// No plan evaluates a program, waits for a promise or looks at a value without the API lock; no
/// plan takes the lock while it holds it; and each gives the lock back at its end.
pub proof fn law_plans_hold_the_lock_where_they_need_it(host_bridge: bool)
    ensures
        guarded(plan_parts::sync_host_call_steps(), 0, 0),
        guarded(plan_parts::async_host_call_steps(), 0, 0),
        guarded(probes::program_bundle_steps(), 0, 0),
        guarded(probes::timeout_and_cancel_steps(), 0, 0),
        guarded(probes::permission_surface_inventory_steps(), 0, 0),
        guarded(probes::memory_behavior_steps(), 0, 0),
        guarded(probes::package_module_policy_steps(), 0, 0),
        guarded(probes::lifecycle_reuse_steps(), 0, 0),
        guarded(probes::program_invocation_steps(host_bridge), 0, 0),
{
    lemma_sync_host_call();
    lemma_async_host_call();
    lemma_program_bundle();
    lemma_timeout();
    lemma_permission();
    lemma_memory();
    lemma_module();
    lemma_lifecycle();
    lemma_invocation(host_bridge);
}

/// How often the first `k` steps deny module resolution. No step lifts a denial.
pub open spec fn denials_before(steps: Seq<Step>, k: int) -> nat
    decreases k,
{
    if k <= 0 {
        0
    } else {
        denials_before(steps, k - 1) + if steps[k - 1] == Step::Perform(Effect::DenyResolution) {
            1nat
        } else {
            0
        }
    }
}

/// What a run of the plan holds before its step `k`.
pub open spec fn held_before(plan: Seq<Step>, k: int) -> Seq<Resource>
    decreases k,
{
    if k <= 0 {
        Seq::empty()
    } else {
        probe::holds(plan[k - 1], held_before(plan, k - 1))
    }
}

/// What is held after some denials and, inside them, some locks.
pub open spec fn held_of(denials: nat, locks: int) -> Seq<Resource> {
    Seq::new(denials, |i: int| Resource::Denial) + Seq::new(locks as nat, |i: int| Resource::Lock)
}

/// Every step that gives something back gives back what it names, and that was taken last.
pub open spec fn orderly(plan: Seq<Step>) -> bool {
    forall|k: int|
        0 <= k < plan.len() ==> match #[trigger] plan[k] {
            Step::Perform(Effect::Unlock) => held_before(plan, k).len() > 0 && held_before(
                plan,
                k,
            ).last() == Resource::Lock,
            Step::Perform(Effect::LetRequestGo) => held_before(plan, k).len() > 0 && held_before(
                plan,
                k,
            ).last() == Resource::Request,
            _ => true,
        }
}

/// No step keeps or lets go of a request.
spec fn no_request(steps: Seq<Step>) -> bool {
    forall|k: int|
        0 <= k < steps.len() ==> (#[trigger] steps[k]) != Step::Perform(Effect::ProtectRequest)
            && steps[k] != Step::Perform(Effect::LetRequestGo)
}

/// Without a request, the locks stand inside the denials.
proof fn lemma_held_without_request(plan: Seq<Step>, k: int)
    requires
        guarded(plan, 0, 0),
        no_request(plan),
        0 <= k <= plan.len(),
    ensures
        held_before(plan, k) == held_of(denials_before(plan, k), lock_depth(plan, k)),
    decreases k,
{
    assert(0 <= 0 + lock_depth(plan, k) <= 1);
    if k > 0 {
        lemma_held_without_request(plan, k - 1);
        assert(0 <= 0 + lock_depth(plan, k - 1) <= 1);
        let held = held_before(plan, k - 1);
        let next = held_of(denials_before(plan, k), lock_depth(plan, k));
        match plan[k - 1] {
            Step::Perform(Effect::Lock) | Step::Perform(Effect::ProbeLock) => {
                assert(held.push(Resource::Lock) == next);
            },
            Step::Perform(Effect::DenyResolution) => {
                assert(held.push(Resource::Denial) == next);
            },
            Step::Perform(Effect::Unlock) => {
                assert(held.drop_last() == next);
            },
            _ => {
                assert(held == next);
            },
        }
    }
}

proof fn lemma_orderly_without_request(plan: Seq<Step>)
    requires
        guarded(plan, 0, 0),
        no_request(plan),
    ensures
        orderly(plan),
{
    assert forall|k: int| 0 <= k < plan.len() implies match #[trigger] plan[k] {
        Step::Perform(Effect::Unlock) => held_before(plan, k).len() > 0 && held_before(
            plan,
            k,
        ).last() == Resource::Lock,
        Step::Perform(Effect::LetRequestGo) => held_before(plan, k).len() > 0 && held_before(
            plan,
            k,
        ).last() == Resource::Request,
        _ => true,
    } by {
        lemma_held_without_request(plan, k);
        assert(0 <= 0 + lock_depth(plan, k) <= 1);
        assert(0 <= 0 + lock_depth(plan, k + 1) <= 1);
    }
}

proof fn lemma_no_request_in_either(first: Seq<Step>, second: Seq<Step>)
    requires
        no_request(first),
        no_request(second),
    ensures
        no_request(first + second),
{
    let both = first + second;
    assert forall|k: int| 0 <= k < both.len() implies (#[trigger] both[k]) != Step::Perform(
        Effect::ProtectRequest,
    ) && both[k] != Step::Perform(Effect::LetRequestGo) by {
        if k < first.len() {
            assert(both[k] == first[k]);
        } else {
            assert(both[k] == second[k - first.len()]);
        }
    }
}

proof fn lemma_no_request_in_repetitions(n: nat)
    ensures
        no_request(probes::retained_invocation_steps(n)),
        no_request(probes::cancel_and_recover_steps(n)),
    decreases n,
{
    if n > 0 {
        let m = (n - 1) as nat;
        lemma_no_request_in_repetitions(m);
        lemma_no_request_in_either(
            probes::retained_invocation_steps(m),
            plan_parts::lifecycle_invocation_steps(LifecycleBody::Reuse(m as i32), n as i32, 233),
        );
        let spin = seq![Step::Spin(SpinPolicy::ExternalCancel)];
        lemma_no_request_in_either(probes::cancel_and_recover_steps(m), spin);
        lemma_no_request_in_either(
            probes::cancel_and_recover_steps(m) + spin,
            plan_parts::recovery_steps(239, 240),
        );
    }
}

proof fn lemma_no_request_in_lifecycle()
    ensures
        no_request(probes::lifecycle_reuse_steps()),
{
    let setup = plan_parts::lifecycle_setup_steps();
    let retained = probes::retained_invocation_steps(8);
    let counts = plan_parts::lifecycle_counts_steps(8, 236);
    let cancelled = probes::cancel_and_recover_steps(3);
    let again = plan_parts::lifecycle_invocation_steps(LifecycleBody::PostCancel, 9, 241);
    let counts_again = plan_parts::lifecycle_counts_steps(9, 244);
    let state = plan_parts::lifecycle_state_steps();
    let report = plan_parts::lifecycle_report_steps();
    lemma_no_request_in_repetitions(8);
    lemma_no_request_in_repetitions(3);
    lemma_no_request_in_either(setup, retained);
    lemma_no_request_in_either(setup + retained, counts);
    lemma_no_request_in_either(setup + retained + counts, cancelled);
    lemma_no_request_in_either(setup + retained + counts + cancelled, again);
    lemma_no_request_in_either(setup + retained + counts + cancelled + again, counts_again);
    lemma_no_request_in_either(
        setup + retained + counts + cancelled + again + counts_again,
        state,
    );
    lemma_no_request_in_either(
        setup + retained + counts + cancelled + again + counts_again + state,
        report,
    );
}

/// What an invocation holds at each of its steps: once it has denied resolution the denial, inside
/// that the lock, and inside that the request from when it was parsed until after the result has
/// become text.
proof fn lemma_held_by_invocation(host_bridge: bool, k: int)
    requires
        0 <= k <= probes::program_invocation_steps(host_bridge).len(),
    ensures
        held_before(probes::program_invocation_steps(host_bridge), k) == if k <= 1 {
            Seq::<Resource>::empty()
        } else if k == 2 {
            seq![Resource::Denial]
        } else if k <= 4 {
            seq![Resource::Denial, Resource::Lock]
        } else if k <= probes::program_invocation_steps(host_bridge).len() - 2 {
            seq![Resource::Denial, Resource::Lock, Resource::Request]
        } else if k == probes::program_invocation_steps(host_bridge).len() - 1 {
            seq![Resource::Denial, Resource::Lock]
        } else {
            seq![Resource::Denial]
        },
    decreases k,
{
    let plan = probes::program_invocation_steps(host_bridge);
    if k > 0 {
        lemma_held_by_invocation(host_bridge, k - 1);
        let held = held_before(plan, k - 1);
        if k == 2 {
            assert(held.push(Resource::Denial) == seq![Resource::Denial]);
        } else if k == 3 {
            assert(held.push(Resource::Lock) == seq![Resource::Denial, Resource::Lock]);
        } else if k == 5 {
            assert(held.push(Resource::Request) == seq![
                Resource::Denial,
                Resource::Lock,
                Resource::Request,
            ]);
        } else if k == plan.len() - 1 {
            assert(held.drop_last() == seq![Resource::Denial, Resource::Lock]);
        } else if k == plan.len() {
            assert(held.drop_last() == seq![Resource::Denial]);
        }
    }
}

/// Every plan gives back what it names: no step that unlocks or lets a request go gives back
/// anything else.
pub proof fn law_plans_give_back_what_they_name(host_bridge: bool)
    ensures
        orderly(plan_parts::sync_host_call_steps()),
        orderly(plan_parts::async_host_call_steps()),
        orderly(probes::program_bundle_steps()),
        orderly(probes::timeout_and_cancel_steps()),
        orderly(probes::permission_surface_inventory_steps()),
        orderly(probes::memory_behavior_steps()),
        orderly(probes::package_module_policy_steps()),
        orderly(probes::lifecycle_reuse_steps()),
        orderly(probes::program_invocation_steps(host_bridge)),
{
    law_plans_hold_the_lock_where_they_need_it(host_bridge);
    lemma_no_request_in_lifecycle();
    assert(no_request(plan_parts::sync_host_call_steps()));
    assert(no_request(plan_parts::async_host_call_steps()));
    assert(no_request(probes::program_bundle_steps()));
    assert(no_request(probes::timeout_and_cancel_steps()));
    assert(no_request(probes::permission_surface_inventory_steps()));
    assert(no_request(probes::memory_behavior_steps()));
    assert(no_request(probes::package_module_policy_steps()));
    lemma_orderly_without_request(plan_parts::sync_host_call_steps());
    lemma_orderly_without_request(plan_parts::async_host_call_steps());
    lemma_orderly_without_request(probes::program_bundle_steps());
    lemma_orderly_without_request(probes::timeout_and_cancel_steps());
    lemma_orderly_without_request(probes::permission_surface_inventory_steps());
    lemma_orderly_without_request(probes::memory_behavior_steps());
    lemma_orderly_without_request(probes::package_module_policy_steps());
    lemma_orderly_without_request(probes::lifecycle_reuse_steps());
    lemma_invocation_is_orderly(host_bridge);
}

proof fn lemma_invocation_is_orderly(host_bridge: bool)
    ensures
        orderly(probes::program_invocation_steps(host_bridge)),
{
    let plan = probes::program_invocation_steps(host_bridge);
    assert forall|k: int| 0 <= k < plan.len() implies match #[trigger] plan[k] {
        Step::Perform(Effect::Unlock) => held_before(plan, k).len() > 0 && held_before(
            plan,
            k,
        ).last() == Resource::Lock,
        Step::Perform(Effect::LetRequestGo) => held_before(plan, k).len() > 0 && held_before(
            plan,
            k,
        ).last() == Resource::Request,
        _ => true,
    } by {
        lemma_held_by_invocation(host_bridge, k);
    }
}

/// While a plan is under way, its run holds exactly what its steps have taken and not given back.
/// Once it has ended it holds what is left of that, and `law_every_end_gives_everything_back` says
/// how that goes.
pub proof fn law_run_holds_what_its_plan_took(plan: Seq<Step>, trace: Seq<Observation>)
    requires
        probe::plan_wf(plan),
        probe_laws::fair(RunState::start(plan), trace),
    ensures
        ({
            let run = probe_laws::feed(RunState::start(plan), trace);
            let taken = held_before(plan, run.at as int);
            &&& run.status() is None ==> run.held == taken
            &&& run.held.is_prefix_of(taken)
        }),
    decreases trace.len(),
{
    let start = RunState::start(plan);
    let run = probe_laws::feed(start, trace);
    probe_laws::lemma_feed(plan, trace);
    if trace.len() > 0 {
        let shorter = trace.drop_last();
        probe_laws::lemma_shorter_is_fair(start, trace, trace.len() - 1);
        assert(trace.take(trace.len() - 1) == shorter);
        law_run_holds_what_its_plan_took(plan, shorter);
        probe_laws::lemma_feed(plan, shorter);
        let before = probe_laws::feed(start, shorter);
        assert(run == before.advance(trace.last()));
        if before.status() is None {
            assert(run.held == held_before(plan, run.at as int));
        }
    }
}

proof fn lemma_denials_stay(plan: Seq<Step>, j: int, k: int)
    requires
        0 <= j <= k,
    ensures
        denials_before(plan, j) <= denials_before(plan, k),
    decreases k,
{
    if j < k {
        lemma_denials_stay(plan, j, k - 1);
    }
}

/// Whatever an invocation evaluates, calls, waits for or turns into text, it does so with module
/// resolution denied, inside that under the API lock, and with its parsed request kept alive.
pub proof fn law_tenant_code_runs_under_the_denial(host_bridge: bool, trace: Seq<Observation>)
    requires
        ({
            let run = probe_laws::feed(
                RunState::start(probes::program_invocation_steps(host_bridge)),
                trace,
            );
            &&& probe_laws::fair(
                RunState::start(probes::program_invocation_steps(host_bridge)),
                trace,
            )
            &&& match run.action() {
                Action::Evaluate(_) | Action::LookupInvoke | Action::CallInvoke | Action::Settle
                | Action::Stringify => true,
                _ => false,
            }
        }),
    ensures
        probe_laws::feed(
            RunState::start(probes::program_invocation_steps(host_bridge)),
            trace,
        ).held == seq![Resource::Denial, Resource::Lock, Resource::Request],
{
    let plan = probes::program_invocation_steps(host_bridge);
    let run = probe_laws::feed(RunState::start(plan), trace);
    crate::guarantees::lemma_plans_are_well_formed();
    probe_laws::lemma_feed(plan, trace);
    law_run_holds_what_its_plan_took(plan, trace);
    lemma_held_by_invocation(host_bridge, run.at as int);
}

/// Every way to a module that the policy probe tries, it tries with module resolution denied.
#[verifier::spinoff_prover]
#[verifier::rlimit(30)]
pub proof fn law_module_policy_tries_under_the_denial(trace: Seq<Observation>, k: int)
    requires
        ({
            let start = RunState::start(probes::package_module_policy_steps());
            &&& probe_laws::fair(start, trace)
            &&& probe_laws::feed(start, trace).status() is None
        }),
        k == probe_laws::feed(
            RunState::start(probes::package_module_policy_steps()),
            trace,
        ).at,
        probes::package_module_policy_steps()[k] is ReadNumber
            || probes::package_module_policy_steps()[k] is ReadSettled
            || probes::package_module_policy_steps()[k] is Settle,
    ensures
        probe_laws::feed(
            RunState::start(probes::package_module_policy_steps()),
            trace,
        ).held.contains(Resource::Denial),
{
    let plan = probes::package_module_policy_steps();
    let run = probe_laws::feed(RunState::start(plan), trace);
    crate::guarantees::lemma_plans_are_well_formed();
    lemma_module();
    probe_laws::lemma_feed(plan, trace);
    law_run_holds_what_its_plan_took(plan, trace);
    let setup = plan_parts::module_setup_steps();
    assert(forall|j: int| 0 <= j < setup.len() ==> #[trigger] plan[j] == setup[j]);
    assert(k >= 8) by {
        if k < 8 {
            assert(plan[k] == setup[k]);
        }
    }
    assert(plan[7] == Step::Perform(Effect::DenyResolution));
    assert(denials_before(plan, 8) >= 1);
    lemma_denials_stay(plan, 8, k);
    assert(no_request(plan));
    lemma_held_without_request(plan, k);
    assert(run.held[0] == Resource::Denial);
}

} // verus!
