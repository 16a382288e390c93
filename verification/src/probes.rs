//! The probes that the embedder offers, each as a run of its plan.
use vstd::prelude::*;

use crate::plan_parts;
use crate::probe::{Effect, ProbeRun, Step, Want};
use crate::report::ReportLine;
use crate::script::{LifecycleBody, Script, SpinPolicy};
use crate::surfaces::PERMISSION_SURFACE_COUNT;

verus! {

/// How many invocations of the memory probe retain their payload.
pub const MEMORY_BEHAVIOR_INVOCATION_COUNT: i32 = 16;

/// How many machines the lifecycle probe builds for one invocation each.
pub const LIFECYCLE_FRESH_VM_ITERATIONS: usize = 4;

/// How many invocations share one machine in the lifecycle probe.
pub const LIFECYCLE_RETAINED_INVOCATIONS: i32 = 8;

/// How often the lifecycle probe cancels a spinning program on that machine.
pub const LIFECYCLE_CANCEL_ITERATIONS: usize = 3;

fn extend(plan: &mut Vec<Step>, more: Vec<Step>)
    requires
        crate::probe::plan_wf(old(plan)@),
        crate::probe::plan_wf(more@),
    ensures
        final(plan)@ == old(plan)@ + more@,
        crate::probe::plan_wf(final(plan)@),
{
    let mut more = more;
    let ghost added = more@;
    plan.append(&mut more);
    assert forall|k: int| 0 <= k < plan@.len() implies crate::probe::step_wf(
        #[trigger] plan@[k],
    ) by {
        if k < old(plan)@.len() {
            assert(plan@[k] == old(plan)@[k]);
        } else {
            assert(plan@[k] == added[k - old(plan)@.len()]);
        }
    }
}

/// Invokes the bundled mutation and waits for what it promises.
pub open spec fn program_bundle_steps() -> Seq<Step> {
    plan_parts::bundle_start_steps() + plan_parts::bundle_finish_steps()
}

fn program_bundle() -> (plan: Vec<Step>)
    ensures
        plan@ == program_bundle_steps(),
        crate::probe::plan_wf(plan@),
{
    let mut plan = plan_parts::bundle_start();
    extend(&mut plan, plan_parts::bundle_finish());
    plan
}

/// Cancels before entry, at a deadline and from outside; after each the machine must still run
/// programs.
pub open spec fn timeout_and_cancel_steps() -> Seq<Step> {
    plan_parts::timeout_setup_steps() + plan_parts::recovery_steps(67, 68) + seq![
        Step::Spin(SpinPolicy::Deadline),
    ] + plan_parts::recovery_steps(50, 51) + seq![Step::Spin(SpinPolicy::ExternalCancel)]
        + plan_parts::recovery_steps(60, 61) + plan_parts::timeout_report_steps()
}

fn timeout_and_cancel() -> (plan: Vec<Step>)
    ensures
        plan@ == timeout_and_cancel_steps(),
        crate::probe::plan_wf(plan@),
{
    let mut plan = plan_parts::timeout_setup();
    extend(&mut plan, plan_parts::recovery(67, 68));
    extend(&mut plan, vec![Step::Spin(SpinPolicy::Deadline)]);
    extend(&mut plan, plan_parts::recovery(50, 51));
    extend(&mut plan, vec![Step::Spin(SpinPolicy::ExternalCancel)]);
    extend(&mut plan, plan_parts::recovery(60, 61));
    extend(&mut plan, plan_parts::timeout_report());
    plan
}

/// Step `k` of the inventory: each surface is classified and then reported. The statuses of
/// surface `i` are `110 + 2 * i` where its program throws and `111 + 2 * i` where its
/// classification is not accepted.
pub open spec fn surface_step(k: int) -> Step {
    let index = k / 2;
    if k % 2 == 0 {
        Step::Evaluate {
            script: Script::PermissionSurface(index as usize),
            exception: (110 + 2 * index) as i32,
            want: Want::Classification { mismatch: (111 + 2 * index) as i32 },
        }
    } else {
        Step::Report(ReportLine::Surface(index as usize))
    }
}

/// Applies the deny profile and classifies every surface of the inventory.
pub open spec fn permission_surface_inventory_steps() -> Seq<Step> {
    plan_parts::permission_setup_steps() + Seq::new(
        2 * PERMISSION_SURFACE_COUNT as nat,
        |k: int| surface_step(k),
    ) + seq![Step::Perform(Effect::Unlock)]
}

fn permission_surface_inventory() -> (plan: Vec<Step>)
    ensures
        plan@ == permission_surface_inventory_steps(),
        crate::probe::plan_wf(plan@),
{
    let mut surfaces: Vec<Step> = Vec::new();
    let mut index: usize = 0;
    while index < PERMISSION_SURFACE_COUNT
        invariant
            index <= PERMISSION_SURFACE_COUNT,
            surfaces@ == Seq::new(2 * index as nat, |k: int| surface_step(k)),
            crate::probe::plan_wf(surfaces@),
        decreases PERMISSION_SURFACE_COUNT - index,
    {
        let exception: i32 = 110 + 2 * (index as i32);
        surfaces.push(
            Step::Evaluate {
                script: Script::PermissionSurface(index),
                exception,
                want: Want::Classification { mismatch: exception + 1 },
            },
        );
        surfaces.push(Step::Report(ReportLine::Surface(index)));
        index = index + 1;
        assert(surfaces@ == Seq::new(2 * index as nat, |k: int| surface_step(k)));
    }
    let mut plan = plan_parts::permission_setup();
    extend(&mut plan, surfaces);
    extend(&mut plan, vec![Step::Perform(Effect::Unlock)]);
    plan
}

/// Retains payloads, samples the heap, releases them and samples it again.
pub open spec fn memory_behavior_steps() -> Seq<Step> {
    plan_parts::memory_load_steps() + plan_parts::memory_release_steps()
        + plan_parts::memory_report_steps()
}

fn memory_behavior() -> (plan: Vec<Step>)
    ensures
        plan@ == memory_behavior_steps(),
        crate::probe::plan_wf(plan@),
{
    let mut plan = plan_parts::memory_load();
    extend(&mut plan, plan_parts::memory_release());
    extend(&mut plan, plan_parts::memory_report());
    plan
}

/// Tries every way to a module that tenant code could take, with resolution denied.
pub open spec fn package_module_policy_steps() -> Seq<Step> {
    plan_parts::module_setup_steps() + plan_parts::module_imports_steps()
        + plan_parts::module_resolvers_steps() + plan_parts::module_report_steps()
        + plan_parts::module_verdict_steps()
}

fn package_module_policy() -> (plan: Vec<Step>)
    ensures
        plan@ == package_module_policy_steps(),
        crate::probe::plan_wf(plan@),
{
    let mut plan = plan_parts::module_setup();
    extend(&mut plan, plan_parts::module_imports());
    extend(&mut plan, plan_parts::module_resolvers());
    extend(&mut plan, plan_parts::module_report());
    extend(&mut plan, plan_parts::module_verdict());
    plan
}

/// The first `n` invocations that share the machine.
pub open spec fn retained_invocation_steps(n: nat) -> Seq<Step>
    decreases n,
{
    if n == 0 {
        Seq::empty()
    } else {
        retained_invocation_steps((n - 1) as nat) + plan_parts::lifecycle_invocation_steps(
            LifecycleBody::Reuse((n - 1) as i32),
            n as i32,
            233,
        )
    }
}

/// Cancels a spinning program from outside and recovers, `n` times.
pub open spec fn cancel_and_recover_steps(n: nat) -> Seq<Step>
    decreases n,
{
    if n == 0 {
        Seq::empty()
    } else {
        cancel_and_recover_steps((n - 1) as nat) + seq![Step::Spin(SpinPolicy::ExternalCancel)]
            + plan_parts::recovery_steps(239, 240)
    }
}

/// Reuses one machine for many invocations, cancels on it, and invokes once more.
pub open spec fn lifecycle_reuse_steps() -> Seq<Step> {
    plan_parts::lifecycle_setup_steps() + retained_invocation_steps(
        LIFECYCLE_RETAINED_INVOCATIONS as nat,
    ) + plan_parts::lifecycle_counts_steps(LIFECYCLE_RETAINED_INVOCATIONS, 236)
        + cancel_and_recover_steps(LIFECYCLE_CANCEL_ITERATIONS as nat)
        + plan_parts::lifecycle_invocation_steps(LifecycleBody::PostCancel, 9, 241)
        + plan_parts::lifecycle_counts_steps(9, 244) + plan_parts::lifecycle_state_steps()
        + plan_parts::lifecycle_report_steps()
}

fn retained_invocations() -> (steps: Vec<Step>)
    ensures
        steps@ == retained_invocation_steps(LIFECYCLE_RETAINED_INVOCATIONS as nat),
        crate::probe::plan_wf(steps@),
{
    let mut steps: Vec<Step> = Vec::new();
    let mut iteration: i32 = 0;
    while iteration < LIFECYCLE_RETAINED_INVOCATIONS
        invariant
            0 <= iteration <= LIFECYCLE_RETAINED_INVOCATIONS,
            steps@ == retained_invocation_steps(iteration as nat),
            crate::probe::plan_wf(steps@),
        decreases LIFECYCLE_RETAINED_INVOCATIONS - iteration,
    {
        extend(
            &mut steps,
            plan_parts::lifecycle_invocation(LifecycleBody::Reuse(iteration), iteration + 1, 233),
        );
        iteration = iteration + 1;
    }
    steps
}

fn cancel_and_recover() -> (steps: Vec<Step>)
    ensures
        steps@ == cancel_and_recover_steps(LIFECYCLE_CANCEL_ITERATIONS as nat),
        crate::probe::plan_wf(steps@),
{
    let mut steps: Vec<Step> = Vec::new();
    let mut iteration: usize = 0;
    while iteration < LIFECYCLE_CANCEL_ITERATIONS
        invariant
            iteration <= LIFECYCLE_CANCEL_ITERATIONS,
            steps@ == cancel_and_recover_steps(iteration as nat),
            crate::probe::plan_wf(steps@),
        decreases LIFECYCLE_CANCEL_ITERATIONS - iteration,
    {
        extend(&mut steps, vec![Step::Spin(SpinPolicy::ExternalCancel)]);
        extend(&mut steps, plan_parts::recovery(239, 240));
        iteration = iteration + 1;
    }
    steps
}

fn lifecycle_reuse() -> (plan: Vec<Step>)
    ensures
        plan@ == lifecycle_reuse_steps(),
        crate::probe::plan_wf(plan@),
{
    let mut plan = plan_parts::lifecycle_setup();
    extend(&mut plan, retained_invocations());
    extend(&mut plan, plan_parts::lifecycle_counts(LIFECYCLE_RETAINED_INVOCATIONS, 236));
    extend(&mut plan, cancel_and_recover());
    let expected_total: i32 = LIFECYCLE_RETAINED_INVOCATIONS + 1;
    extend(
        &mut plan,
        plan_parts::lifecycle_invocation(LifecycleBody::PostCancel, expected_total, 241),
    );
    extend(&mut plan, plan_parts::lifecycle_counts(expected_total, 244));
    extend(&mut plan, plan_parts::lifecycle_state());
    extend(&mut plan, plan_parts::lifecycle_report());
    plan
}

/// Runs one invocation up to the JSON text of its result, with the host bridge where the caller
/// brought one.
pub open spec fn program_invocation_steps(host_bridge: bool) -> Seq<Step> {
    plan_parts::invocation_request_steps() + if host_bridge {
        plan_parts::host_bridge_transport_steps()
    } else {
        Seq::empty()
    } + plan_parts::invocation_call_steps()
}

fn program_invocation(host_bridge: bool) -> (plan: Vec<Step>)
    ensures
        plan@ == program_invocation_steps(host_bridge),
        crate::probe::plan_wf(plan@),
{
    let mut plan = plan_parts::invocation_request();
    if host_bridge {
        extend(&mut plan, plan_parts::host_bridge_transport());
    }
    assert(plan_parts::invocation_request_steps() + Seq::<Step>::empty()
        == plan_parts::invocation_request_steps());
    extend(&mut plan, plan_parts::invocation_call());
    plan
}

/// One synchronous host call.
pub fn nimbus_bun_embed_probe_sync_host_call() -> (run: ProbeRun)
    ensures
        run@ == crate::probe::RunState::start(plan_parts::sync_host_call_steps()),
{
    ProbeRun::new(plan_parts::sync_host_call())
}

/// One asynchronous host call.
pub fn nimbus_bun_embed_probe_async_host_call() -> (run: ProbeRun)
    ensures
        run@ == crate::probe::RunState::start(plan_parts::async_host_call_steps()),
{
    ProbeRun::new(plan_parts::async_host_call())
}

/// The host calls of the program bundle.
pub fn nimbus_bun_embed_probe_program_bundle_host_calls() -> (run: ProbeRun)
    ensures
        run@ == crate::probe::RunState::start(program_bundle_steps()),
{
    ProbeRun::new(program_bundle())
}

/// Cancellation before entry, at a deadline and from outside.
pub fn nimbus_bun_embed_probe_timeout_and_cancel() -> (run: ProbeRun)
    ensures
        run@ == crate::probe::RunState::start(timeout_and_cancel_steps()),
{
    ProbeRun::new(timeout_and_cancel())
}

/// The inventory of the permission surfaces.
pub fn nimbus_bun_embed_probe_permission_surface_inventory() -> (run: ProbeRun)
    ensures
        run@ == crate::probe::RunState::start(permission_surface_inventory_steps()),
{
    ProbeRun::new(permission_surface_inventory())
}

/// The heap under load and after it.
pub fn nimbus_bun_embed_probe_memory_behavior() -> (run: ProbeRun)
    ensures
        run@ == crate::probe::RunState::start(memory_behavior_steps()),
{
    ProbeRun::new(memory_behavior())
}

/// The ways to a module that tenant code could take.
pub fn nimbus_bun_embed_probe_package_module_policy() -> (run: ProbeRun)
    ensures
        run@ == crate::probe::RunState::start(package_module_policy_steps()),
{
    ProbeRun::new(package_module_policy())
}

/// The part of the lifecycle probe that reuses one machine.
pub fn lifecycle_reuse_run() -> (run: ProbeRun)
    ensures
        run@ == crate::probe::RunState::start(lifecycle_reuse_steps()),
{
    ProbeRun::new(lifecycle_reuse())
}

/// One invocation up to the JSON text of its result.
pub fn program_invocation_run(host_bridge: bool) -> (run: ProbeRun)
    ensures
        run@ == crate::probe::RunState::start(program_invocation_steps(host_bridge)),
{
    ProbeRun::new(program_invocation(host_bridge))
}

} // verus!
