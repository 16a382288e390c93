//! The parts that the plans of the probes are made of: each as the steps that contracts speak of,
//! and as the list that is run.
use vstd::prelude::*;

use crate::cancellation::ProofCancellationToken;
use crate::probe::{Counter, Effect, PromiseSlot, Step, Want};
use crate::probes::{
    LIFECYCLE_CANCEL_ITERATIONS, LIFECYCLE_FRESH_VM_ITERATIONS, LIFECYCLE_RETAINED_INVOCATIONS,
    MEMORY_BEHAVIOR_INVOCATION_COUNT,
};
use crate::report::ReportLine;
use crate::script::{BundleUse, LifecycleBody, Script};

verus! {

/// The part of a plan that calls the synchronous host function once: it is called once, with
/// forty-one, and returns forty-two.
pub open spec fn sync_host_call_steps() -> Seq<Step> {
    seq![
        Step::Perform(Effect::ResetSyncCounters),
        Step::Perform(Effect::Lock),
        Step::Perform(Effect::InstallSyncHostCall),
        Step::Evaluate {
            script: Script::SyncHostCall,
            exception: 2,
            want: Want::Number { expected: 42, mismatch: 6 },
        },
        Step::CounterIs { counter: Counter::SyncCalls, expected: 1, mismatch: 3 },
        Step::CounterIs { counter: Counter::SyncPayload, expected: 41, mismatch: 4 },
        Step::CounterIs { counter: Counter::SyncReturned, expected: 42, mismatch: 5 },
        Step::Perform(Effect::Unlock),
    ]
}

pub(crate) fn sync_host_call() -> (steps: Vec<Step>)
    ensures
        steps@ == sync_host_call_steps(),
        crate::probe::plan_wf(steps@),
{
    vec![
        Step::Perform(Effect::ResetSyncCounters),
        Step::Perform(Effect::Lock),
        Step::Perform(Effect::InstallSyncHostCall),
        Step::Evaluate {
            script: Script::SyncHostCall,
            exception: 2,
            want: Want::Number { expected: 42, mismatch: 6 },
        },
        Step::CounterIs { counter: Counter::SyncCalls, expected: 1, mismatch: 3 },
        Step::CounterIs { counter: Counter::SyncPayload, expected: 41, mismatch: 4 },
        Step::CounterIs { counter: Counter::SyncReturned, expected: 42, mismatch: 5 },
        Step::Perform(Effect::Unlock),
    ]
}

/// The part of a plan that calls the asynchronous host function once: its task runs only while
/// the promise is awaited, and the program sees what the promise resolves to.
pub open spec fn async_host_call_steps() -> Seq<Step> {
    seq![
        Step::Perform(Effect::ResetAsyncCounters),
        Step::Perform(Effect::EnsureWaker),
        Step::Perform(Effect::Lock),
        Step::Perform(Effect::InstallAsyncHostCall),
        Step::Evaluate { script: Script::AsyncHostCall, exception: 10, want: Want::Anything },
        Step::Perform(Effect::Unlock),
        Step::CounterIs { counter: Counter::AsyncCalls, expected: 1, mismatch: 11 },
        Step::CounterIs { counter: Counter::AsyncPayload, expected: 41, mismatch: 12 },
        Step::CounterIs { counter: Counter::TaskRuns, expected: 0, mismatch: 13 },
        Step::HostPromise { missing: 14 },
        Step::Perform(Effect::ProbeLock),
        Step::Await { slot: PromiseSlot::Host, failed: 17 },
        Step::CounterIs { counter: Counter::TaskRuns, expected: 1, mismatch: 15 },
        Step::CounterIs { counter: Counter::TaskReturned, expected: 42, mismatch: 16 },
        Step::Fulfilled { slot: PromiseSlot::Host, unfulfilled: 17 },
        Step::Resolved { slot: PromiseSlot::Host, expected: 42, mismatch: 18 },
        Step::Evaluate {
            script: Script::AsyncObserved,
            exception: 19,
            want: Want::Number { expected: 42, mismatch: 20 },
        },
        Step::Perform(Effect::Unlock),
    ]
}

pub(crate) fn async_host_call() -> (steps: Vec<Step>)
    ensures
        steps@ == async_host_call_steps(),
        crate::probe::plan_wf(steps@),
{
    vec![
        Step::Perform(Effect::ResetAsyncCounters),
        Step::Perform(Effect::EnsureWaker),
        Step::Perform(Effect::Lock),
        Step::Perform(Effect::InstallAsyncHostCall),
        Step::Evaluate { script: Script::AsyncHostCall, exception: 10, want: Want::Anything },
        Step::Perform(Effect::Unlock),
        Step::CounterIs { counter: Counter::AsyncCalls, expected: 1, mismatch: 11 },
        Step::CounterIs { counter: Counter::AsyncPayload, expected: 41, mismatch: 12 },
        Step::CounterIs { counter: Counter::TaskRuns, expected: 0, mismatch: 13 },
        Step::HostPromise { missing: 14 },
        Step::Perform(Effect::ProbeLock),
        Step::Await { slot: PromiseSlot::Host, failed: 17 },
        Step::CounterIs { counter: Counter::TaskRuns, expected: 1, mismatch: 15 },
        Step::CounterIs { counter: Counter::TaskReturned, expected: 42, mismatch: 16 },
        Step::Fulfilled { slot: PromiseSlot::Host, unfulfilled: 17 },
        Step::Resolved { slot: PromiseSlot::Host, expected: 42, mismatch: 18 },
        Step::Evaluate {
            script: Script::AsyncObserved,
            exception: 19,
            want: Want::Number { expected: 42, mismatch: 20 },
        },
        Step::Perform(Effect::Unlock),
    ]
}

/// The part of a plan that loads the bundle and invokes its mutation, which returns a promise.
pub open spec fn bundle_start_steps() -> Seq<Step> {
    seq![
        Step::Perform(Effect::ResetSyncCounters),
        Step::Perform(Effect::ResetAsyncCounters),
        Step::Perform(Effect::EnsureWaker),
        Step::Perform(Effect::Lock),
        Step::Perform(Effect::InstallSyncHostCall),
        Step::Perform(Effect::InstallAsyncHostCall),
        Step::Evaluate {
            script: Script::BundleContext,
            exception: 21,
            want: Want::Number { expected: 1, mismatch: 22 },
        },
        Step::Evaluate {
            script: Script::Bundle(BundleUse::HostCalls),
            exception: 23,
            want: Want::Anything,
        },
        Step::Evaluate {
            script: Script::BundleInvoke,
            exception: 24,
            want: Want::Promise { missing: 25 },
        },
        Step::Perform(Effect::Unlock),
    ]
}

pub(crate) fn bundle_start() -> (steps: Vec<Step>)
    ensures
        steps@ == bundle_start_steps(),
        crate::probe::plan_wf(steps@),
{
    vec![
        Step::Perform(Effect::ResetSyncCounters),
        Step::Perform(Effect::ResetAsyncCounters),
        Step::Perform(Effect::EnsureWaker),
        Step::Perform(Effect::Lock),
        Step::Perform(Effect::InstallSyncHostCall),
        Step::Perform(Effect::InstallAsyncHostCall),
        Step::Evaluate {
            script: Script::BundleContext,
            exception: 21,
            want: Want::Number { expected: 1, mismatch: 22 },
        },
        Step::Evaluate {
            script: Script::Bundle(BundleUse::HostCalls),
            exception: 23,
            want: Want::Anything,
        },
        Step::Evaluate {
            script: Script::BundleInvoke,
            exception: 24,
            want: Want::Promise { missing: 25 },
        },
        Step::Perform(Effect::Unlock),
    ]
}

/// The part of a plan that waits for the bundled mutation: it makes one asynchronous host call,
/// and one synchronous call after that.
pub open spec fn bundle_finish_steps() -> Seq<Step> {
    seq![
        Step::CounterIs { counter: Counter::AsyncCalls, expected: 1, mismatch: 26 },
        Step::CounterIs { counter: Counter::AsyncPayload, expected: 41, mismatch: 28 },
        Step::CounterIs { counter: Counter::TaskRuns, expected: 0, mismatch: 29 },
        Step::CounterIs { counter: Counter::SyncCalls, expected: 0, mismatch: 30 },
        Step::HostPromise { missing: 31 },
        Step::Perform(Effect::ProbeLock),
        Step::Await { slot: PromiseSlot::Invocation, failed: 38 },
        Step::CounterIs { counter: Counter::TaskRuns, expected: 1, mismatch: 32 },
        Step::CounterIs { counter: Counter::TaskReturned, expected: 42, mismatch: 33 },
        Step::CounterIs { counter: Counter::SyncCalls, expected: 1, mismatch: 34 },
        Step::CounterIs { counter: Counter::SyncPayload, expected: 41, mismatch: 35 },
        Step::CounterIs { counter: Counter::SyncReturned, expected: 42, mismatch: 36 },
        Step::Fulfilled { slot: PromiseSlot::Host, unfulfilled: 37 },
        Step::Fulfilled { slot: PromiseSlot::Invocation, unfulfilled: 38 },
        Step::Resolved { slot: PromiseSlot::Invocation, expected: 42, mismatch: 39 },
        Step::Evaluate {
            script: Script::BundleState,
            exception: 40,
            want: Want::Number { expected: 42, mismatch: 41 },
        },
        Step::Perform(Effect::Unlock),
    ]
}

pub(crate) fn bundle_finish() -> (steps: Vec<Step>)
    ensures
        steps@ == bundle_finish_steps(),
        crate::probe::plan_wf(steps@),
{
    vec![
        Step::CounterIs { counter: Counter::AsyncCalls, expected: 1, mismatch: 26 },
        Step::CounterIs { counter: Counter::AsyncPayload, expected: 41, mismatch: 28 },
        Step::CounterIs { counter: Counter::TaskRuns, expected: 0, mismatch: 29 },
        Step::CounterIs { counter: Counter::SyncCalls, expected: 0, mismatch: 30 },
        Step::HostPromise { missing: 31 },
        Step::Perform(Effect::ProbeLock),
        Step::Await { slot: PromiseSlot::Invocation, failed: 38 },
        Step::CounterIs { counter: Counter::TaskRuns, expected: 1, mismatch: 32 },
        Step::CounterIs { counter: Counter::TaskReturned, expected: 42, mismatch: 33 },
        Step::CounterIs { counter: Counter::SyncCalls, expected: 1, mismatch: 34 },
        Step::CounterIs { counter: Counter::SyncPayload, expected: 41, mismatch: 35 },
        Step::CounterIs { counter: Counter::SyncReturned, expected: 42, mismatch: 36 },
        Step::Fulfilled { slot: PromiseSlot::Host, unfulfilled: 37 },
        Step::Fulfilled { slot: PromiseSlot::Invocation, unfulfilled: 38 },
        Step::Resolved { slot: PromiseSlot::Invocation, expected: 42, mismatch: 39 },
        Step::Evaluate {
            script: Script::BundleState,
            exception: 40,
            want: Want::Number { expected: 42, mismatch: 41 },
        },
        Step::Perform(Effect::Unlock),
    ]
}

/// The part of a plan that runs a program that any healthy machine can run.
pub open spec fn recovery_steps(exception: i32, mismatch: i32) -> Seq<Step> {
    seq![
        Step::Perform(Effect::Lock),
        Step::Evaluate {
            script: Script::Recovery,
            exception,
            want: Want::Number { expected: 42, mismatch },
        },
        Step::Perform(Effect::Unlock),
    ]
}

pub(crate) fn recovery(exception: i32, mismatch: i32) -> (steps: Vec<Step>)
    requires
        exception != 0,
        mismatch != 0,
    ensures
        steps@ == recovery_steps(exception, mismatch),
        crate::probe::plan_wf(steps@),
{
    vec![
        Step::Perform(Effect::Lock),
        Step::Evaluate {
            script: Script::Recovery,
            exception,
            want: Want::Number { expected: 42, mismatch },
        },
        Step::Perform(Effect::Unlock),
    ]
}

/// The part of a plan that loads the bundle and keeps a program out whose token was cancelled
/// before.
pub open spec fn timeout_setup_steps() -> Seq<Step> {
    seq![
        Step::Perform(Effect::EnsureWaker),
        Step::Perform(Effect::Lock),
        Step::Perform(Effect::MaterializeTermination),
        Step::Evaluate {
            script: Script::TimeoutContext,
            exception: 62,
            want: Want::Number { expected: 1, mismatch: 63 },
        },
        Step::Evaluate {
            script: Script::Bundle(BundleUse::Timeout),
            exception: 42,
            want: Want::Anything,
        },
        Step::Perform(Effect::Unlock),
        Step::Gated {
            token: ProofCancellationToken { cancelled: true },
            script: Script::PreEntry,
            exception: 65,
            cancelled_status: 66,
            ran: 69,
        },
        Step::Perform(Effect::ProbeLock),
        Step::Evaluate {
            script: Script::PreEntryState,
            exception: 70,
            want: Want::Number { expected: 1, mismatch: 71 },
        },
        Step::Perform(Effect::Unlock),
    ]
}

pub(crate) fn timeout_setup() -> (steps: Vec<Step>)
    ensures
        steps@ == timeout_setup_steps(),
        crate::probe::plan_wf(steps@),
{
    vec![
        Step::Perform(Effect::EnsureWaker),
        Step::Perform(Effect::Lock),
        Step::Perform(Effect::MaterializeTermination),
        Step::Evaluate {
            script: Script::TimeoutContext,
            exception: 62,
            want: Want::Number { expected: 1, mismatch: 63 },
        },
        Step::Evaluate {
            script: Script::Bundle(BundleUse::Timeout),
            exception: 42,
            want: Want::Anything,
        },
        Step::Perform(Effect::Unlock),
        Step::Gated {
            token: ProofCancellationToken { cancelled: true },
            script: Script::PreEntry,
            exception: 65,
            cancelled_status: 66,
            ran: 69,
        },
        Step::Perform(Effect::ProbeLock),
        Step::Evaluate {
            script: Script::PreEntryState,
            exception: 70,
            want: Want::Number { expected: 1, mismatch: 71 },
        },
        Step::Perform(Effect::Unlock),
    ]
}

/// The part of a plan that reports the cancellation policy.
pub open spec fn timeout_report_steps() -> Seq<Step> {
    seq![
        Step::Report(ReportLine::Text("nimbus bun embed cancellation policy:")),
        Step::Report(
            ReportLine::Text("  before_guest_entry: owner_entry_gate_denied_and_recovered"),
        ),
        Step::Report(ReportLine::Text("  after_guest_entry_sync_loop: spin_entered_ack")),
        Step::Report(ReportLine::Text("  recovery_after_deadline_cancel: ok")),
        Step::Report(ReportLine::Text("  recovery_after_external_cancel: ok")),
        Step::Report(ReportLine::Text("  cancellation_timing_policy: state_ack_not_sleep")),
    ]
}

pub(crate) fn timeout_report() -> (steps: Vec<Step>)
    ensures
        steps@ == timeout_report_steps(),
        crate::probe::plan_wf(steps@),
{
    vec![
        Step::Report(ReportLine::Text("nimbus bun embed cancellation policy:")),
        Step::Report(
            ReportLine::Text("  before_guest_entry: owner_entry_gate_denied_and_recovered"),
        ),
        Step::Report(ReportLine::Text("  after_guest_entry_sync_loop: spin_entered_ack")),
        Step::Report(ReportLine::Text("  recovery_after_deadline_cancel: ok")),
        Step::Report(ReportLine::Text("  recovery_after_external_cancel: ok")),
        Step::Report(ReportLine::Text("  cancellation_timing_policy: state_ack_not_sleep")),
    ]
}

/// The part of a plan that loads the bundle, the deny profile and the classifiers.
pub open spec fn permission_setup_steps() -> Seq<Step> {
    seq![
        Step::Perform(Effect::EnsureWaker),
        Step::Perform(Effect::Lock),
        Step::Perform(Effect::InstallSyncHostCall),
        Step::Perform(Effect::InstallAsyncHostCall),
        Step::Evaluate {
            script: Script::PermissionContext,
            exception: 100,
            want: Want::Number { expected: 1, mismatch: 101 },
        },
        Step::Evaluate {
            script: Script::Bundle(BundleUse::Permission),
            exception: 102,
            want: Want::Anything,
        },
        Step::ApplyDenyProfile { failed: 105 },
        Step::Evaluate {
            script: Script::PermissionHelpers,
            exception: 103,
            want: Want::Number { expected: 1, mismatch: 104 },
        },
        Step::Report(ReportLine::Text("nimbus bun embed permission surface inventory:")),
    ]
}

pub(crate) fn permission_setup() -> (steps: Vec<Step>)
    ensures
        steps@ == permission_setup_steps(),
        crate::probe::plan_wf(steps@),
{
    vec![
        Step::Perform(Effect::EnsureWaker),
        Step::Perform(Effect::Lock),
        Step::Perform(Effect::InstallSyncHostCall),
        Step::Perform(Effect::InstallAsyncHostCall),
        Step::Evaluate {
            script: Script::PermissionContext,
            exception: 100,
            want: Want::Number { expected: 1, mismatch: 101 },
        },
        Step::Evaluate {
            script: Script::Bundle(BundleUse::Permission),
            exception: 102,
            want: Want::Anything,
        },
        Step::ApplyDenyProfile { failed: 105 },
        Step::Evaluate {
            script: Script::PermissionHelpers,
            exception: 103,
            want: Want::Number { expected: 1, mismatch: 104 },
        },
        Step::Report(ReportLine::Text("nimbus bun embed permission surface inventory:")),
    ]
}

/// The part of a plan that retains the payloads of sixteen invocations.
pub open spec fn memory_load_steps() -> Seq<Step> {
    seq![
        Step::Perform(Effect::ResetSyncCounters),
        Step::Perform(Effect::ResetAsyncCounters),
        Step::Perform(Effect::EnsureWaker),
        Step::Perform(Effect::Lock),
        Step::Perform(Effect::InstallSyncHostCall),
        Step::Perform(Effect::InstallAsyncHostCall),
        Step::Evaluate {
            script: Script::MemoryContext,
            exception: 180,
            want: Want::Number { expected: 1, mismatch: 181 },
        },
        Step::Evaluate {
            script: Script::Bundle(BundleUse::Memory),
            exception: 182,
            want: Want::Anything,
        },
        Step::Perform(Effect::Unlock),
        Step::CollectGarbage,
        Step::MeasureHeap,
        Step::Perform(Effect::Lock),
        Step::Evaluate {
            script: Script::MemoryInvocations,
            exception: 183,
            want: Want::Promise { missing: 184 },
        },
        Step::Perform(Effect::Unlock),
        Step::Perform(Effect::ProbeLock),
        Step::Await { slot: PromiseSlot::Invocation, failed: 185 },
        Step::Fulfilled { slot: PromiseSlot::Invocation, unfulfilled: 185 },
        Step::Resolved {
            slot: PromiseSlot::Invocation,
            expected: MEMORY_BEHAVIOR_INVOCATION_COUNT,
            mismatch: 186,
        },
        Step::Perform(Effect::Unlock),
        Step::CounterIs {
            counter: Counter::AsyncCalls,
            expected: MEMORY_BEHAVIOR_INVOCATION_COUNT,
            mismatch: 187,
        },
        Step::CounterIs {
            counter: Counter::TaskRuns,
            expected: MEMORY_BEHAVIOR_INVOCATION_COUNT,
            mismatch: 188,
        },
        Step::CounterIs {
            counter: Counter::SyncCalls,
            expected: MEMORY_BEHAVIOR_INVOCATION_COUNT,
            mismatch: 189,
        },
    ]
}

pub(crate) fn memory_load() -> (steps: Vec<Step>)
    ensures
        steps@ == memory_load_steps(),
        crate::probe::plan_wf(steps@),
{
    vec![
        Step::Perform(Effect::ResetSyncCounters),
        Step::Perform(Effect::ResetAsyncCounters),
        Step::Perform(Effect::EnsureWaker),
        Step::Perform(Effect::Lock),
        Step::Perform(Effect::InstallSyncHostCall),
        Step::Perform(Effect::InstallAsyncHostCall),
        Step::Evaluate {
            script: Script::MemoryContext,
            exception: 180,
            want: Want::Number { expected: 1, mismatch: 181 },
        },
        Step::Evaluate {
            script: Script::Bundle(BundleUse::Memory),
            exception: 182,
            want: Want::Anything,
        },
        Step::Perform(Effect::Unlock),
        Step::CollectGarbage,
        Step::MeasureHeap,
        Step::Perform(Effect::Lock),
        Step::Evaluate {
            script: Script::MemoryInvocations,
            exception: 183,
            want: Want::Promise { missing: 184 },
        },
        Step::Perform(Effect::Unlock),
        Step::Perform(Effect::ProbeLock),
        Step::Await { slot: PromiseSlot::Invocation, failed: 185 },
        Step::Fulfilled { slot: PromiseSlot::Invocation, unfulfilled: 185 },
        Step::Resolved {
            slot: PromiseSlot::Invocation,
            expected: MEMORY_BEHAVIOR_INVOCATION_COUNT,
            mismatch: 186,
        },
        Step::Perform(Effect::Unlock),
        Step::CounterIs {
            counter: Counter::AsyncCalls,
            expected: MEMORY_BEHAVIOR_INVOCATION_COUNT,
            mismatch: 187,
        },
        Step::CounterIs {
            counter: Counter::TaskRuns,
            expected: MEMORY_BEHAVIOR_INVOCATION_COUNT,
            mismatch: 188,
        },
        Step::CounterIs {
            counter: Counter::SyncCalls,
            expected: MEMORY_BEHAVIOR_INVOCATION_COUNT,
            mismatch: 189,
        },
    ]
}

/// The part of a plan that samples the heap, releases the payloads and samples it again.
pub open spec fn memory_release_steps() -> Seq<Step> {
    seq![
        Step::MeasureHeap,
        Step::CollectGarbage,
        Step::Perform(Effect::Lock),
        Step::Evaluate {
            script: Script::MemoryRelease,
            exception: 190,
            want: Want::Number { expected: 1, mismatch: 191 },
        },
        Step::Perform(Effect::Unlock),
        Step::CollectGarbage,
        Step::Perform(Effect::Lock),
        Step::Perform(Effect::ShrinkFootprint),
        Step::MeasureHeap,
        Step::Perform(Effect::Unlock),
    ]
}

pub(crate) fn memory_release() -> (steps: Vec<Step>)
    ensures
        steps@ == memory_release_steps(),
        crate::probe::plan_wf(steps@),
{
    vec![
        Step::MeasureHeap,
        Step::CollectGarbage,
        Step::Perform(Effect::Lock),
        Step::Evaluate {
            script: Script::MemoryRelease,
            exception: 190,
            want: Want::Number { expected: 1, mismatch: 191 },
        },
        Step::Perform(Effect::Unlock),
        Step::CollectGarbage,
        Step::Perform(Effect::Lock),
        Step::Perform(Effect::ShrinkFootprint),
        Step::MeasureHeap,
        Step::Perform(Effect::Unlock),
    ]
}

/// The part of a plan that reports the samples; the retained payloads must show after a full
/// collection.
pub open spec fn memory_report_steps() -> Seq<Step> {
    seq![
        Step::Report(ReportLine::Text("nimbus bun embed memory behavior:")),
        Step::Report(
            ReportLine::Count {
                label: "invocation_count",
                value: MEMORY_BEHAVIOR_INVOCATION_COUNT,
            },
        ),
        Step::Report(ReportLine::HeapBytes { label: "heap_after_setup_gc_bytes", sample: 0 }),
        Step::Report(ReportLine::HeapBytes { label: "heap_before_load_bytes", sample: 1 }),
        Step::Report(ReportLine::HeapBytes { label: "heap_after_load_bytes", sample: 2 }),
        Step::Report(ReportLine::HeapBytes { label: "heap_retained_after_gc_bytes", sample: 3 }),
        Step::Report(ReportLine::HeapBytes { label: "heap_after_release_gc_bytes", sample: 4 }),
        Step::Report(ReportLine::HeapBytes { label: "heap_after_shrink_bytes", sample: 5 }),
        Step::Report(
            ReportLine::HeapDifference {
                label: "observed_load_growth_bytes",
                larger: 2,
                smaller: 1,
            },
        ),
        Step::Report(
            ReportLine::HeapDifference {
                label: "observed_gc_retained_growth_bytes",
                larger: 3,
                smaller: 0,
            },
        ),
        Step::Report(
            ReportLine::HeapDifference {
                label: "observed_release_drop_bytes",
                larger: 3,
                smaller: 4,
            },
        ),
        Step::Report(ReportLine::Text("  hard_heap_limit: not_observed")),
        Step::Report(ReportLine::Text("  growth_assertion: full_gc_live_size")),
        Step::Report(ReportLine::Text("  pressure_signal: vm.heap_size_and_sync_gc")),
        Step::Report(ReportLine::Text("  safe_first_policy: fresh_vm_or_discard_on_pressure")),
        Step::HeapGrew { before: 0, after: 3, flat: 192 },
    ]
}

pub(crate) fn memory_report() -> (steps: Vec<Step>)
    ensures
        steps@ == memory_report_steps(),
        crate::probe::plan_wf(steps@),
{
    vec![
        Step::Report(ReportLine::Text("nimbus bun embed memory behavior:")),
        Step::Report(
            ReportLine::Count {
                label: "invocation_count",
                value: MEMORY_BEHAVIOR_INVOCATION_COUNT,
            },
        ),
        Step::Report(ReportLine::HeapBytes { label: "heap_after_setup_gc_bytes", sample: 0 }),
        Step::Report(ReportLine::HeapBytes { label: "heap_before_load_bytes", sample: 1 }),
        Step::Report(ReportLine::HeapBytes { label: "heap_after_load_bytes", sample: 2 }),
        Step::Report(ReportLine::HeapBytes { label: "heap_retained_after_gc_bytes", sample: 3 }),
        Step::Report(ReportLine::HeapBytes { label: "heap_after_release_gc_bytes", sample: 4 }),
        Step::Report(ReportLine::HeapBytes { label: "heap_after_shrink_bytes", sample: 5 }),
        Step::Report(
            ReportLine::HeapDifference {
                label: "observed_load_growth_bytes",
                larger: 2,
                smaller: 1,
            },
        ),
        Step::Report(
            ReportLine::HeapDifference {
                label: "observed_gc_retained_growth_bytes",
                larger: 3,
                smaller: 0,
            },
        ),
        Step::Report(
            ReportLine::HeapDifference {
                label: "observed_release_drop_bytes",
                larger: 3,
                smaller: 4,
            },
        ),
        Step::Report(ReportLine::Text("  hard_heap_limit: not_observed")),
        Step::Report(ReportLine::Text("  growth_assertion: full_gc_live_size")),
        Step::Report(ReportLine::Text("  pressure_signal: vm.heap_size_and_sync_gc")),
        Step::Report(ReportLine::Text("  safe_first_policy: fresh_vm_or_discard_on_pressure")),
        Step::HeapGrew { before: 0, after: 3, flat: 192 },
    ]
}

/// The part of a plan that loads the bundle; a static import is no program.
pub open spec fn module_setup_steps() -> Seq<Step> {
    seq![
        Step::Perform(Effect::EnsureWaker),
        Step::Perform(Effect::ProbeLock),
        Step::Evaluate {
            script: Script::ModuleContext,
            exception: 200,
            want: Want::Number { expected: 1, mismatch: 201 },
        },
        Step::Evaluate {
            script: Script::Bundle(BundleUse::Module),
            exception: 202,
            want: Want::Anything,
        },
        Step::Evaluate {
            script: Script::WrapperLoaded,
            exception: 203,
            want: Want::Number { expected: 1, mismatch: 204 },
        },
        Step::EvaluateRejected { script: Script::StaticEsm, accepted: 206 },
        Step::Perform(Effect::Unlock),
        Step::Perform(Effect::DenyResolution),
    ]
}

pub(crate) fn module_setup() -> (steps: Vec<Step>)
    ensures
        steps@ == module_setup_steps(),
        crate::probe::plan_wf(steps@),
{
    vec![
        Step::Perform(Effect::EnsureWaker),
        Step::Perform(Effect::ProbeLock),
        Step::Evaluate {
            script: Script::ModuleContext,
            exception: 200,
            want: Want::Number { expected: 1, mismatch: 201 },
        },
        Step::Evaluate {
            script: Script::Bundle(BundleUse::Module),
            exception: 202,
            want: Want::Anything,
        },
        Step::Evaluate {
            script: Script::WrapperLoaded,
            exception: 203,
            want: Want::Number { expected: 1, mismatch: 204 },
        },
        Step::EvaluateRejected { script: Script::StaticEsm, accepted: 206 },
        Step::Perform(Effect::Unlock),
        Step::Perform(Effect::DenyResolution),
    ]
}

/// The part of a plan that reads how each dynamic import ends.
pub open spec fn module_imports_steps() -> Seq<Step> {
    seq![
        Step::Perform(Effect::ProbeLock),
        Step::ReadSettled { script: Script::ImportNodeFs, exception: 207, mismatch: 209 },
        Step::Settle { rejected: 208, mismatch: 209 },
        Step::Perform(Effect::Unlock),
        Step::Perform(Effect::ProbeLock),
        Step::ReadSettled { script: Script::ImportPackage, exception: 230, mismatch: 232 },
        Step::Settle { rejected: 231, mismatch: 232 },
        Step::Perform(Effect::Unlock),
        Step::Perform(Effect::ProbeLock),
        Step::ReadSettled { script: Script::ImportPlugin, exception: 233, mismatch: 235 },
        Step::Settle { rejected: 234, mismatch: 235 },
        Step::Perform(Effect::Unlock),
        Step::Perform(Effect::ProbeLock),
        Step::ReadSettled { script: Script::ImportNodeVm, exception: 247, mismatch: 249 },
        Step::Settle { rejected: 248, mismatch: 249 },
        Step::Perform(Effect::Unlock),
    ]
}

pub(crate) fn module_imports() -> (steps: Vec<Step>)
    ensures
        steps@ == module_imports_steps(),
        crate::probe::plan_wf(steps@),
{
    vec![
        Step::Perform(Effect::ProbeLock),
        Step::ReadSettled { script: Script::ImportNodeFs, exception: 207, mismatch: 209 },
        Step::Settle { rejected: 208, mismatch: 209 },
        Step::Perform(Effect::Unlock),
        Step::Perform(Effect::ProbeLock),
        Step::ReadSettled { script: Script::ImportPackage, exception: 230, mismatch: 232 },
        Step::Settle { rejected: 231, mismatch: 232 },
        Step::Perform(Effect::Unlock),
        Step::Perform(Effect::ProbeLock),
        Step::ReadSettled { script: Script::ImportPlugin, exception: 233, mismatch: 235 },
        Step::Settle { rejected: 234, mismatch: 235 },
        Step::Perform(Effect::Unlock),
        Step::Perform(Effect::ProbeLock),
        Step::ReadSettled { script: Script::ImportNodeVm, exception: 247, mismatch: 249 },
        Step::Settle { rejected: 248, mismatch: 249 },
        Step::Perform(Effect::Unlock),
    ]
}

/// The part of a plan that reads how `require`, the resolvers and the helpers of the bundle
/// end.
pub open spec fn module_resolvers_steps() -> Seq<Step> {
    seq![
        Step::Perform(Effect::ProbeLock),
        Step::ReadNumber { script: Script::RequireStatus, exception: 212, mismatch: 213 },
        Step::Perform(Effect::Unlock),
        Step::Perform(Effect::ProbeLock),
        Step::ReadSettled { script: Script::BunResolve, exception: 214, mismatch: 216 },
        Step::Settle { rejected: 215, mismatch: 216 },
        Step::Perform(Effect::Unlock),
        Step::Perform(Effect::ProbeLock),
        Step::ReadNumber { script: Script::BunResolveSync, exception: 217, mismatch: 218 },
        Step::Perform(Effect::Unlock),
        Step::Perform(Effect::ProbeLock),
        Step::ReadNumber { script: Script::NativeAddonResolveSync, exception: 236, mismatch: 237 },
        Step::Perform(Effect::Unlock),
        Step::Perform(Effect::ProbeLock),
        Step::ReadSettled { script: Script::WrapperNodeBuiltin, exception: 219, mismatch: 223 },
        Step::Settle { rejected: 220, mismatch: 223 },
        Step::Perform(Effect::Unlock),
        Step::Perform(Effect::ProbeLock),
        Step::ReadSettled { script: Script::WrapperExternalPackage, exception: 221, mismatch: 224 },
        Step::Settle { rejected: 222, mismatch: 224 },
        Step::Perform(Effect::Unlock),
    ]
}

pub(crate) fn module_resolvers() -> (steps: Vec<Step>)
    ensures
        steps@ == module_resolvers_steps(),
        crate::probe::plan_wf(steps@),
{
    vec![
        Step::Perform(Effect::ProbeLock),
        Step::ReadNumber { script: Script::RequireStatus, exception: 212, mismatch: 213 },
        Step::Perform(Effect::Unlock),
        Step::Perform(Effect::ProbeLock),
        Step::ReadSettled { script: Script::BunResolve, exception: 214, mismatch: 216 },
        Step::Settle { rejected: 215, mismatch: 216 },
        Step::Perform(Effect::Unlock),
        Step::Perform(Effect::ProbeLock),
        Step::ReadNumber { script: Script::BunResolveSync, exception: 217, mismatch: 218 },
        Step::Perform(Effect::Unlock),
        Step::Perform(Effect::ProbeLock),
        Step::ReadNumber { script: Script::NativeAddonResolveSync, exception: 236, mismatch: 237 },
        Step::Perform(Effect::Unlock),
        Step::Perform(Effect::ProbeLock),
        Step::ReadSettled { script: Script::WrapperNodeBuiltin, exception: 219, mismatch: 223 },
        Step::Settle { rejected: 220, mismatch: 223 },
        Step::Perform(Effect::Unlock),
        Step::Perform(Effect::ProbeLock),
        Step::ReadSettled { script: Script::WrapperExternalPackage, exception: 221, mismatch: 224 },
        Step::Settle { rejected: 222, mismatch: 224 },
        Step::Perform(Effect::Unlock),
    ]
}

/// The part of a plan that reports what was read.
pub open spec fn module_report_steps() -> Seq<Step> {
    seq![
        Step::Report(ReportLine::Text("nimbus bun embed package/module policy:")),
        Step::Report(ReportLine::Text("  artifact_shape: self_contained_program_wrapper")),
        Step::Report(ReportLine::Text("  evaluation_format: program_via_Bun__REPL__evaluate")),
        Step::Report(ReportLine::Text("  static_esm_import_in_program: rejected")),
        Step::Report(ReportLine::Policy { label: "dynamic_import_node_fs", reading: 0 }),
        Step::Report(ReportLine::Policy { label: "dynamic_import_package_root", reading: 1 }),
        Step::Report(ReportLine::Policy { label: "plugin_virtual_module_import", reading: 2 }),
        Step::Report(ReportLine::Policy { label: "node_vm_module_import", reading: 3 }),
        Step::Report(ReportLine::Policy { label: "require", reading: 4 }),
        Step::Report(ReportLine::Text("  require.resolve: unreachable_with_require")),
        Step::Report(ReportLine::Text("  import.meta.resolve: unreachable_with_static_esm")),
        Step::Report(ReportLine::Text("  node_vm_global: unreachable_with_node_vm_module")),
        Step::Report(ReportLine::Policy { label: "Bun.resolve", reading: 5 }),
        Step::Report(ReportLine::Policy { label: "Bun.resolveSync", reading: 6 }),
        Step::Report(ReportLine::Policy { label: "native_addon_resolveSync", reading: 7 }),
        Step::Report(ReportLine::Policy { label: "generated_node_builtin_helper", reading: 8 }),
        Step::Report(ReportLine::Policy { label: "generated_external_package_helper", reading: 9 }),
        Step::Report(ReportLine::Text("  selected_next_lane: program_wrapper")),
        Step::Report(ReportLine::Text("  resolver_policy_hook: native_embedder_deny_all")),
        Step::Report(
            ReportLine::Text("  required_resolver_api: nimbus_owned_bun_package_resolver"),
        ),
    ]
}

pub(crate) fn module_report() -> (steps: Vec<Step>)
    ensures
        steps@ == module_report_steps(),
        crate::probe::plan_wf(steps@),
{
    vec![
        Step::Report(ReportLine::Text("nimbus bun embed package/module policy:")),
        Step::Report(ReportLine::Text("  artifact_shape: self_contained_program_wrapper")),
        Step::Report(ReportLine::Text("  evaluation_format: program_via_Bun__REPL__evaluate")),
        Step::Report(ReportLine::Text("  static_esm_import_in_program: rejected")),
        Step::Report(ReportLine::Policy { label: "dynamic_import_node_fs", reading: 0 }),
        Step::Report(ReportLine::Policy { label: "dynamic_import_package_root", reading: 1 }),
        Step::Report(ReportLine::Policy { label: "plugin_virtual_module_import", reading: 2 }),
        Step::Report(ReportLine::Policy { label: "node_vm_module_import", reading: 3 }),
        Step::Report(ReportLine::Policy { label: "require", reading: 4 }),
        Step::Report(ReportLine::Text("  require.resolve: unreachable_with_require")),
        Step::Report(ReportLine::Text("  import.meta.resolve: unreachable_with_static_esm")),
        Step::Report(ReportLine::Text("  node_vm_global: unreachable_with_node_vm_module")),
        Step::Report(ReportLine::Policy { label: "Bun.resolve", reading: 5 }),
        Step::Report(ReportLine::Policy { label: "Bun.resolveSync", reading: 6 }),
        Step::Report(ReportLine::Policy { label: "native_addon_resolveSync", reading: 7 }),
        Step::Report(ReportLine::Policy { label: "generated_node_builtin_helper", reading: 8 }),
        Step::Report(ReportLine::Policy { label: "generated_external_package_helper", reading: 9 }),
        Step::Report(ReportLine::Text("  selected_next_lane: program_wrapper")),
        Step::Report(ReportLine::Text("  resolver_policy_hook: native_embedder_deny_all")),
        Step::Report(
            ReportLine::Text("  required_resolver_api: nimbus_owned_bun_package_resolver"),
        ),
    ]
}

/// The part of a plan that wants `require` to be absent and everything else to be denied by the
/// resolver.
pub open spec fn module_verdict_steps() -> Seq<Step> {
    seq![
        Step::ReadingIs { index: 4, expected: 1, mismatch: 240 },
        Step::ReadingIs { index: 0, expected: 8, mismatch: 241 },
        Step::ReadingIs { index: 1, expected: 8, mismatch: 242 },
        Step::ReadingIs { index: 2, expected: 8, mismatch: 243 },
        Step::ReadingIs { index: 3, expected: 8, mismatch: 247 },
        Step::ReadingIs { index: 5, expected: 8, mismatch: 244 },
        Step::ReadingIs { index: 6, expected: 8, mismatch: 244 },
        Step::ReadingIs { index: 7, expected: 8, mismatch: 245 },
        Step::ReadingIs { index: 8, expected: 8, mismatch: 246 },
        Step::ReadingIs { index: 9, expected: 8, mismatch: 246 },
    ]
}

pub(crate) fn module_verdict() -> (steps: Vec<Step>)
    ensures
        steps@ == module_verdict_steps(),
        crate::probe::plan_wf(steps@),
{
    vec![
        Step::ReadingIs { index: 4, expected: 1, mismatch: 240 },
        Step::ReadingIs { index: 0, expected: 8, mismatch: 241 },
        Step::ReadingIs { index: 1, expected: 8, mismatch: 242 },
        Step::ReadingIs { index: 2, expected: 8, mismatch: 243 },
        Step::ReadingIs { index: 3, expected: 8, mismatch: 247 },
        Step::ReadingIs { index: 5, expected: 8, mismatch: 244 },
        Step::ReadingIs { index: 6, expected: 8, mismatch: 244 },
        Step::ReadingIs { index: 7, expected: 8, mismatch: 245 },
        Step::ReadingIs { index: 8, expected: 8, mismatch: 246 },
        Step::ReadingIs { index: 9, expected: 8, mismatch: 246 },
    ]
}

/// The part of a plan that loads the bundle.
pub open spec fn lifecycle_setup_steps() -> Seq<Step> {
    seq![
        Step::Perform(Effect::ResetSyncCounters),
        Step::Perform(Effect::ResetAsyncCounters),
        Step::Perform(Effect::EnsureWaker),
        Step::Perform(Effect::ProbeLock),
        Step::Perform(Effect::MaterializeTermination),
        Step::Perform(Effect::InstallSyncHostCall),
        Step::Perform(Effect::InstallAsyncHostCall),
        Step::Evaluate {
            script: Script::LifecycleContext,
            exception: 230,
            want: Want::Number { expected: 1, mismatch: 231 },
        },
        Step::Evaluate {
            script: Script::Bundle(BundleUse::Lifecycle),
            exception: 232,
            want: Want::Anything,
        },
        Step::Perform(Effect::Unlock),
    ]
}

pub(crate) fn lifecycle_setup() -> (steps: Vec<Step>)
    ensures
        steps@ == lifecycle_setup_steps(),
        crate::probe::plan_wf(steps@),
{
    vec![
        Step::Perform(Effect::ResetSyncCounters),
        Step::Perform(Effect::ResetAsyncCounters),
        Step::Perform(Effect::EnsureWaker),
        Step::Perform(Effect::ProbeLock),
        Step::Perform(Effect::MaterializeTermination),
        Step::Perform(Effect::InstallSyncHostCall),
        Step::Perform(Effect::InstallAsyncHostCall),
        Step::Evaluate {
            script: Script::LifecycleContext,
            exception: 230,
            want: Want::Number { expected: 1, mismatch: 231 },
        },
        Step::Evaluate {
            script: Script::Bundle(BundleUse::Lifecycle),
            exception: 232,
            want: Want::Anything,
        },
        Step::Perform(Effect::Unlock),
    ]
}

/// The part of a plan that invokes the bundled mutation once and expects the id of the message
/// that it inserts.
pub open spec fn lifecycle_invocation_steps(
    body: LifecycleBody,
    message_id: i32,
    base: i32,
) -> Seq<Step> {
    seq![
        Step::Perform(Effect::ProbeLock),
        Step::Evaluate {
            script: Script::LifecycleInvoke { body, message_id },
            exception: base,
            want: Want::Promise { missing: (base + 1) as i32 },
        },
        Step::Await { slot: PromiseSlot::Invocation, failed: (base + 2) as i32 },
        Step::Fulfilled { slot: PromiseSlot::Invocation, unfulfilled: (base + 2) as i32 },
        Step::Resolved { slot: PromiseSlot::Invocation, expected: 42, mismatch: (base + 3) as i32 },
        Step::Perform(Effect::Unlock),
    ]
}

pub(crate) fn lifecycle_invocation(
    body: LifecycleBody,
    message_id: i32,
    base: i32,
) -> (steps: Vec<Step>)
    requires
        0 < base < 1000,
    ensures
        steps@ == lifecycle_invocation_steps(body, message_id, base),
        crate::probe::plan_wf(steps@),
{
    vec![
        Step::Perform(Effect::ProbeLock),
        Step::Evaluate {
            script: Script::LifecycleInvoke { body, message_id },
            exception: base,
            want: Want::Promise { missing: base + 1 },
        },
        Step::Await { slot: PromiseSlot::Invocation, failed: base + 2 },
        Step::Fulfilled { slot: PromiseSlot::Invocation, unfulfilled: base + 2 },
        Step::Resolved { slot: PromiseSlot::Invocation, expected: 42, mismatch: base + 3 },
        Step::Perform(Effect::Unlock),
    ]
}

/// The part of a plan that wants every invocation to have made each host call once.
pub open spec fn lifecycle_counts_steps(expected: i32, base: i32) -> Seq<Step> {
    seq![
        Step::CounterIs { counter: Counter::AsyncCalls, expected, mismatch: base },
        Step::CounterIs { counter: Counter::TaskRuns, expected, mismatch: (base + 1) as i32 },
        Step::CounterIs { counter: Counter::SyncCalls, expected, mismatch: (base + 2) as i32 },
    ]
}

pub(crate) fn lifecycle_counts(expected: i32, base: i32) -> (steps: Vec<Step>)
    requires
        0 < base < 1000,
    ensures
        steps@ == lifecycle_counts_steps(expected, base),
        crate::probe::plan_wf(steps@),
{
    vec![
        Step::CounterIs { counter: Counter::AsyncCalls, expected, mismatch: base },
        Step::CounterIs { counter: Counter::TaskRuns, expected, mismatch: base + 1 },
        Step::CounterIs { counter: Counter::SyncCalls, expected, mismatch: base + 2 },
    ]
}

/// The part of a plan that checks the state that all invocations left.
pub open spec fn lifecycle_state_steps() -> Seq<Step> {
    seq![
        Step::Perform(Effect::ProbeLock),
        Step::Evaluate {
            script: Script::LifecycleState { expected_total: 9 },
            exception: 242,
            want: Want::Number { expected: 42, mismatch: 243 },
        },
        Step::Perform(Effect::Unlock),
    ]
}

pub(crate) fn lifecycle_state() -> (steps: Vec<Step>)
    ensures
        steps@ == lifecycle_state_steps(),
        crate::probe::plan_wf(steps@),
{
    vec![
        Step::Perform(Effect::ProbeLock),
        Step::Evaluate {
            script: Script::LifecycleState { expected_total: 9 },
            exception: 242,
            want: Want::Number { expected: 42, mismatch: 243 },
        },
        Step::Perform(Effect::Unlock),
    ]
}

/// The part of a plan that reports the lifecycle policy.
pub open spec fn lifecycle_report_steps() -> Seq<Step> {
    seq![
        Step::Report(ReportLine::Text("nimbus bun embed lifecycle reuse stress:")),
        Step::Report(
            ReportLine::Count {
                label: "fresh_vm_create_invoke_destroy_iterations",
                value: LIFECYCLE_FRESH_VM_ITERATIONS as i32,
            },
        ),
        Step::Report(
            ReportLine::Count {
                label: "retained_vm_invocations_before_cancel",
                value: LIFECYCLE_RETAINED_INVOCATIONS,
            },
        ),
        Step::Report(
            ReportLine::Count {
                label: "external_cancel_recovery_iterations",
                value: LIFECYCLE_CANCEL_ITERATIONS as i32,
            },
        ),
        Step::Report(ReportLine::Text("  external_cancel_trigger: spin_entered_ack")),
        Step::Report(ReportLine::Text("  cancellation_timing_policy: state_ack_not_sleep")),
        Step::Report(
            ReportLine::Text("  normal_completion_before_cancel: retained_invocations_ok"),
        ),
        Step::Report(ReportLine::Text("  promise_microtask_progress: async_host_bridge_ok")),
        Step::Report(ReportLine::Text("  teardown_loop: fresh_vm_create_invoke_destroy_ok")),
        Step::Report(ReportLine::Text("  retained_vm_post_cancel_invocation: ok")),
        Step::Report(ReportLine::Text("  retained_vm_reuse: trusted_generated_wrapper_ok")),
        Step::Report(
            ReportLine::Text(
                "  product_first_policy: fresh_vm_or_discard_with_outer_quota_required",
            ),
        ),
    ]
}

pub(crate) fn lifecycle_report() -> (steps: Vec<Step>)
    ensures
        steps@ == lifecycle_report_steps(),
        crate::probe::plan_wf(steps@),
{
    vec![
        Step::Report(ReportLine::Text("nimbus bun embed lifecycle reuse stress:")),
        Step::Report(
            ReportLine::Count {
                label: "fresh_vm_create_invoke_destroy_iterations",
                value: LIFECYCLE_FRESH_VM_ITERATIONS as i32,
            },
        ),
        Step::Report(
            ReportLine::Count {
                label: "retained_vm_invocations_before_cancel",
                value: LIFECYCLE_RETAINED_INVOCATIONS,
            },
        ),
        Step::Report(
            ReportLine::Count {
                label: "external_cancel_recovery_iterations",
                value: LIFECYCLE_CANCEL_ITERATIONS as i32,
            },
        ),
        Step::Report(ReportLine::Text("  external_cancel_trigger: spin_entered_ack")),
        Step::Report(ReportLine::Text("  cancellation_timing_policy: state_ack_not_sleep")),
        Step::Report(
            ReportLine::Text("  normal_completion_before_cancel: retained_invocations_ok"),
        ),
        Step::Report(ReportLine::Text("  promise_microtask_progress: async_host_bridge_ok")),
        Step::Report(ReportLine::Text("  teardown_loop: fresh_vm_create_invoke_destroy_ok")),
        Step::Report(ReportLine::Text("  retained_vm_post_cancel_invocation: ok")),
        Step::Report(ReportLine::Text("  retained_vm_reuse: trusted_generated_wrapper_ok")),
        Step::Report(
            ReportLine::Text(
                "  product_first_policy: fresh_vm_or_discard_with_outer_quota_required",
            ),
        ),
    ]
}

/// The part of a plan that denies resolution, parses the request, keeps it alive and applies the
/// deny profile.
pub open spec fn invocation_request_steps() -> Seq<Step> {
    seq![
        Step::Perform(Effect::EnsureWaker),
        Step::Perform(Effect::DenyResolution),
        Step::Perform(Effect::ProbeLock),
        Step::ParseRequest { malformed: 301 },
        Step::Perform(Effect::ProtectRequest),
        Step::ApplyDenyProfile { failed: 315 },
    ]
}

pub(crate) fn invocation_request() -> (steps: Vec<Step>)
    ensures
        steps@ == invocation_request_steps(),
        crate::probe::plan_wf(steps@),
{
    vec![
        Step::Perform(Effect::EnsureWaker),
        Step::Perform(Effect::DenyResolution),
        Step::Perform(Effect::ProbeLock),
        Step::ParseRequest { malformed: 301 },
        Step::Perform(Effect::ProtectRequest),
        Step::ApplyDenyProfile { failed: 315 },
    ]
}

/// The part of a plan that installs the host bridge and the transport that hides it from tenant
/// code.
pub open spec fn host_bridge_transport_steps() -> Seq<Step> {
    seq![
        Step::Perform(Effect::InstallHostBridgeCall),
        Step::Evaluate {
            script: Script::HostBridgeTransport,
            exception: 309,
            want: Want::Number { expected: 1, mismatch: 310 },
        },
    ]
}

pub(crate) fn host_bridge_transport() -> (steps: Vec<Step>)
    ensures
        steps@ == host_bridge_transport_steps(),
        crate::probe::plan_wf(steps@),
{
    vec![
        Step::Perform(Effect::InstallHostBridgeCall),
        Step::Evaluate {
            script: Script::HostBridgeTransport,
            exception: 309,
            want: Want::Number { expected: 1, mismatch: 310 },
        },
    ]
}

/// The part of a plan that evaluates the bundle, calls its entry point with the request and turns
/// the result into text.
pub open spec fn invocation_call_steps() -> Seq<Step> {
    seq![
        Step::Evaluate { script: Script::ProgramWrapper, exception: 302, want: Want::Anything },
        Step::LookupInvoke { missing: 303 },
        Step::CallInvoke { failed: 303 },
        Step::SettleCall { failed: 304 },
        Step::Stringify { failed: 305, dead: 306 },
        Step::Perform(Effect::LetRequestGo),
        Step::Perform(Effect::Unlock),
    ]
}

pub(crate) fn invocation_call() -> (steps: Vec<Step>)
    ensures
        steps@ == invocation_call_steps(),
        crate::probe::plan_wf(steps@),
{
    vec![
        Step::Evaluate { script: Script::ProgramWrapper, exception: 302, want: Want::Anything },
        Step::LookupInvoke { missing: 303 },
        Step::CallInvoke { failed: 303 },
        Step::SettleCall { failed: 304 },
        Step::Stringify { failed: 305, dead: 306 },
        Step::Perform(Effect::LetRequestGo),
        Step::Perform(Effect::Unlock),
    ]
}
} // verus!
