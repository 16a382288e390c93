//! A probe reports no value that it has not read.
use vstd::prelude::*;

use crate::plan_parts;
use crate::probe;
use crate::probe::{Effect, Observation, RunState, Step, Want};
use crate::probe_laws;
use crate::probes;
use crate::script::{LifecycleBody, SpinPolicy};
use crate::surfaces::PERMISSION_SURFACE_COUNT;

verus! {

/// How many numbers the step reads; a promise counts as the number that it is settled with.
pub open spec fn reads(step: Step) -> nat {
    match step {
        Step::ReadNumber { .. } | Step::ReadSettled { .. } | Step::Evaluate {
            want: Want::Classification { .. },
            ..
        } => 1,
        _ => 0,
    }
}

/// How many samples of the heap the step takes.
pub open spec fn samples(step: Step) -> nat {
    match step {
        Step::CollectGarbage | Step::MeasureHeap => 1,
        _ => 0,
    }
}

/// How many numbers the first `k` steps read.
pub open spec fn reads_before(steps: Seq<Step>, k: int) -> nat
    decreases k,
{
    if k <= 0 {
        0
    } else {
        reads_before(steps, k - 1) + reads(steps[k - 1])
    }
}

/// How many samples the first `k` steps take.
pub open spec fn samples_before(steps: Seq<Step>, k: int) -> nat
    decreases k,
{
    if k <= 0 {
        0
    } else {
        samples_before(steps, k - 1) + samples(steps[k - 1])
    }
}

/// The step waits for a promise that the step before it may have read.
pub open spec fn settled(steps: Seq<Step>, k: int) -> bool {
    k + 1 < steps.len() && steps[k + 1] is Settle
}

/// Steps that begin with `r` numbers and `s` samples, end with `r2` and `s2`, and report only what
/// was read.
pub open spec fn reports_what_it_read(steps: Seq<Step>, r: nat, s: nat, r2: nat, s2: nat) -> bool {
    &&& r + reads_before(steps, steps.len() as int) == r2
    &&& s + samples_before(steps, steps.len() as int) == s2
    &&& forall|k: int|
        0 <= k < steps.len() ==> match #[trigger] steps[k] {
            Step::Report(line) => line.shows_known_values(
                r + reads_before(steps, k),
                s + samples_before(steps, k),
            ),
            Step::ReadSettled { .. } => settled(steps, k),
            Step::CallInvoke { .. } => false,
            _ => true,
        }
}

proof fn lemma_counts_of_concatenation(first: Seq<Step>, second: Seq<Step>, k: int)
    requires
        0 <= k <= first.len() + second.len(),
    ensures
        k <= first.len() ==> {
            &&& reads_before(first + second, k) == reads_before(first, k)
            &&& samples_before(first + second, k) == samples_before(first, k)
        },
        k >= first.len() ==> {
            &&& reads_before(first + second, k) == reads_before(first, first.len() as int)
                + reads_before(second, k - first.len())
            &&& samples_before(first + second, k) == samples_before(first, first.len() as int)
                + samples_before(second, k - first.len())
        },
    decreases k,
{
    if k > 0 {
        lemma_counts_of_concatenation(first, second, k - 1);
    }
}

proof fn lemma_concatenation(
    first: Seq<Step>,
    second: Seq<Step>,
    r: nat,
    s: nat,
    r1: nat,
    s1: nat,
    r2: nat,
    s2: nat,
)
    requires
        reports_what_it_read(first, r, s, r1, s1),
        reports_what_it_read(second, r1, s1, r2, s2),
    ensures
        reports_what_it_read(first + second, r, s, r2, s2),
{
    let both = first + second;
    lemma_counts_of_concatenation(first, second, both.len() as int);
    assert forall|k: int| 0 <= k < both.len() implies match #[trigger] both[k] {
        Step::Report(line) => line.shows_known_values(
            r + reads_before(both, k),
            s + samples_before(both, k),
        ),
        Step::ReadSettled { .. } => settled(both, k),
        Step::CallInvoke { .. } => false,
        _ => true,
    } by {
        lemma_counts_of_concatenation(first, second, k);
        if k < first.len() {
            assert(both[k] == first[k]);
            if first[k] is ReadSettled {
                assert(settled(first, k));
                assert(both[k + 1] == first[k + 1]);
            }
        } else {
            let j = k - first.len();
            assert(both[k] == second[j]);
            if second[j] is ReadSettled {
                assert(settled(second, j));
                assert(both[k + 1] == second[j + 1]);
            }
        }
    }
}

#[verifier::rlimit(60)]
proof fn lemma_memory_parts()
    ensures
        reports_what_it_read(plan_parts::memory_load_steps(), 0, 0, 0, 2),
        reports_what_it_read(plan_parts::memory_release_steps(), 0, 2, 0, 6),
        reports_what_it_read(plan_parts::memory_report_steps(), 0, 6, 0, 6),
{
    reveal_with_fuel(reads_before, 24);
    reveal_with_fuel(samples_before, 24);
}

pub proof fn lemma_memory()
    ensures
        reports_what_it_read(probes::memory_behavior_steps(), 0, 0, 0, 6),
{
    let load = plan_parts::memory_load_steps();
    let release = plan_parts::memory_release_steps();
    let report = plan_parts::memory_report_steps();
    lemma_memory_parts();
    lemma_concatenation(load, release, 0, 0, 0, 2, 0, 6);
    lemma_concatenation(load + release, report, 0, 0, 0, 6, 0, 6);
}

#[verifier::rlimit(60)]
proof fn lemma_memory_samples_of_parts()
    ensures
        samples_before(plan_parts::memory_load_steps(), 9) == 0,
        samples_before(plan_parts::memory_load_steps(), 22) == 2,
        samples_before(plan_parts::memory_release_steps(), 1) == 1,
{
    reveal_with_fuel(samples_before, 24);
}

/// Which samples the two collections around the load take.
pub proof fn lemma_memory_samples()
    ensures
        samples_before(probes::memory_behavior_steps(), 9) == 0,
        samples_before(probes::memory_behavior_steps(), 23) == 3,
{
    let load = plan_parts::memory_load_steps();
    let release = plan_parts::memory_release_steps();
    let report = plan_parts::memory_report_steps();
    lemma_memory_samples_of_parts();
    lemma_counts_of_concatenation(load, release, 9);
    lemma_counts_of_concatenation(load, release, 23);
    lemma_counts_of_concatenation(load + release, report, 9);
    lemma_counts_of_concatenation(load + release, report, 23);
}

proof fn lemma_module_setup()
    ensures
        reports_what_it_read(plan_parts::module_setup_steps(), 0, 0, 0, 0),
{
    reveal_with_fuel(reads_before, 10);
    reveal_with_fuel(samples_before, 10);
}

proof fn lemma_module_imports()
    ensures
        reports_what_it_read(plan_parts::module_imports_steps(), 0, 0, 4, 0),
{
    reveal_with_fuel(reads_before, 18);
    reveal_with_fuel(samples_before, 18);
}

#[verifier::rlimit(60)]
proof fn lemma_module_resolvers()
    ensures
        reports_what_it_read(plan_parts::module_resolvers_steps(), 4, 0, 10, 0),
{
    reveal_with_fuel(reads_before, 26);
    reveal_with_fuel(samples_before, 26);
}

/// Steps that neither read nor sample.
proof fn lemma_no_counts(steps: Seq<Step>, k: int)
    requires
        0 <= k <= steps.len(),
        forall|j: int| 0 <= j < steps.len() ==> reads(#[trigger] steps[j]) == 0 && samples(steps[j])
            == 0,
    ensures
        reads_before(steps, k) == 0,
        samples_before(steps, k) == 0,
    decreases k,
{
    if k > 0 {
        lemma_no_counts(steps, k - 1);
        assert(reads(steps[k - 1]) == 0);
    }
}

/// Steps that read nothing, and report only lines that need no reading beyond `r` numbers and `s`
/// samples.
spec fn plain(steps: Seq<Step>, r: nat, s: nat) -> bool {
    forall|j: int|
        0 <= j < steps.len() ==> {
            &&& reads(#[trigger] steps[j]) == 0
            &&& samples(steps[j]) == 0
            &&& !(steps[j] is CallInvoke)
            &&& steps[j] matches Step::Report(line) ==> line.shows_known_values(r, s)
        }
}

proof fn lemma_plain(steps: Seq<Step>, r: nat, s: nat)
    requires
        plain(steps, r, s),
    ensures
        reports_what_it_read(steps, r, s, r, s),
{
    lemma_no_counts(steps, steps.len() as int);
    assert forall|k: int| 0 <= k < steps.len() implies match #[trigger] steps[k] {
        Step::Report(line) => line.shows_known_values(
            r + reads_before(steps, k),
            s + samples_before(steps, k),
        ),
        Step::ReadSettled { .. } => settled(steps, k),
        Step::CallInvoke { .. } => false,
        _ => true,
    } by {
        lemma_no_counts(steps, k);
        assert(reads(steps[k]) == 0);
    }
}

proof fn lemma_retained(n: nat)
    requires
        n <= probes::LIFECYCLE_RETAINED_INVOCATIONS,
    ensures
        plain(probes::retained_invocation_steps(n), 0, 0),
        probe::plan_wf(probes::retained_invocation_steps(n)),
    decreases n,
{
    if n > 0 {
        lemma_retained((n - 1) as nat);
        let before = probes::retained_invocation_steps((n - 1) as nat);
        let last = plan_parts::lifecycle_invocation_steps(
            LifecycleBody::Reuse((n - 1) as i32),
            n as i32,
            233,
        );
        lemma_both(before, last);
    }
}

proof fn lemma_cancelled(n: nat)
    ensures
        plain(probes::cancel_and_recover_steps(n), 0, 0),
        probe::plan_wf(probes::cancel_and_recover_steps(n)),
    decreases n,
{
    if n > 0 {
        lemma_cancelled((n - 1) as nat);
        let before = probes::cancel_and_recover_steps((n - 1) as nat);
        let spin = seq![Step::Spin(SpinPolicy::ExternalCancel)];
        lemma_both(before, spin);
        lemma_both(before + spin, plan_parts::recovery_steps(239, 240));
    }
}

proof fn lemma_both(first: Seq<Step>, second: Seq<Step>)
    requires
        plain(first, 0, 0),
        plain(second, 0, 0),
        probe::plan_wf(first),
        probe::plan_wf(second),
    ensures
        plain(first + second, 0, 0),
        probe::plan_wf(first + second),
{
    let both = first + second;
    assert forall|j: int| 0 <= j < both.len() implies {
        &&& reads(#[trigger] both[j]) == 0
        &&& samples(both[j]) == 0
        &&& !(both[j] is CallInvoke)
        &&& both[j] matches Step::Report(line) ==> line.shows_known_values(0, 0)
        &&& probe::step_wf(both[j])
    } by {
        if j < first.len() {
            assert(both[j] == first[j]);
            assert(reads(first[j]) == 0);
        } else {
            assert(both[j] == second[j - first.len()]);
            assert(reads(second[j - first.len()]) == 0);
        }
    }
    assert forall|j: int| 0 <= j < both.len() implies probe::step_wf(#[trigger] both[j]) by {
        assert(reads(both[j]) == 0);
    }
}

proof fn lemma_lifecycle()
    ensures
        plain(probes::lifecycle_reuse_steps(), 0, 0),
        probe::plan_wf(probes::lifecycle_reuse_steps()),
{
    let setup = plan_parts::lifecycle_setup_steps();
    let retained = probes::retained_invocation_steps(8);
    let counts = plan_parts::lifecycle_counts_steps(8, 236);
    let cancelled = probes::cancel_and_recover_steps(3);
    let again = plan_parts::lifecycle_invocation_steps(LifecycleBody::PostCancel, 9, 241);
    let counts_again = plan_parts::lifecycle_counts_steps(9, 244);
    let state = plan_parts::lifecycle_state_steps();
    let report = plan_parts::lifecycle_report_steps();
    lemma_retained(8);
    lemma_cancelled(3);
    lemma_both(setup, retained);
    lemma_both(setup + retained, counts);
    lemma_both(setup + retained + counts, cancelled);
    lemma_both(setup + retained + counts + cancelled, again);
    lemma_both(setup + retained + counts + cancelled + again, counts_again);
    lemma_both(setup + retained + counts + cancelled + again + counts_again, state);
    lemma_both(setup + retained + counts + cancelled + again + counts_again + state, report);
}

/// The plan of the lifecycle probe is well-formed.
pub proof fn lemma_lifecycle_is_well_formed()
    ensures
        probe::plan_wf(probes::lifecycle_reuse_steps()),
{
    lemma_lifecycle();
}

pub proof fn lemma_module()
    ensures
        reports_what_it_read(probes::package_module_policy_steps(), 0, 0, 10, 0),
{
    let setup = plan_parts::module_setup_steps();
    let imports = plan_parts::module_imports_steps();
    let resolvers = plan_parts::module_resolvers_steps();
    let report = plan_parts::module_report_steps();
    let verdict = plan_parts::module_verdict_steps();
    lemma_module_setup();
    lemma_module_imports();
    lemma_module_resolvers();
    lemma_plain(report, 10, 0);
    lemma_plain(verdict, 10, 0);
    lemma_concatenation(setup, imports, 0, 0, 0, 0, 4, 0);
    lemma_concatenation(setup + imports, resolvers, 0, 0, 4, 0, 10, 0);
    lemma_concatenation(setup + imports + resolvers, report, 0, 0, 10, 0, 10, 0);
    lemma_concatenation(setup + imports + resolvers + report, verdict, 0, 0, 10, 0, 10, 0);
}

proof fn lemma_surface_counts(steps: Seq<Step>, k: int)
    requires
        steps == Seq::new(
            2 * PERMISSION_SURFACE_COUNT as nat,
            |i: int| probes::surface_step(i),
        ),
        0 <= k <= steps.len(),
    ensures
        reads_before(steps, k) == (k + 1) / 2,
        samples_before(steps, k) == 0,
    decreases k,
{
    if k > 0 {
        lemma_surface_counts(steps, k - 1);
        assert(steps[k - 1] == probes::surface_step(k - 1));
    }
}

proof fn lemma_inventory()
    ensures
        reports_what_it_read(
            probes::permission_surface_inventory_steps(),
            0,
            0,
            PERMISSION_SURFACE_COUNT as nat,
            0,
        ),
{
    let setup = plan_parts::permission_setup_steps();
    let surfaces = Seq::new(
        2 * PERMISSION_SURFACE_COUNT as nat,
        |i: int| probes::surface_step(i),
    );
    let end = seq![Step::Perform(Effect::Unlock)];
    let count = PERMISSION_SURFACE_COUNT as nat;
    lemma_plain(setup, 0, 0);
    lemma_plain(end, count, 0);
    lemma_surface_counts(surfaces, surfaces.len() as int);
    assert forall|k: int| 0 <= k < surfaces.len() implies match #[trigger] surfaces[k] {
        Step::Report(line) => line.shows_known_values(
            reads_before(surfaces, k),
            samples_before(surfaces, k),
        ),
        Step::ReadSettled { .. } => settled(surfaces, k),
        Step::CallInvoke { .. } => false,
        _ => true,
    } by {
        lemma_surface_counts(surfaces, k);
        assert(surfaces[k] == probes::surface_step(k));
    }
    lemma_concatenation(setup, surfaces, 0, 0, 0, 0, count, 0);
    lemma_concatenation(setup + surfaces, end, 0, 0, count, 0, count, 0);
}

/// What a run that has passed `k` steps holds.
pub proof fn lemma_memory_is_counted(
    plan: Seq<Step>,
    trace: Seq<Observation>,
    k: int,
    r2: nat,
    s2: nat,
)
    requires
        probe::plan_wf(plan),
        reports_what_it_read(plan, 0, 0, r2, s2),
        probe_laws::fair(RunState::start(plan), trace),
        0 <= k <= plan.len(),
        k <= probe_laws::feed(RunState::start(plan), trace).at,
    ensures
        ({
            let memory = probe_laws::memory_before(plan, trace, k);
            &&& memory.heap.len() == samples_before(plan, k)
            &&& memory.awaiting ==> k > 0 && plan[k - 1] is ReadSettled
            &&& memory.readings.len() + (if memory.awaiting {
                1nat
            } else {
                0nat
            }) == reads_before(plan, k)
        }),
    decreases k,
{
    let start = RunState::start(plan);
    probe_laws::lemma_feed(plan, trace);
    if k == 0 {
        assert(trace.take(0) == Seq::<Observation>::empty());
    } else {
        lemma_memory_is_counted(plan, trace, k - 1, r2, s2);
        assert(trace.take(k).drop_last() == trace.take(k - 1));
        assert(probe_laws::passes(plan, trace, k - 1));
        let before = probe_laws::feed(start, trace.take(k - 1));
        assert(probe_laws::feed(start, trace.take(k - 1)).at == k - 1);
        assert(probe::answers(before.action(), trace[k - 1]));
        let step = plan[k - 1];
        assert(step == plan[k - 1]);
        if before.memory.awaiting {
            assert(plan[k - 2] is ReadSettled);
            assert(settled(plan, k - 2));
        }
    }
}

proof fn lemma_plans(plan: Seq<Step>)
    requires
        plan == probes::permission_surface_inventory_steps() || plan
            == probes::memory_behavior_steps() || plan == probes::package_module_policy_steps()
            || plan == probes::timeout_and_cancel_steps() || plan
            == probes::lifecycle_reuse_steps(),
    ensures
        probe::plan_wf(plan),
        exists|r2: nat, s2: nat| reports_what_it_read(plan, 0, 0, r2, s2),
{
    crate::guarantees::lemma_plans_are_well_formed();
    lemma_inventory();
    lemma_memory();
    lemma_module();
    assert(plain(probes::timeout_and_cancel_steps(), 0, 0));
    lemma_plain(probes::timeout_and_cancel_steps(), 0, 0);
    lemma_lifecycle();
    lemma_plain(probes::lifecycle_reuse_steps(), 0, 0);
}

/// Whenever a probe is to print a line, everything that the line shows has been read.
pub proof fn law_every_line_can_be_printed(plan: Seq<Step>, trace: Seq<Observation>)
    requires
        plan == probes::permission_surface_inventory_steps() || plan
            == probes::memory_behavior_steps() || plan == probes::package_module_policy_steps()
            || plan == probes::timeout_and_cancel_steps() || plan
            == probes::lifecycle_reuse_steps(),
        probe_laws::fair(RunState::start(plan), trace),
    ensures
        probe_laws::feed(RunState::start(plan), trace).action() matches probe::Action::Print(line)
            ==> line.shows_known_values(
            probe_laws::feed(RunState::start(plan), trace).memory.readings.len(),
            probe_laws::feed(RunState::start(plan), trace).memory.heap.len(),
        ),
{
    lemma_plans(plan);
    let (r2, s2) = choose|r2: nat, s2: nat| reports_what_it_read(plan, 0, 0, r2, s2);
    probe_laws::lemma_feed(plan, trace);
    let run = probe_laws::feed(RunState::start(plan), trace);
    if run.status() is None {
        let k = run.at as int;
        assert(k == trace.len());
        assert(trace.take(k) == trace);
        lemma_memory_is_counted(plan, trace, k, r2, s2);
        let step = plan[k];
        if step is Report && run.memory.awaiting {
            assert(plan[k - 1] is ReadSettled);
            assert(settled(plan, k - 1));
        }
    }
}

} // verus!
