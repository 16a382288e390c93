//! What holds of every probe, whatever its plan is and whatever the embedder sees.
use vstd::prelude::*;

use crate::probe;
use crate::probe::{Memory, Observation, Resource, RunState, Step, Want};

verus! {

/// The run after all answers of `trace`, in their order.
pub open spec fn feed(run: RunState, trace: Seq<Observation>) -> RunState
    decreases trace.len(),
{
    if trace.len() == 0 {
        run
    } else {
        feed(run, trace.drop_last()).advance(trace.last())
    }
}

/// Every answer of the trace has a form that the action before it can have.
pub open spec fn fair(run: RunState, trace: Seq<Observation>) -> bool {
    forall|k: int|
        0 <= k < trace.len() ==> probe::answers(
            #[trigger] feed(run, trace.take(k)).action(),
            trace[k],
        )
}

/// The first `n` answers of a fair trace are fair.
pub proof fn lemma_shorter_is_fair(run: RunState, trace: Seq<Observation>, n: int)
    requires
        fair(run, trace),
        0 <= n <= trace.len(),
    ensures
        fair(run, trace.take(n)),
{
    let prefix = trace.take(n);
    assert forall|k: int| 0 <= k < prefix.len() implies probe::answers(
        #[trigger] feed(run, prefix.take(k)).action(),
        prefix[k],
    ) by {
        assert(prefix.take(k) == trace.take(k));
        assert(probe::answers(feed(run, trace.take(k)).action(), trace[k]));
    }
}

/// What a probe has read before its step `k`, when `trace` are the answers.
pub open spec fn memory_before(plan: Seq<Step>, trace: Seq<Observation>, k: int) -> Memory {
    feed(RunState::start(plan), trace.take(k)).memory
}

/// Answer `k` of the trace passes step `k` of the plan.
pub open spec fn passes(plan: Seq<Step>, trace: Seq<Observation>, k: int) -> bool {
    probe::accepts(plan[k], memory_before(plan, trace, k), trace[k])
}

/// A status that a step gives to an answer which does not pass shows a failure.
proof fn lemma_failure_is_nonzero(step: Step, memory: Memory, seen: Observation)
    requires
        probe::step_wf(step),
        probe::answers(probe::action_of(step, memory), seen),
        !probe::accepts(step, memory, seen),
    ensures
        probe::failure_status(step, seen) != 0,
{
}

/// Where a run stands after a trace: it has passed the steps up to `at`, one for each answer,
/// and has failed, if it has, at the step that comes next.
pub proof fn lemma_feed(plan: Seq<Step>, trace: Seq<Observation>)
    requires
        probe::plan_wf(plan),
        fair(RunState::start(plan), trace),
    ensures
        ({
            let run = feed(RunState::start(plan), trace);
            &&& run.plan == plan
            &&& run.wf()
            &&& run.at <= trace.len()
            &&& forall|k: int| 0 <= k < run.at ==> #[trigger] passes(plan, trace, k)
            &&& forall|k: int|
                0 <= k <= run.at ==> {
                    let before = #[trigger] feed(RunState::start(plan), trace.take(k));
                    &&& before.plan == plan
                    &&& before.at == k
                    &&& before.failed is None
                }
            &&& run.failed is None ==> (run.at == trace.len() || run.at == plan.len())
            &&& run.failed matches Some(status) ==> {
                &&& run.at < plan.len()
                &&& run.at < trace.len()
                &&& !passes(plan, trace, run.at as int)
                &&& status == probe::failure_status(plan[run.at as int], trace[run.at as int])
                &&& status != 0
            }
        }),
    decreases trace.len(),
{
    let start = RunState::start(plan);
    assert(trace.take(trace.len() as int) == trace);
    if trace.len() > 0 {
        let shorter = trace.drop_last();
        lemma_shorter_is_fair(start, trace, trace.len() - 1);
        assert(trace.take(trace.len() - 1) == shorter);
        lemma_feed(plan, shorter);
        let before = feed(start, shorter);
        let run = feed(start, trace);
        let last = trace.len() - 1;
        assert(trace.take(last) == shorter);
        assert(probe::answers(feed(start, trace.take(last)).action(), trace[last]));
        assert forall|k: int| 0 <= k < before.at implies #[trigger] passes(plan, trace, k) by {
            assert(passes(plan, shorter, k));
            assert(shorter.take(k) == trace.take(k));
        }
        assert forall|k: int| 0 <= k <= before.at implies {
            let earlier = #[trigger] feed(start, trace.take(k));
            &&& earlier.plan == plan
            &&& earlier.at == k
            &&& earlier.failed is None
        } by {
            assert(shorter.take(k) == trace.take(k));
            assert(feed(start, shorter.take(k)).at == k);
        }
        if before.status() is None {
            assert(before.at == last);
            let step = plan[last];
            if probe::accepts(step, before.memory, trace[last]) {
                assert(passes(plan, trace, last));
            } else {
                assert(probe::step_wf(plan[last]));
                lemma_failure_is_nonzero(step, before.memory, trace[last]);
                assert(!passes(plan, trace, last));
            }
        } else if before.failed is Some {
            let at = before.at as int;
            assert(shorter.take(at) == trace.take(at));
            assert(shorter[at] == trace[at]);
            assert(!passes(plan, shorter, at));
        }
    }
}

/// A probe that ends with status zero has taken every step of its plan, in order, and every
/// answer has passed its step.
pub proof fn law_zero_means_every_step_passed(plan: Seq<Step>, trace: Seq<Observation>)
    requires
        probe::plan_wf(plan),
        fair(RunState::start(plan), trace),
        feed(RunState::start(plan), trace).status() == Some(0i32),
    ensures
        plan.len() <= trace.len(),
        forall|k: int| 0 <= k < plan.len() ==> #[trigger] passes(plan, trace, k),
{
    lemma_feed(plan, trace);
}

/// A probe that ends with status zero has seen every number that its plan expects: of its
/// programs, of the counters of the host functions and of the promises, each where it expects it.
/// And every program that must be rejected was.
pub proof fn law_zero_means_every_expected_number_was_seen(
    plan: Seq<Step>,
    trace: Seq<Observation>,
    k: int,
)
    requires
        probe::plan_wf(plan),
        fair(RunState::start(plan), trace),
        feed(RunState::start(plan), trace).status() == Some(0i32),
        0 <= k < plan.len(),
    ensures
        k < trace.len(),
        match plan[k] {
            Step::Evaluate { want: Want::Number { expected, .. }, .. } => trace[k]
                == Observation::Number(expected),
            Step::CounterIs { expected, .. } => trace[k] == Observation::Number(expected),
            Step::Resolved { expected, .. } => trace[k] == Observation::Number(expected),
            Step::EvaluateRejected { .. } => trace[k] == Observation::Threw,
            Step::Evaluate { .. } => trace[k] != Observation::Threw,
            _ => true,
        },
{
    law_zero_means_every_step_passed(plan, trace);
    assert(passes(plan, trace, k));
}

/// A probe whose answers pass all steps of its plan ends with status zero.
pub proof fn law_passing_every_step_gives_zero(plan: Seq<Step>, trace: Seq<Observation>)
    requires
        probe::plan_wf(plan),
        fair(RunState::start(plan), trace),
        plan.len() <= trace.len(),
        forall|k: int| 0 <= k < plan.len() ==> #[trigger] passes(plan, trace, k),
    ensures
        feed(RunState::start(plan), trace).status() == Some(0i32),
{
    lemma_feed(plan, trace);
    let run = feed(RunState::start(plan), trace);
    if run.failed is Some {
        assert(passes(plan, trace, run.at as int));
    }
}

/// A probe that ends with another status ends with the one that the first step whose answer did
/// not pass gives to that answer.
pub proof fn law_status_is_of_the_first_failure(
    plan: Seq<Step>,
    trace: Seq<Observation>,
    status: i32,
) -> (k: int)
    requires
        probe::plan_wf(plan),
        fair(RunState::start(plan), trace),
        feed(RunState::start(plan), trace).status() == Some(status),
        status != 0,
    ensures
        0 <= k < plan.len(),
        k < trace.len(),
        forall|j: int| 0 <= j < k ==> #[trigger] passes(plan, trace, j),
        !passes(plan, trace, k),
        status == probe::failure_status(plan[k], trace[k]),
{
    lemma_feed(plan, trace);
    feed(RunState::start(plan), trace).at as int
}

/// The action that is due after `k` passing answers is the one that step `k` asks for: no step is
/// left out and none is taken twice.
pub proof fn law_actions_follow_the_plan(plan: Seq<Step>, trace: Seq<Observation>, k: int)
    requires
        probe::plan_wf(plan),
        fair(RunState::start(plan), trace),
        0 <= k < plan.len(),
        k <= trace.len(),
        forall|j: int| 0 <= j < k ==> #[trigger] passes(plan, trace, j),
    ensures
        feed(RunState::start(plan), trace.take(k)).action() == probe::action_of(
            plan[k],
            memory_before(plan, trace, k),
        ),
{
    let start = RunState::start(plan);
    let prefix = trace.take(k);
    lemma_shorter_is_fair(start, trace, k);
    lemma_feed(plan, prefix);
    let run = feed(start, prefix);
    if run.failed is Some {
        let at = run.at as int;
        assert(prefix.take(at) == trace.take(at));
        assert(passes(plan, trace, at));
        assert(!passes(plan, prefix, at));
    }
}

/// Once a probe has ended, nothing that the embedder sees changes its status or what it has read.
pub proof fn law_the_end_is_final(run: RunState, trace: Seq<Observation>)
    requires
        run.status() is Some,
    ensures
        feed(run, trace) == (RunState { held: feed(run, trace).held, ..run }),
        feed(run, trace).status() == run.status(),
    decreases trace.len(),
{
    if trace.len() > 0 {
        law_the_end_is_final(run, trace.drop_last());
    }
}

/// However a probe ends, it gives back everything that it holds, what it took last first, and it
/// is finished only then: each answer is to one release, and after as many as it holds nothing is
/// left to do.
pub proof fn law_every_end_gives_everything_back(run: RunState, trace: Seq<Observation>)
    requires
        run.status() is Some,
    ensures
        trace.len() <= run.held.len() ==> feed(run, trace).held == run.held.take(
            run.held.len() - trace.len(),
        ),
        trace.len() < run.held.len() ==> feed(run, trace).action() == probe::Action::Release(
            run.held[run.held.len() - 1 - trace.len()],
        ),
        trace.len() >= run.held.len() ==> {
            &&& feed(run, trace).held == Seq::<Resource>::empty()
            &&& feed(run, trace).action() == probe::Action::Finish(run.status()->0)
        },
    decreases trace.len(),
{
    law_the_end_is_final(run, trace);
    if trace.len() > 0 {
        let shorter = trace.drop_last();
        law_the_end_is_final(run, shorter);
        law_every_end_gives_everything_back(run, shorter);
        let before = feed(run, shorter);
        assert(feed(run, trace) == before.advance(trace.last()));
        if trace.len() <= run.held.len() {
            assert(before.held.drop_last() == run.held.take(run.held.len() - trace.len()));
        }
    } else {
        assert(run.held.take(run.held.len() as int) == run.held);
    }
}

/// An evaluation shows an exception exactly where one was thrown or left pending, a promise exactly
/// where there was no exception and the value is one, and a number only where neither was; a
/// promise that was waited for shows its failed wait first and its number last. Whatever is shown
/// is an answer that the action can have.
pub proof fn law_exceptions_are_shown_before_values(
    thrown: bool,
    pending: bool,
    promise: bool,
    waited: bool,
    fulfilled: bool,
    number: Option<i32>,
    script: crate::script::Script,
)
    ensures
        ({
            let seen = probe::evaluation_shows(thrown, pending, promise, number);
            &&& seen == Observation::Threw <==> thrown || pending
            &&& seen == Observation::Promise <==> !thrown && !pending && promise
            &&& seen == Observation::Other <==> !thrown && !pending && !promise && number is None
            &&& seen matches Observation::Number(n) ==> !thrown && !pending && !promise && number
                == Some(n)
            &&& !thrown && !pending && !promise && number is Some ==> seen == Observation::Number(
                number->0,
            )
            &&& probe::answers(probe::Action::Evaluate(script), seen)
        }),
        ({
            let seen = probe::settlement_shows(waited, fulfilled, number);
            &&& seen == Observation::WaitFailed <==> !waited
            &&& seen == Observation::Unfulfilled <==> waited && !fulfilled
            &&& seen == Observation::Other <==> waited && fulfilled && number is None
            &&& waited && fulfilled && number is Some ==> seen == Observation::Number(number->0)
            &&& probe::answers(probe::Action::Settle, seen)
        }),
        probe::shown(None) == Observation::Other,
        number matches Some(n) ==> probe::shown(number) == Observation::Number(n),
{
}

/// A program that the token should keep out is evaluated where the token was not cancelled, and
/// that ends the probe, whatever the program does.
pub proof fn law_program_that_was_let_in_ends_the_probe(
    run: RunState,
    token: crate::cancellation::ProofCancellationToken,
    script: crate::script::Script,
    exception: i32,
    cancelled_status: i32,
    ran: i32,
    seen: Observation,
)
    requires
        run.status() is None,
        run.plan[run.at as int] == (Step::Gated {
            token,
            script,
            exception,
            cancelled_status,
            ran,
        }),
    ensures
        token.cancelled ==> run.action() == probe::Action::Nothing && run.advance(seen).at == run.at
            + 1 && run.advance(seen).failed is None,
        !token.cancelled ==> {
            &&& run.action() == probe::Action::Evaluate(script)
            &&& run.advance(Observation::Threw).status() == Some(exception)
            &&& seen != Observation::Threw ==> run.advance(seen).status() == Some(ran)
        },
{
}

/// A probe has ended once there have been as many answers as its plan has steps, and ends with
/// zero no earlier.
pub proof fn law_every_probe_ends(plan: Seq<Step>, trace: Seq<Observation>)
    requires
        probe::plan_wf(plan),
        fair(RunState::start(plan), trace),
    ensures
        trace.len() >= plan.len() ==> feed(RunState::start(plan), trace).status() is Some,
        feed(RunState::start(plan), trace).status() == Some(0i32) ==> trace.len() >= plan.len(),
{
    lemma_feed(plan, trace);
}

/// Every answer that the machine can give to an action is taken: none that an effect, a program, a
/// counter, a promise, a heap sample, a nested run or a part of an invocation can have is refused.
pub proof fn law_every_possible_answer_is_taken(
    effect: probe::Effect,
    script: crate::script::Script,
    counter: probe::Counter,
    slot: probe::PromiseSlot,
    policy: crate::script::SpinPolicy,
    line: crate::report::ReportLine,
    resource: Resource,
    number: i32,
    bytes: u64,
    empty: bool,
    object: bool,
    exception: bool,
)
    ensures
        probe::answers(probe::Action::Nothing, Observation::Done),
        probe::answers(probe::Action::Perform(effect), Observation::Done),
        probe::answers(probe::Action::Print(line), Observation::Done),
        probe::answers(probe::Action::Release(resource), Observation::Done),
        probe::answers(probe::Action::Evaluate(script), Observation::Threw),
        probe::answers(probe::Action::Evaluate(script), Observation::Number(number)),
        probe::answers(probe::Action::Evaluate(script), Observation::Promise),
        probe::answers(probe::Action::Evaluate(script), Observation::Other),
        probe::answers(probe::Action::ReadCounter(counter), Observation::Number(number)),
        probe::answers(probe::Action::TakeHostPromise, Observation::Promise),
        probe::answers(probe::Action::TakeHostPromise, Observation::Other),
        probe::answers(probe::Action::Await(slot), Observation::Done),
        probe::answers(probe::Action::Await(slot), Observation::WaitFailed),
        probe::answers(probe::Action::CheckFulfilled(slot), Observation::Done),
        probe::answers(probe::Action::CheckFulfilled(slot), Observation::Unfulfilled),
        probe::answers(probe::Action::ReadResult(slot), Observation::Number(number)),
        probe::answers(probe::Action::ReadResult(slot), Observation::Other),
        probe::answers(probe::Action::Settle, Observation::WaitFailed),
        probe::answers(probe::Action::Settle, Observation::Unfulfilled),
        probe::answers(probe::Action::Settle, Observation::Number(number)),
        probe::answers(probe::Action::Settle, Observation::Other),
        probe::answers(probe::Action::ApplyDenyProfile, Observation::Done),
        probe::answers(probe::Action::ApplyDenyProfile, Observation::Failed),
        probe::answers(probe::Action::CollectGarbage, Observation::Bytes(bytes)),
        probe::answers(probe::Action::MeasureHeap, Observation::Bytes(bytes)),
        probe::answers(probe::Action::Spin(policy), Observation::Done),
        number != 0 ==> probe::answers(probe::Action::Spin(policy), Observation::Status(number)),
        probe::answers(
            probe::Action::ParseRequest,
            (Observation::Request { empty, object, exception }),
        ),
        probe::answers(probe::Action::ParseRequest, Observation::Failed),
        probe::answers(probe::Action::LookupInvoke, Observation::Callable),
        probe::answers(probe::Action::LookupInvoke, Observation::Other),
        probe::answers(probe::Action::CallInvoke, Observation::Threw),
        probe::answers(probe::Action::CallInvoke, Observation::Promise),
        probe::answers(probe::Action::CallInvoke, Observation::Other),
        probe::answers(probe::Action::Stringify, Observation::Done),
        probe::answers(probe::Action::Stringify, Observation::Threw),
        probe::answers(probe::Action::Stringify, Observation::Dead),
{
}

/// What an answer does to what a probe holds. An effect that takes something adds it to the rest,
/// one that gives something back takes off what was taken last, and no other action changes what
/// is held; an answer that ends the probe with a failure changes neither what is held nor what was
/// read, so that everything is still there to be given back.
pub proof fn law_only_effects_change_what_is_held(run: RunState, seen: Observation)
    requires
        run.status() is None,
        probe::answers(run.action(), seen),
    ensures
        ({
            let next = run.advance(seen);
            let held = run.held;
            &&& next.plan == run.plan
            &&& next.failed is Some ==> next.held == held && next.memory == run.memory && next.at
                == run.at
            &&& next.failed is None ==> next.at == run.at + 1
            &&& run.action() is Perform ==> next.failed is None
            &&& run.action() matches probe::Action::Perform(effect) ==> match effect {
                probe::Effect::Lock | probe::Effect::ProbeLock => next.held == held.push(
                    Resource::Lock,
                ),
                probe::Effect::DenyResolution => next.held == held.push(Resource::Denial),
                probe::Effect::ProtectRequest => next.held == held.push(Resource::Request),
                probe::Effect::Unlock | probe::Effect::LetRequestGo => held.len() > 0 ==> next.held
                    == held.take(held.len() - 1),
                _ => next.held == held,
            }
            &&& !(run.action() is Perform) ==> next.held == held
        }),
{
    if run.held.len() > 0 {
        assert(run.held.take(run.held.len() - 1) == run.held.drop_last());
    }
}

} // verus!
