//! The run that interrupts a spinning program: a second thread waits until the program was
//! entered and then asks the machine to terminate it.
use vstd::prelude::*;

use crate::script::{Script, SpinPolicy};
use crate::signals::SpinEntryWait;

verus! {

/// The statuses with which a run can fail.
#[derive(Clone, Copy, Debug, PartialEq, Eq, Structural)]
pub struct SpinStatuses {
    /// The program threw something else than a termination before it was entered.
    pub exception: i32,
    /// The program returned no promise.
    pub no_promise: i32,
    /// Nothing stopped the promise.
    pub not_stopped: i32,
    /// The second thread did not end properly.
    pub join_failed: i32,
    /// The second thread did not see that the program was entered.
    pub not_acknowledged: i32,
    /// The second thread did not ask for termination.
    pub not_fired: i32,
    /// A request for termination is left.
    pub request_left: i32,
}

/// The statuses under each policy.
pub open spec fn spin_statuses(policy: SpinPolicy) -> SpinStatuses {
    match policy {
        SpinPolicy::Deadline => SpinStatuses {
            exception: 43,
            no_promise: 44,
            not_stopped: 45,
            join_failed: 46,
            not_acknowledged: 47,
            not_fired: 48,
            request_left: 64,
        },
        SpinPolicy::ExternalCancel => SpinStatuses {
            exception: 52,
            no_promise: 53,
            not_stopped: 54,
            join_failed: 55,
            not_acknowledged: 56,
            not_fired: 57,
            request_left: 58,
        },
    }
}

fn statuses(policy: SpinPolicy) -> (statuses: SpinStatuses)
    ensures
        statuses == spin_statuses(policy),
{
    match policy {
        SpinPolicy::Deadline => SpinStatuses {
            exception: 43,
            no_promise: 44,
            not_stopped: 45,
            join_failed: 46,
            not_acknowledged: 47,
            not_fired: 48,
            request_left: 64,
        },
        SpinPolicy::ExternalCancel => SpinStatuses {
            exception: 52,
            no_promise: 53,
            not_stopped: 54,
            join_failed: 55,
            not_acknowledged: 56,
            not_fired: 57,
            request_left: 58,
        },
    }
}

/// Where a run stands.
#[derive(Clone, Copy, Debug, PartialEq, Eq, Structural)]
pub enum SpinPhase {
    /// The program is to be evaluated, with the second thread waiting for its entry.
    Evaluate,
    /// The program threw: did somebody ask for termination?
    CheckRequest,
    /// Nobody did: is the exception one that can be cleared?
    ClearExceptTermination,
    /// It was cleared: had the program been entered?
    CheckEntered,
    /// The program returned a promise.
    AwaitPromise,
    /// The evaluation is over, with this failure if there was one.
    Join { failure: Option<i32> },
    /// The second thread has ended too.
    Inspect { failure: Option<i32> },
    /// The run is over, with this failure if there was one.
    Finished { failure: Option<i32> },
}

/// What the embedder is to do next.
#[derive(Clone, Copy, Debug, PartialEq, Eq, Structural)]
pub enum SpinAction {
    /// Starts the second thread, installs the entry signal and evaluates the program under the
    /// API lock.
    Evaluate(Script),
    /// Asks whether termination was requested.
    CheckRequest,
    /// Clears the exception unless it is a termination, and says whether it was cleared.
    ClearExceptTermination,
    /// Clears the exception and evaluates the program that says whether the other was entered.
    CheckEntered(Script),
    /// Waits for the promise under the API lock.
    AwaitPromise,
    /// Completes the entry signal and joins the second thread.
    CompleteAndJoin,
    /// Clears the termination and looks at what the second thread did.
    Inspect,
    Finish(Option<i32>),
}

/// What the embedder saw.
#[derive(Clone, Copy, Debug, PartialEq, Eq, Structural)]
pub enum SpinSeen {
    /// The evaluation handed out an exception.
    Thrown { termination: bool },
    /// The evaluation left an exception pending.
    ExceptionPending,
    Promise,
    /// A value that is no promise.
    Other,
    /// The answer to a question.
    Answer(bool),
    /// The number that the entry check returned, if it returned one and did not throw.
    Number(Option<i32>),
    /// The wait is over, and what the machine shows then.
    Stopped { request: bool, exception: bool },
    /// What the second thread did, and whether a request for termination is left.
    Outcome { acknowledged: bool, fired: bool, request: bool },
}

/// The observation is one that this phase waits for.
pub open spec fn spin_answers(phase: SpinPhase, seen: SpinSeen) -> bool {
    match phase {
        SpinPhase::Evaluate => seen is Thrown || seen is ExceptionPending || seen is Promise
            || seen is Other,
        SpinPhase::CheckRequest => seen is Answer,
        SpinPhase::ClearExceptTermination => seen is Answer,
        SpinPhase::CheckEntered => seen is Number,
        SpinPhase::AwaitPromise => seen is Stopped,
        SpinPhase::Join { .. } => seen is Answer,
        SpinPhase::Inspect { .. } => seen is Outcome,
        SpinPhase::Finished { .. } => true,
    }
}

/// The failure that the second thread and the machine show after an evaluation without failure:
/// the first that applies of no entry, no request, a request that is left.
pub open spec fn inspected(statuses: SpinStatuses, seen: SpinSeen) -> Option<i32> {
    if !seen->acknowledged {
        Some(statuses.not_acknowledged)
    } else if !seen->fired {
        Some(statuses.not_fired)
    } else if seen->Outcome_request {
        Some(statuses.request_left)
    } else {
        None
    }
}

/// The phase after an observation.
pub open spec fn spin_next(policy: SpinPolicy, phase: SpinPhase, seen: SpinSeen) -> SpinPhase {
    let statuses = spin_statuses(policy);
    match phase {
        SpinPhase::Evaluate => match seen {
            SpinSeen::Thrown { termination: true } => SpinPhase::Join { failure: None },
            SpinSeen::Thrown { termination: false } => SpinPhase::CheckRequest,
            SpinSeen::ExceptionPending => SpinPhase::CheckRequest,
            SpinSeen::Promise => SpinPhase::AwaitPromise,
            _ => SpinPhase::Join { failure: Some(statuses.no_promise) },
        },
        SpinPhase::CheckRequest => if seen == SpinSeen::Answer(true) {
            SpinPhase::Join { failure: None }
        } else {
            SpinPhase::ClearExceptTermination
        },
        SpinPhase::ClearExceptTermination => if seen == SpinSeen::Answer(true) {
            SpinPhase::CheckEntered
        } else {
            SpinPhase::Join { failure: None }
        },
        SpinPhase::CheckEntered => if seen == SpinSeen::Number(Some(1)) {
            SpinPhase::Join { failure: None }
        } else {
            SpinPhase::Join { failure: Some(statuses.exception) }
        },
        SpinPhase::AwaitPromise => if seen == (SpinSeen::Stopped {
            request: false,
            exception: false,
        }) {
            SpinPhase::Join { failure: Some(statuses.not_stopped) }
        } else {
            SpinPhase::Join { failure: None }
        },
        SpinPhase::Join { failure } => if seen == SpinSeen::Answer(true) {
            SpinPhase::Inspect { failure }
        } else {
            SpinPhase::Finished { failure: Some(statuses.join_failed) }
        },
        SpinPhase::Inspect { failure } => SpinPhase::Finished {
            failure: if failure is Some {
                failure
            } else {
                inspected(statuses, seen)
            },
        },
        SpinPhase::Finished { .. } => phase,
    }
}

/// What is to be done in each phase.
pub open spec fn spin_action(policy: SpinPolicy, phase: SpinPhase) -> SpinAction {
    match phase {
        SpinPhase::Evaluate => SpinAction::Evaluate(Script::Spin(policy)),
        SpinPhase::CheckRequest => SpinAction::CheckRequest,
        SpinPhase::ClearExceptTermination => SpinAction::ClearExceptTermination,
        SpinPhase::CheckEntered => SpinAction::CheckEntered(Script::SpinEntered),
        SpinPhase::AwaitPromise => SpinAction::AwaitPromise,
        SpinPhase::Join { .. } => SpinAction::CompleteAndJoin,
        SpinPhase::Inspect { .. } => SpinAction::Inspect,
        SpinPhase::Finished { failure } => SpinAction::Finish(failure),
    }
}

/// A run that interrupts a spinning program.
#[derive(Clone, Copy, Debug, PartialEq, Eq, Structural)]
pub struct SpinRun {
    pub policy: SpinPolicy,
    pub phase: SpinPhase,
}

impl SpinRun {
    /// A run before the program is evaluated.
    pub fn new(policy: SpinPolicy) -> (run: Self)
        ensures
            run == (SpinRun { policy, phase: SpinPhase::Evaluate }),
    {
        SpinRun { policy, phase: SpinPhase::Evaluate }
    }

    /// What to do next.
    pub fn action(&self) -> (action: SpinAction)
        ensures
            action == spin_action(self.policy, self.phase),
    {
        match self.phase {
            SpinPhase::Evaluate => SpinAction::Evaluate(Script::Spin(self.policy)),
            SpinPhase::CheckRequest => SpinAction::CheckRequest,
            SpinPhase::ClearExceptTermination => SpinAction::ClearExceptTermination,
            SpinPhase::CheckEntered => SpinAction::CheckEntered(Script::SpinEntered),
            SpinPhase::AwaitPromise => SpinAction::AwaitPromise,
            SpinPhase::Join { .. } => SpinAction::CompleteAndJoin,
            SpinPhase::Inspect { .. } => SpinAction::Inspect,
            SpinPhase::Finished { failure } => SpinAction::Finish(failure),
        }
    }

    /// Takes the answer to the action that was due.
    pub fn observe(&mut self, seen: SpinSeen)
        requires
            spin_answers(old(self).phase, seen),
        ensures
            *final(self) == (SpinRun {
                policy: old(self).policy,
                phase: spin_next(old(self).policy, old(self).phase, seen),
            }),
    {
        let statuses = statuses(self.policy);
        let terminated = SpinPhase::Join { failure: None };
        let next: SpinPhase = match self.phase {
            SpinPhase::Evaluate => match seen {
                SpinSeen::Thrown { termination } => if termination {
                    terminated
                } else {
                    SpinPhase::CheckRequest
                },
                SpinSeen::ExceptionPending => SpinPhase::CheckRequest,
                SpinSeen::Promise => SpinPhase::AwaitPromise,
                _ => SpinPhase::Join { failure: Some(statuses.no_promise) },
            },
            SpinPhase::CheckRequest => if seen == SpinSeen::Answer(true) {
                terminated
            } else {
                SpinPhase::ClearExceptTermination
            },
            SpinPhase::ClearExceptTermination => if seen == SpinSeen::Answer(true) {
                SpinPhase::CheckEntered
            } else {
                terminated
            },
            SpinPhase::CheckEntered => if spin_loop_was_entered(seen) {
                terminated
            } else {
                SpinPhase::Join { failure: Some(statuses.exception) }
            },
            SpinPhase::AwaitPromise => match seen {
                SpinSeen::Stopped { request, exception } => if !request && !exception {
                    SpinPhase::Join { failure: Some(statuses.not_stopped) }
                } else {
                    terminated
                },
                _ => terminated,
            },
            SpinPhase::Join { failure } => if seen == SpinSeen::Answer(true) {
                SpinPhase::Inspect { failure }
            } else {
                SpinPhase::Finished { failure: Some(statuses.join_failed) }
            },
            SpinPhase::Inspect { failure } => {
                let failure: Option<i32> = match (failure, seen) {
                    (Some(status), _) => Some(status),
                    (None, SpinSeen::Outcome { acknowledged, fired, request }) => {
                        if !acknowledged {
                            Some(statuses.not_acknowledged)
                        } else if !fired {
                            Some(statuses.not_fired)
                        } else if request {
                            Some(statuses.request_left)
                        } else {
                            None
                        }
                    },
                    (None, _) => None,
                };
                SpinPhase::Finished { failure }
            },
            SpinPhase::Finished { failure } => SpinPhase::Finished { failure },
        };
        self.phase = next;
    }
}

fn spin_loop_was_entered(seen: SpinSeen) -> (entered: bool)
    ensures
        entered == (seen == SpinSeen::Number(Some(1))),
{
    match seen {
        SpinSeen::Number(Some(number)) => number == 1,
        _ => false,
    }
}

/// What the second thread does once its wait for the entry is over.
#[derive(Clone, Copy, Debug, PartialEq, Eq, Structural)]
pub struct SpinInterrupt {
    /// It saw that the program was entered.
    pub acknowledged: bool,
    /// It asks the machine to terminate.
    pub fire: bool,
}

/// What the second thread does after each end of its wait.
pub open spec fn interrupt_after(wait: SpinEntryWait) -> SpinInterrupt {
    SpinInterrupt {
        acknowledged: wait == SpinEntryWait::Entered,
        fire: wait != SpinEntryWait::Completed,
    }
}

/// What the second thread does once its wait for the entry is over: it asks for termination
/// unless the evaluation is over already, also where it never saw the entry.
pub fn spin_interrupt(wait: SpinEntryWait) -> (interrupt: SpinInterrupt)
    ensures
        interrupt == interrupt_after(wait),
{
    match wait {
        SpinEntryWait::Entered => SpinInterrupt { acknowledged: true, fire: true },
        SpinEntryWait::Completed => SpinInterrupt { acknowledged: false, fire: false },
        SpinEntryWait::TimedOut => SpinInterrupt { acknowledged: false, fire: true },
    }
}

/// The phase after several observations.
pub open spec fn spin_feed(policy: SpinPolicy, trace: Seq<SpinSeen>) -> SpinPhase
    decreases trace.len(),
{
    if trace.len() == 0 {
        SpinPhase::Evaluate
    } else {
        spin_next(policy, spin_feed(policy, trace.drop_last()), trace.last())
    }
}

/// A run succeeds only if the second thread was joined, saw the program being entered, asked for
/// its termination, and left no request behind.
pub proof fn law_spin_succeeds_only_if_interrupted_after_entry(
    policy: SpinPolicy,
    trace: Seq<SpinSeen>,
)
    requires
        trace.len() > 0,
        !(spin_feed(policy, trace.drop_last()) is Finished),
        spin_feed(policy, trace) == (SpinPhase::Finished { failure: None }),
        spin_answers(spin_feed(policy, trace.drop_last()), trace.last()),
    ensures
        trace.len() >= 3,
        trace[trace.len() - 2] == SpinSeen::Answer(true),
        trace.last() == (SpinSeen::Outcome { acknowledged: true, fired: true, request: false }),
{
    reveal_with_fuel(spin_feed, 4);
    let shorter = trace.drop_last();
    assert(spin_feed(policy, shorter) == (SpinPhase::Inspect { failure: None }));
    assert(shorter.len() > 0);
    assert(shorter.drop_last().len() > 0);
}

/// Every failure of a run is a status of its policy, and none of them is zero.
pub proof fn law_spin_failures_are_nonzero(policy: SpinPolicy, trace: Seq<SpinSeen>)
    ensures
        spin_feed(policy, trace) matches SpinPhase::Finished { failure: Some(status) } ==> status
            != 0,
        spin_feed(policy, trace) matches SpinPhase::Join { failure: Some(status) } ==> status != 0,
        spin_feed(policy, trace) matches SpinPhase::Inspect { failure: Some(status) } ==> status
            != 0,
    decreases trace.len(),
{
    if trace.len() > 0 {
        law_spin_failures_are_nonzero(policy, trace.drop_last());
    }
}

/// However a run goes, it ends after six observations at most.
pub proof fn law_spin_ends(policy: SpinPolicy, trace: Seq<SpinSeen>)
    requires
        trace.len() >= 6,
    ensures
        spin_feed(policy, trace) is Finished,
    decreases trace.len(),
{
    reveal_with_fuel(spin_feed, 8);
    if trace.len() > 6 {
        law_spin_ends(policy, trace.drop_last());
    } else {
        let t5 = trace.drop_last();
        let t4 = t5.drop_last();
        let t3 = t4.drop_last();
        let t2 = t3.drop_last();
        let t1 = t2.drop_last();
        assert(t1.drop_last().len() == 0);
    }
}

/// Every answer of the trace is one that the phase before it waits for.
pub open spec fn spin_fair(policy: SpinPolicy, trace: Seq<SpinSeen>) -> bool {
    forall|k: int|
        0 <= k < trace.len() ==> spin_answers(
            #[trigger] spin_feed(policy, trace.take(k)),
            trace[k],
        )
}

/// The program threw, but nothing that shows a termination.
pub open spec fn threw_unclearly(seen: SpinSeen) -> bool {
    seen == (SpinSeen::Thrown { termination: false }) || seen == SpinSeen::ExceptionPending
}

/// The first `j` answers show that something stopped the program: it threw a termination; or it
/// threw and a termination was requested, or could not be cleared, or had been entered; or its
/// promise was stopped.
pub open spec fn was_stopped(trace: Seq<SpinSeen>, j: int) -> bool {
    ||| j == 1 && trace[0] == (SpinSeen::Thrown { termination: true })
    ||| j == 2 && threw_unclearly(trace[0]) && trace[1] == SpinSeen::Answer(true)
    ||| j == 3 && threw_unclearly(trace[0]) && trace[1] == SpinSeen::Answer(false) && trace[2]
        == SpinSeen::Answer(false)
    ||| j == 4 && threw_unclearly(trace[0]) && trace[1] == SpinSeen::Answer(false) && trace[2]
        == SpinSeen::Answer(true) && trace[3] == SpinSeen::Number(Some(1))
    ||| j == 2 && trace[0] == SpinSeen::Promise && (trace[1] == (SpinSeen::Stopped {
        request: true,
        exception: true,
    }) || trace[1] == (SpinSeen::Stopped { request: true, exception: false }) || trace[1] == (
    SpinSeen::Stopped { request: false, exception: true }))
}

/// The first `j` answers show that the program threw before it was entered.
pub open spec fn threw_before_entry(trace: Seq<SpinSeen>, j: int) -> bool {
    &&& j == 4
    &&& threw_unclearly(trace[0])
    &&& trace[1] == SpinSeen::Answer(false)
    &&& trace[2] == SpinSeen::Answer(true)
    &&& trace[3] is Number && trace[3] != SpinSeen::Number(Some(1))
}

/// The status that a policy has for a failure.
pub open spec fn by_policy(policy: SpinPolicy, deadline: i32, external: i32) -> Option<i32> {
    match policy {
        SpinPolicy::Deadline => Some(deadline),
        SpinPolicy::ExternalCancel => Some(external),
    }
}

proof fn lemma_spin_step(policy: SpinPolicy, trace: Seq<SpinSeen>, k: int)
    requires
        0 <= k < trace.len(),
    ensures
        spin_feed(policy, trace.take(k + 1)) == spin_next(
            policy,
            spin_feed(policy, trace.take(k)),
            trace[k],
        ),
{
    assert(trace.take(k + 1).drop_last() == trace.take(k));
    assert(trace.take(k + 1).last() == trace[k]);
}

proof fn lemma_spin_end(policy: SpinPolicy, trace: Seq<SpinSeen>, k: int)
    requires
        0 <= k <= trace.len(),
        spin_feed(policy, trace.take(k)) is Finished,
    ensures
        spin_feed(policy, trace) == spin_feed(policy, trace.take(k)),
    decreases trace.len() - k,
{
    if k < trace.len() {
        lemma_spin_step(policy, trace, k);
        lemma_spin_end(policy, trace, k + 1);
    } else {
        assert(trace.take(k) == trace);
    }
}

/// How a run ends, from what was seen alone. After `j` answers the evaluation is over: something
/// stopped the program, or it returned no promise, or nothing stopped its promise, or it threw
/// before it was entered. Then the second thread is joined; where that fails, so does the run.
/// Otherwise the failure of the evaluation counts, and where it had none, what the second thread
/// and the machine show.
pub proof fn law_spin_status_says_what_failed(policy: SpinPolicy, trace: Seq<SpinSeen>) -> (j: int)
    requires
        spin_fair(policy, trace),
        spin_feed(policy, trace) is Finished,
    ensures
        1 <= j < trace.len(),
        ({
            let unpromised = j == 1 && trace[0] == SpinSeen::Other;
            let unstopped = j == 2 && trace[0] == SpinSeen::Promise && trace[1] == (
            SpinSeen::Stopped { request: false, exception: false });
            let early = threw_before_entry(trace, j);
            let failure = spin_feed(policy, trace)->Finished_failure;
            &&& was_stopped(trace, j) || unpromised || unstopped || early
            &&& trace[j] == SpinSeen::Answer(true) || trace[j] == SpinSeen::Answer(false)
            &&& trace[j] == SpinSeen::Answer(false) ==> failure == by_policy(policy, 46, 55)
            &&& trace[j] == SpinSeen::Answer(true) ==> {
                &&& j + 1 < trace.len()
                &&& trace[j + 1] is Outcome
                &&& unpromised ==> failure == by_policy(policy, 44, 53)
                &&& unstopped ==> failure == by_policy(policy, 45, 54)
                &&& early ==> failure == by_policy(policy, 43, 52)
                &&& was_stopped(trace, j) ==> match trace[j + 1] {
                    SpinSeen::Outcome { acknowledged: false, .. } => failure == by_policy(
                        policy,
                        47,
                        56,
                    ),
                    SpinSeen::Outcome { fired: false, .. } => failure == by_policy(policy, 48, 57),
                    SpinSeen::Outcome { request: true, .. } => failure == by_policy(
                        policy,
                        64,
                        58,
                    ),
                    _ => failure is None,
                }
            }
        }),
{
    assert(trace.take(0) == Seq::<SpinSeen>::empty());
    assert(spin_feed(policy, trace.take(0)) == SpinPhase::Evaluate);
    assert(trace.take(trace.len() as int) == trace);
    let j = lemma_spin_join(policy, trace);
    lemma_spin_step(policy, trace, j);
    assert(spin_answers(spin_feed(policy, trace.take(j)), trace[j]));
    if trace[j] == SpinSeen::Answer(false) {
        lemma_spin_end(policy, trace, j + 1);
    } else {
        assert(spin_feed(policy, trace.take(j + 1)) is Inspect);
        if j + 1 == trace.len() {
            assert(trace.take(j + 1) == trace);
        }
        assert(spin_answers(spin_feed(policy, trace.take(j + 1)), trace[j + 1]));
        lemma_spin_step(policy, trace, j + 1);
        lemma_spin_end(policy, trace, j + 2);
    }
    j
}

/// Where the second thread is joined, and with which failure of the evaluation.
proof fn lemma_spin_join(policy: SpinPolicy, trace: Seq<SpinSeen>) -> (j: int)
    requires
        spin_fair(policy, trace),
        spin_feed(policy, trace) is Finished,
    ensures
        1 <= j < trace.len(),
        spin_feed(policy, trace.take(j)) is Join,
        ({
            let unpromised = j == 1 && trace[0] == SpinSeen::Other;
            let unstopped = j == 2 && trace[0] == SpinSeen::Promise && trace[1] == (
            SpinSeen::Stopped { request: false, exception: false });
            let early = threw_before_entry(trace, j);
            let failure = spin_feed(policy, trace.take(j))->Join_failure;
            ||| was_stopped(trace, j) && failure is None
            ||| unpromised && failure == by_policy(policy, 44, 53)
            ||| unstopped && failure == by_policy(policy, 45, 54)
            ||| early && failure == by_policy(policy, 43, 52)
        }),
{
    assert(trace.take(0) == Seq::<SpinSeen>::empty());
    assert(trace.take(trace.len() as int) == trace);
    assert(trace.len() > 0);
    assert(spin_answers(spin_feed(policy, trace.take(0)), trace[0]));
    lemma_spin_step(policy, trace, 0);
    if spin_feed(policy, trace.take(1)) is Join {
        1
    } else {
        assert(trace.len() > 1);
        assert(spin_answers(spin_feed(policy, trace.take(1)), trace[1]));
        lemma_spin_step(policy, trace, 1);
        if spin_feed(policy, trace.take(2)) is Join {
            2
        } else {
            assert(trace.len() > 2);
            assert(spin_answers(spin_feed(policy, trace.take(2)), trace[2]));
            lemma_spin_step(policy, trace, 2);
            if spin_feed(policy, trace.take(3)) is Join {
                3
            } else {
                assert(trace.len() > 3);
                assert(spin_answers(spin_feed(policy, trace.take(3)), trace[3]));
                lemma_spin_step(policy, trace, 3);
                4
            }
        }
    }
}

/// What the embedder does for each observation of a run: the first action evaluates the spinning
/// program of the policy, an unclear exception is looked into question by question, a promise is
/// waited for, and then the second thread is joined and looked at.
pub proof fn law_spin_actions_follow_the_answers(
    policy: SpinPolicy,
    trace: Seq<SpinSeen>,
)
    requires
        spin_fair(policy, trace),
    ensures
        spin_action(policy, spin_feed(policy, Seq::empty())) == SpinAction::Evaluate(
            Script::Spin(policy),
        ),
        trace.len() == 1 ==> spin_action(policy, spin_feed(policy, trace)) == (match trace[0] {
            SpinSeen::Promise => SpinAction::AwaitPromise,
            SpinSeen::ExceptionPending => SpinAction::CheckRequest,
            SpinSeen::Thrown { termination: false } => SpinAction::CheckRequest,
            _ => SpinAction::CompleteAndJoin,
        }),
        trace.len() == 2 && trace[0] == SpinSeen::Promise ==> spin_action(
            policy,
            spin_feed(policy, trace),
        ) == SpinAction::CompleteAndJoin,
        trace.len() == 2 && threw_unclearly(trace[0]) ==> spin_action(
            policy,
            spin_feed(policy, trace),
        ) == (if trace[1] == SpinSeen::Answer(true) {
            SpinAction::CompleteAndJoin
        } else {
            SpinAction::ClearExceptTermination
        }),
        trace.len() == 3 && threw_unclearly(trace[0]) && trace[1] == SpinSeen::Answer(false)
            ==> spin_action(policy, spin_feed(policy, trace)) == (if trace[2] == SpinSeen::Answer(
            true,
        ) {
            SpinAction::CheckEntered(Script::SpinEntered)
        } else {
            SpinAction::CompleteAndJoin
        }),
        trace.len() > 0 && spin_action(policy, spin_feed(policy, trace.drop_last()))
            == SpinAction::CompleteAndJoin && trace.last() == SpinSeen::Answer(true)
            ==> spin_action(policy, spin_feed(policy, trace)) == SpinAction::Inspect,
        trace.len() > 0 && spin_action(policy, spin_feed(policy, trace.drop_last()))
            == SpinAction::Inspect ==> spin_action(policy, spin_feed(policy, trace)) is Finish,
        spin_feed(policy, trace) matches SpinPhase::Finished { failure } ==> spin_action(
            policy,
            spin_feed(policy, trace),
        ) == SpinAction::Finish(failure),
{
    reveal_with_fuel(spin_feed, 5);
    assert(trace.take(0) == Seq::<SpinSeen>::empty());
    if trace.len() > 0 {
        let t = trace.drop_last();
        if t.len() > 0 {
            let u = t.drop_last();
            assert(t.last() == trace[trace.len() - 2]);
            if u.len() > 0 {
                assert(u.last() == trace[trace.len() - 3]);
            }
        }
        assert(spin_answers(spin_feed(policy, trace.take(0)), trace[0]));
    }
}

/// The second thread asks for termination exactly where the evaluation is not over yet, and says
/// that it saw the entry exactly where it did.
pub proof fn law_second_thread_fires_unless_the_evaluation_is_over(wait: SpinEntryWait)
    ensures
        interrupt_after(SpinEntryWait::Entered) == (SpinInterrupt {
            acknowledged: true,
            fire: true,
        }),
        interrupt_after(SpinEntryWait::TimedOut) == (SpinInterrupt {
            acknowledged: false,
            fire: true,
        }),
        interrupt_after(SpinEntryWait::Completed) == (SpinInterrupt {
            acknowledged: false,
            fire: false,
        }),
        interrupt_after(wait).acknowledged ==> interrupt_after(wait).fire,
{
}

} // verus!
