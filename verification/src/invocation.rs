//! The invocation of a program: which calls are admitted, and how an admitted one is run under
//! the eye of the cancellation watcher.
use vstd::prelude::*;

use crate::digest::verify_bundle_sha256;
use crate::response::{clear_pending_invocation_response, PendingInvocationResponse};
use crate::text::is_utf8;

verus! {

/// A call lacks an argument.
pub const MISSING_ARGUMENT: i32 = 300;

/// The request is no UTF-8.
pub const MALFORMED_REQUEST: i32 = 301;

/// A call with a host bridge lacks the function that calls the host.
pub const MISSING_HOST_CALL: i32 = 308;

/// The bundle is not the one that the caller expects.
pub const WRONG_BUNDLE: i32 = 313;

/// The host cancelled the invocation.
pub const CANCELLED: i32 = 314;

/// The cancellation watcher did not start or did not end in order.
pub const WATCHER_FAILED: i32 = 316;

/// What the caller of an invocation hands over. What only matters by being there is a `bool`.
#[derive(Clone, Copy)]
pub struct InvocationArguments<'a> {
    pub bundle: Option<&'a [u8]>,
    pub expected_sha256: Option<&'a [u8]>,
    pub request: Option<&'a [u8]>,
    pub output: bool,
    pub output_len: bool,
    pub cancellation_context: bool,
    pub is_cancelled: bool,
}

/// An invocation with all the arguments that it needs.
#[derive(Clone, Copy)]
pub struct Invocation<'a> {
    pub bundle: &'a [u8],
    pub expected_sha256: Option<&'a [u8]>,
    pub request: &'a [u8],
}

impl<'a> InvocationArguments<'a> {
    /// Everything is there but the digest, which is looked at later.
    pub open spec fn complete(self) -> bool {
        &&& self.bundle is Some
        &&& self.request is Some
        &&& self.output
        &&& self.output_len
        &&& self.cancellation_context
        &&& self.is_cancelled
    }

    /// The invocation that complete arguments make.
    pub open spec fn spec_invocation(self) -> Invocation<'a> {
        Invocation {
            bundle: self.bundle->0,
            expected_sha256: self.expected_sha256,
            request: self.request->0,
        }
    }

    /// How an invocation with these arguments begins.
    pub open spec fn beginning(self) -> Result<Invocation<'a>, i32> {
        if self.complete() {
            Ok(self.spec_invocation())
        } else {
            Err(MISSING_ARGUMENT)
        }
    }

    /// How one begins whose program may call the host.
    pub open spec fn beginning_with_host_bridge(
        self,
        host_context: bool,
        host_call_json: bool,
    ) -> Result<Invocation<'a>, i32> {
        if !self.complete() || !host_context {
            Err(MISSING_ARGUMENT)
        } else if !host_call_json {
            Err(MISSING_HOST_CALL)
        } else {
            Ok(self.spec_invocation())
        }
    }

    fn invocation(self) -> (invocation: Option<Invocation<'a>>)
        ensures
            invocation == if self.complete() {
                Some(self.spec_invocation())
            } else {
                None
            },
    {
        match (self.bundle, self.request) {
            (Some(bundle), Some(request)) => {
                if self.output && self.output_len && self.cancellation_context
                    && self.is_cancelled {
                    Some(Invocation { bundle, expected_sha256: self.expected_sha256, request })
                } else {
                    None
                }
            },
            _ => None,
        }
    }
}

/// Begins an invocation. A response that an earlier one left is forgotten, even where the
/// arguments are not complete.
pub fn nimbus_bun_embed_invoke_program_wrapper_json<'a>(
    pending: &mut PendingInvocationResponse,
    arguments: InvocationArguments<'a>,
) -> (begun: Result<Invocation<'a>, i32>)
    ensures
        final(pending)@ is None,
        begun == arguments.beginning(),
{
    clear_pending_invocation_response(pending);
    match arguments.invocation() {
        Some(invocation) => Ok(invocation),
        None => Err(MISSING_ARGUMENT),
    }
}

/// Begins an invocation whose program may call the host. A missing context is a missing argument;
/// a missing function is looked at after all others.
pub fn nimbus_bun_embed_invoke_program_wrapper_json_with_host_bridge<'a>(
    pending: &mut PendingInvocationResponse,
    arguments: InvocationArguments<'a>,
    host_context: bool,
    host_call_json: bool,
) -> (begun: Result<Invocation<'a>, i32>)
    ensures
        final(pending)@ is None,
        begun == arguments.beginning_with_host_bridge(host_context, host_call_json),
{
    clear_pending_invocation_response(pending);
    match arguments.invocation() {
        Some(invocation) => {
            if !host_context {
                Err(MISSING_ARGUMENT)
            } else if !host_call_json {
                Err(MISSING_HOST_CALL)
            } else {
                Ok(invocation)
            }
        },
        None => Err(MISSING_ARGUMENT),
    }
}

impl<'a> Invocation<'a> {
    /// The bundle is the one that the caller pinned.
    pub open spec fn pinned(self, digest: Seq<u8>) -> bool {
        self.expected_sha256 is Some && crate::digest::writes_digest(
            self.expected_sha256->0@,
            digest,
        )
    }

    /// Why the invocation is not run, if it is not.
    pub open spec fn refusal(self, digest: Seq<u8>) -> Option<i32> {
        if !self.pinned(digest) {
            Some(WRONG_BUNDLE)
        } else if !vstd::utf8::valid_utf8(self.request@) {
            Some(MALFORMED_REQUEST)
        } else {
            None
        }
    }

    /// Whether the invocation is run, where `digest` is the SHA-256 of its bundle.
    pub fn check_bundle_and_request(self, digest: &[u8; 32]) -> (admitted: Result<(), i32>)
        ensures
            admitted == match self.refusal(digest@) {
                Some(status) => Err::<(), i32>(status),
                None => Ok::<(), i32>(()),
            },
    {
        if verify_bundle_sha256(digest, self.expected_sha256).is_err() {
            return Err(WRONG_BUNDLE);
        }
        if !is_utf8(self.request) {
            return Err(MALFORMED_REQUEST);
        }
        Ok(())
    }
}

/// Where the run of an admitted invocation stands.
#[derive(Clone, Copy, Debug, PartialEq, Eq, Structural)]
pub enum InvocationRun {
    /// The host has not been asked whether it cancelled the invocation.
    Start,
    /// The machine is to be locked and its termination exception made.
    Prepare,
    /// The watcher is to be started.
    StartWatcher,
    /// The program is to be run.
    RunProgram,
    /// The watcher is to be ended.
    FinishWatcher { status: i32 },
    /// The termination is to be taken off the machine.
    ClearTermination { status: i32 },
    Finished { status: i32 },
}

/// What the embedder saw.
#[derive(Clone, Copy, Debug, PartialEq, Eq, Structural)]
pub enum InvocationSeen {
    /// What the host says of the cancellation.
    Token { cancelled: bool },
    Done,
    /// Whether the watcher started.
    WatcherStarted(bool),
    /// The status with which the program ended.
    Status(i32),
    /// The watcher ended, and the invocation was cancelled or was not.
    WatcherFinished { cancelled: bool },
    /// The watcher did not end in order.
    WatcherLost,
}

impl InvocationRun {
    /// The observation is one that this state waits for.
    pub open spec fn answered_by(self, seen: InvocationSeen) -> bool {
        match self {
            InvocationRun::Start => seen is Token,
            InvocationRun::Prepare => seen is Done,
            InvocationRun::StartWatcher => seen is WatcherStarted,
            InvocationRun::RunProgram => seen is Status,
            InvocationRun::FinishWatcher { .. } => seen is WatcherFinished || seen is WatcherLost,
            InvocationRun::ClearTermination { .. } => seen is Done,
            InvocationRun::Finished { .. } => true,
        }
    }

    /// The state after an observation.
    pub open spec fn next(self, seen: InvocationSeen) -> InvocationRun {
        match self {
            InvocationRun::Start => if seen == (InvocationSeen::Token { cancelled: true }) {
                InvocationRun::Finished { status: CANCELLED }
            } else {
                InvocationRun::Prepare
            },
            InvocationRun::Prepare => InvocationRun::StartWatcher,
            InvocationRun::StartWatcher => if seen == InvocationSeen::WatcherStarted(true) {
                InvocationRun::RunProgram
            } else {
                InvocationRun::Finished { status: WATCHER_FAILED }
            },
            InvocationRun::RunProgram => InvocationRun::FinishWatcher { status: seen->Status_0 },
            InvocationRun::FinishWatcher { status } => if seen is WatcherLost {
                InvocationRun::ClearTermination { status: WATCHER_FAILED }
            } else if seen == (InvocationSeen::WatcherFinished { cancelled: true }) {
                InvocationRun::ClearTermination { status: CANCELLED }
            } else {
                InvocationRun::Finished { status }
            },
            InvocationRun::ClearTermination { status } => InvocationRun::Finished { status },
            InvocationRun::Finished { .. } => self,
        }
    }

    /// The run of an invocation, where `digest` is the SHA-256 of its bundle. An invocation that is
    /// refused has none.
    pub fn new<'a>(invocation: Invocation<'a>, digest: &[u8; 32]) -> (run: Result<Self, i32>)
        ensures
            run == match invocation.refusal(digest@) {
                Some(status) => Err::<Self, i32>(status),
                None => Ok::<Self, i32>(InvocationRun::Start),
            },
    {
        match invocation.check_bundle_and_request(digest) {
            Ok(()) => Ok(InvocationRun::Start),
            Err(status) => Err(status),
        }
    }

    /// Takes the answer to what was due.
    pub fn observe(&mut self, seen: InvocationSeen)
        requires
            old(self).answered_by(seen),
        ensures
            *final(self) == old(self).next(seen),
    {
        *self = match (*self, seen) {
            (InvocationRun::Start, InvocationSeen::Token { cancelled }) => if cancelled {
                InvocationRun::Finished { status: CANCELLED }
            } else {
                InvocationRun::Prepare
            },
            (InvocationRun::Prepare, _) => InvocationRun::StartWatcher,
            (InvocationRun::StartWatcher, InvocationSeen::WatcherStarted(started)) => if started {
                InvocationRun::RunProgram
            } else {
                InvocationRun::Finished { status: WATCHER_FAILED }
            },
            (InvocationRun::RunProgram, InvocationSeen::Status(status)) => {
                InvocationRun::FinishWatcher { status }
            },
            (InvocationRun::FinishWatcher { .. }, InvocationSeen::WatcherLost) => {
                InvocationRun::ClearTermination { status: WATCHER_FAILED }
            },
            (
                InvocationRun::FinishWatcher { status },
                InvocationSeen::WatcherFinished { cancelled },
            ) => if cancelled {
                InvocationRun::ClearTermination { status: CANCELLED }
            } else {
                InvocationRun::Finished { status }
            },
            (InvocationRun::ClearTermination { status }, _) => InvocationRun::Finished { status },
            (state, _) => state,
        };
    }
}

/// The state after several observations.
pub open spec fn run_after(trace: Seq<InvocationSeen>) -> InvocationRun
    decreases trace.len(),
{
    if trace.len() == 0 {
        InvocationRun::Start
    } else {
        run_after(trace.drop_last()).next(trace.last())
    }
}

/// Every observation is one that was waited for.
pub open spec fn run_fair(trace: Seq<InvocationSeen>) -> bool {
    forall|i: int|
        0 <= i < trace.len() ==> run_after(#[trigger] trace.take(i)).answered_by(trace[i])
}

proof fn lemma_run_prefix(trace: Seq<InvocationSeen>)
    requires
        run_fair(trace),
        trace.len() > 0,
    ensures
        run_fair(trace.drop_last()),
        run_after(trace.drop_last()).answered_by(trace.last()),
{
    let before = trace.drop_last();
    assert(trace.take(trace.len() - 1) == before);
    assert forall|i: int| 0 <= i < before.len() implies run_after(
        #[trigger] before.take(i),
    ).answered_by(before[i]) by {
        assert(before.take(i) == trace.take(i));
    }
}

/// A tampered bundle is refused before anything else is looked at, and no malformed request
/// reaches the machine.
pub proof fn law_only_the_pinned_bundle_is_admitted<'a>(
    invocation: Invocation<'a>,
    digest: Seq<u8>,
    other: Seq<u8>,
)
    requires
        invocation.refusal(digest) is None,
        other != digest,
    ensures
        vstd::utf8::valid_utf8(invocation.request@),
        invocation.refusal(other) == Some(WRONG_BUNDLE),
{
    if invocation.pinned(other) {
        crate::digest::law_text_pins_one_digest(invocation.expected_sha256->0@, digest, other);
    }
}

/// An invocation that was cancelled before it began ends as cancelled without a step of its
/// program.
pub proof fn law_cancelled_invocation_never_starts(trace: Seq<InvocationSeen>)
    requires
        trace.len() > 0,
        trace[0] == (InvocationSeen::Token { cancelled: true }),
    ensures
        run_after(trace) == (InvocationRun::Finished { status: CANCELLED }),
    decreases trace.len(),
{
    reveal_with_fuel(run_after, 2);
    if trace.len() > 1 {
        law_cancelled_invocation_never_starts(trace.drop_last());
    }
}

/// A cancellation wins over the status of the program, whatever that was, and its termination is
/// taken off the machine before the run ends.
pub proof fn law_cancellation_wins(trace: Seq<InvocationSeen>, i: int)
    requires
        run_fair(trace),
        0 <= i < trace.len(),
        trace[i] == (InvocationSeen::WatcherFinished { cancelled: true }),
        !(run_after(trace.take(i)) is Finished),
    ensures
        run_after(trace.take(i + 1)) == (InvocationRun::ClearTermination { status: CANCELLED }),
        run_after(trace) == (InvocationRun::ClearTermination { status: CANCELLED }) || run_after(
            trace,
        ) == (InvocationRun::Finished { status: CANCELLED }),
{
    assert(run_after(trace.take(i)).answered_by(trace[i]));
    assert(trace.take(i + 1).drop_last() == trace.take(i));
    lemma_clearing_is_the_end(trace, i + 1, CANCELLED);
}

proof fn lemma_clearing_is_the_end(trace: Seq<InvocationSeen>, from: int, status: i32)
    requires
        0 <= from <= trace.len(),
        run_after(trace.take(from)) == (InvocationRun::ClearTermination { status }),
    ensures
        run_after(trace) == (InvocationRun::ClearTermination { status }) || run_after(trace) == (
        InvocationRun::Finished { status }),
    decreases trace.len(),
{
    if from == trace.len() {
        assert(trace.take(from) == trace);
    } else {
        assert(trace.drop_last().take(from) == trace.take(from));
        lemma_clearing_is_the_end(trace.drop_last(), from, status);
    }
}

/// A run that ends with another status than those of the watcher and of a cancellation ends with
/// the status of its program, which ran to its end under a watcher that saw no cancellation.
pub proof fn law_status_is_that_of_the_program(trace: Seq<InvocationSeen>)
    requires
        run_fair(trace),
        run_after(trace) is Finished,
        run_after(trace)->Finished_status != CANCELLED,
        run_after(trace)->Finished_status != WATCHER_FAILED,
    ensures
        trace.len() >= 5,
        trace[0] == (InvocationSeen::Token { cancelled: false }),
        trace[2] == InvocationSeen::WatcherStarted(true),
        trace[3] == InvocationSeen::Status(run_after(trace)->Finished_status),
        trace[4] == (InvocationSeen::WatcherFinished { cancelled: false }),
    decreases trace.len(),
{
    let before = trace.drop_last();
    lemma_run_prefix(trace);
    if run_after(before) is Finished {
        law_status_is_that_of_the_program(before);
    } else {
        lemma_stages(before);
    }
}

/// The watcher is started only on a machine that is locked and has made its termination
/// exception, and the program is run only under a watcher that started.
pub proof fn law_program_runs_under_its_watcher(trace: Seq<InvocationSeen>)
    requires
        run_fair(trace),
        run_after(trace) is RunProgram,
    ensures
        trace.len() == 3,
        run_after(trace.take(1)) is Prepare,
        trace[1] is Done,
        run_after(trace.take(2)) is StartWatcher,
        trace[2] == InvocationSeen::WatcherStarted(true),
{
    reveal_with_fuel(run_after, 4);
    lemma_stages(trace);
    assert(trace.take(1).drop_last() == Seq::<InvocationSeen>::empty());
    assert(trace.take(2).drop_last() == trace.take(1));
    assert(run_after(trace.take(1)).answered_by(trace[1]));
}

/// What was seen on the way to each state.
proof fn lemma_stages(trace: Seq<InvocationSeen>)
    requires
        run_fair(trace),
        !(run_after(trace) is Finished),
    ensures
        run_after(trace) is Start ==> trace.len() == 0,
        !(run_after(trace) is Start) ==> trace.len() >= 1 && trace[0] == (InvocationSeen::Token {
            cancelled: false,
        }),
        run_after(trace) is Prepare ==> trace.len() == 1,
        run_after(trace) is StartWatcher ==> trace.len() == 2,
        run_after(trace) is RunProgram ==> trace.len() == 3 && trace[2]
            == InvocationSeen::WatcherStarted(true),
        run_after(trace) is FinishWatcher ==> {
            &&& trace.len() == 4
            &&& trace[2] == InvocationSeen::WatcherStarted(true)
            &&& trace[3] == InvocationSeen::Status(run_after(trace)->FinishWatcher_status)
        },
        run_after(trace) is ClearTermination ==> {
            ||| run_after(trace)->ClearTermination_status == CANCELLED
            ||| run_after(trace)->ClearTermination_status == WATCHER_FAILED
        },
    decreases trace.len(),
{
    if trace.len() > 0 {
        let before = trace.drop_last();
        lemma_run_prefix(trace);
        lemma_stages(before);
    }
}

/// An invocation begins exactly where nothing is missing, with the bundle, the digest and the
/// request that the caller handed over. A missing argument is reported as such also where more is
/// missing; a missing digest is none of them.
pub proof fn law_invocation_begins_with_what_was_handed_over<'a>(
    arguments: InvocationArguments<'a>,
    host_context: bool,
    host_call_json: bool,
)
    ensures
        ({
            let missing = arguments.bundle is None || arguments.request is None
                || !arguments.output || !arguments.output_len || !arguments.cancellation_context
                || !arguments.is_cancelled;
            let begun = arguments.beginning();
            let bridged = arguments.beginning_with_host_bridge(host_context, host_call_json);
            &&& missing ==> begun == Err::<Invocation<'a>, i32>(300)
            &&& !missing ==> begun is Ok
            &&& begun matches Ok(invocation) ==> {
                &&& Some(invocation.bundle) == arguments.bundle
                &&& Some(invocation.request) == arguments.request
                &&& invocation.expected_sha256 == arguments.expected_sha256
            }
            &&& missing || !host_context ==> bridged == Err::<Invocation<'a>, i32>(300)
            &&& !missing && host_context && !host_call_json ==> bridged == Err::<
                Invocation<'a>,
                i32,
            >(308)
            &&& !missing && host_context && host_call_json ==> bridged == begun
        }),
{
}

/// An invocation is refused for its bundle wherever that is not the pinned one, and for its request
/// exactly where the bundle is and the request is no UTF-8.
pub proof fn law_refusal_says_why<'a>(invocation: Invocation<'a>, digest: Seq<u8>)
    ensures
        ({
            let pinned = invocation.expected_sha256 matches Some(text)
                && crate::digest::writes_digest(text@, digest);
            let readable = vstd::utf8::valid_utf8(invocation.request@);
            &&& invocation.refusal(digest) == Some(313i32) <==> !pinned
            &&& invocation.refusal(digest) == Some(301i32) <==> pinned && !readable
            &&& invocation.refusal(digest) is None <==> pinned && readable
        }),
{
}

/// However a run goes, it is over after six observations, and what was seen says how it ends: a
/// cancellation before the start and one that the watcher reports end it with 314, a watcher that
/// did not start or did not end in order with 316, and otherwise it ends with the status of its
/// program. The termination is taken off the machine exactly where the watcher was lost or
/// reported a cancellation.
pub proof fn law_run_ends_as_seen(trace: Seq<InvocationSeen>)
    requires
        run_fair(trace),
        trace.len() >= 6,
    ensures
        ({
            let end = run_after(trace);
            if trace[0] == (InvocationSeen::Token { cancelled: true }) {
                end == (InvocationRun::Finished { status: 314 })
            } else if trace[2] == InvocationSeen::WatcherStarted(false) {
                end == (InvocationRun::Finished { status: 316 })
            } else if trace[4] == (InvocationSeen::WatcherFinished { cancelled: true }) {
                &&& run_after(trace.take(5)) is ClearTermination
                &&& end == (InvocationRun::Finished { status: 314 })
            } else if trace[4] == InvocationSeen::WatcherLost {
                &&& run_after(trace.take(5)) is ClearTermination
                &&& end == (InvocationRun::Finished { status: 316 })
            } else {
                &&& trace[4] == (InvocationSeen::WatcherFinished { cancelled: false })
                &&& trace[3] matches InvocationSeen::Status(status)
                &&& run_after(trace.take(5)) == (InvocationRun::Finished { status })
                &&& end == (InvocationRun::Finished { status })
            }
        }),
    decreases trace.len(),
{
    if trace.len() > 6 {
        lemma_run_prefix(trace);
        law_run_ends_as_seen(trace.drop_last());
        assert(trace.drop_last().take(5) == trace.take(5));
    } else {
        assert(trace.take(6) == trace);
        assert(trace.take(0) == Seq::<InvocationSeen>::empty());
        lemma_run_step(trace, 0);
        lemma_run_step(trace, 1);
        lemma_run_step(trace, 2);
        lemma_run_step(trace, 3);
        lemma_run_step(trace, 4);
        lemma_run_step(trace, 5);
    }
}

proof fn lemma_run_step(trace: Seq<InvocationSeen>, k: int)
    requires
        run_fair(trace),
        0 <= k < trace.len(),
    ensures
        run_after(trace.take(k)).answered_by(trace[k]),
        run_after(trace.take(k + 1)) == run_after(trace.take(k)).next(trace[k]),
{
    assert(trace.take(k + 1).drop_last() == trace.take(k));
    assert(trace.take(k + 1).last() == trace[k]);
}

} // verus!
