//! Cancellation: the token that keeps a program out, and the watcher of an invocation.
use vstd::prelude::*;

verus! {

/// A token that a probe cancels before it offers a program to the machine.
#[derive(Clone, Copy, Debug, PartialEq, Eq, Structural)]
pub struct ProofCancellationToken {
    pub cancelled: bool,
}

impl ProofCancellationToken {
    /// A token that nobody has cancelled.
    pub fn new() -> (token: Self)
        ensures
            !token.cancelled,
    {
        ProofCancellationToken { cancelled: false }
    }

    /// Cancels the token, for good.
    pub fn cancel(&mut self)
        ensures
            final(self).cancelled,
    {
        self.cancelled = true;
    }

    /// Whether the token was cancelled.
    pub fn is_cancelled(&self) -> (cancelled: bool)
        ensures
            cancelled == self.cancelled,
    {
        self.cancelled
    }
}

/// Whether the machine may enter a program: not once the token is cancelled, and then with
/// `cancelled_status`.
pub fn program_entry(token: &ProofCancellationToken, cancelled_status: i32) -> (entry: Result<
    (),
    i32,
>)
    ensures
        entry == entry_of(*token, cancelled_status),
{
    if token.is_cancelled() {
        Err(cancelled_status)
    } else {
        Ok(())
    }
}

/// How long the watcher of an invocation sleeps between two looks at the token, in nanoseconds.
pub const WATCHER_INTERVAL: u64 = 1_000_000;

/// What the watcher of an invocation does next.
#[derive(Clone, Copy, Debug, PartialEq, Eq, Structural)]
pub enum WatcherAction {
    /// Asks the host whether the invocation is cancelled.
    AskToken,
    /// Requests the termination of the machine and ends.
    Terminate,
    /// Sleeps for this many nanoseconds.
    Sleep(u64),
    /// Ends.
    Stop,
}

/// What the watcher of an invocation shares with the thread that runs it.
#[derive(Clone, Copy, Debug, PartialEq, Eq, Structural)]
pub struct InvocationCancellationWatcher {
    /// The invocation is over.
    pub completed: bool,
    /// The watcher saw the cancellation.
    pub cancelled: bool,
}

impl InvocationCancellationWatcher {
    /// The watcher of an invocation that begins.
    pub fn new() -> (watcher: Self)
        ensures
            !watcher.completed,
            !watcher.cancelled,
    {
        InvocationCancellationWatcher { completed: false, cancelled: false }
    }

    /// What the watcher does when it wakes up: it ends once the invocation is over.
    pub fn wake(&self) -> (action: WatcherAction)
        ensures
            action == wake_action(*self),
    {
        if self.completed {
            WatcherAction::Stop
        } else {
            WatcherAction::AskToken
        }
    }

    /// What the watcher does with the answer of the host.
    pub fn answer(&mut self, token_is_cancelled: bool) -> (action: WatcherAction)
        ensures
            *final(self) == watched(*old(self), WatcherEvent::Answer(token_is_cancelled)),
            action == answer_action(token_is_cancelled),
    {
        if token_is_cancelled {
            self.cancelled = true;
            WatcherAction::Terminate
        } else {
            WatcherAction::Sleep(WATCHER_INTERVAL)
        }
    }

    /// Tells the watcher that the invocation is over.
    pub fn complete(&mut self)
        ensures
            *final(self) == watched(*old(self), WatcherEvent::Complete),
    {
        self.completed = true;
    }

    /// Whether the invocation was cancelled, where `token_is_cancelled` is what the host says now
    /// that the watcher has ended. Without it the watcher did not end in order.
    pub fn finish(&self, token_is_cancelled: Option<bool>) -> (cancelled: Result<bool, ()>)
        ensures
            cancelled == watch_result(*self, token_is_cancelled),
    {
        match token_is_cancelled {
            Some(token) => Ok(self.cancelled || token),
            None => Err(()),
        }
    }
}

/// What a watcher does when it wakes up.
pub open spec fn wake_action(watcher: InvocationCancellationWatcher) -> WatcherAction {
    if watcher.completed {
        WatcherAction::Stop
    } else {
        WatcherAction::AskToken
    }
}

/// What a watcher does with the answer of the host.
pub open spec fn answer_action(token_is_cancelled: bool) -> WatcherAction {
    if token_is_cancelled {
        WatcherAction::Terminate
    } else {
        WatcherAction::Sleep(WATCHER_INTERVAL)
    }
}

/// Whether the machine may enter a program under this token.
pub open spec fn entry_of(token: ProofCancellationToken, cancelled_status: i32) -> Result<(), i32> {
    if token.cancelled {
        Err(cancelled_status)
    } else {
        Ok(())
    }
}

/// What happens to a watcher.
pub enum WatcherEvent {
    Answer(bool),
    Complete,
}

/// The watcher after an event.
pub open spec fn watched(
    watcher: InvocationCancellationWatcher,
    event: WatcherEvent,
) -> InvocationCancellationWatcher {
    match event {
        WatcherEvent::Answer(token) => InvocationCancellationWatcher {
            completed: watcher.completed,
            cancelled: watcher.cancelled || token,
        },
        WatcherEvent::Complete => InvocationCancellationWatcher {
            completed: true,
            cancelled: watcher.cancelled,
        },
    }
}

/// The watcher after several events.
pub open spec fn watched_all(events: Seq<WatcherEvent>) -> InvocationCancellationWatcher
    decreases events.len(),
{
    if events.len() == 0 {
        InvocationCancellationWatcher { completed: false, cancelled: false }
    } else {
        watched(watched_all(events.drop_last()), events.last())
    }
}

/// What the thread that ran the invocation learns.
pub open spec fn watch_result(
    watcher: InvocationCancellationWatcher,
    token_is_cancelled: Option<bool>,
) -> Result<bool, ()> {
    match token_is_cancelled {
        Some(token) => Ok(watcher.cancelled || token),
        None => Err(()),
    }
}

/// An invocation counts as cancelled if and only if the host said so once, to the watcher or at
/// the end: a guest that returns between two looks of the watcher hides nothing.
pub proof fn law_cancellation_is_never_hidden(events: Seq<WatcherEvent>, token_at_end: bool)
    ensures
        watch_result(watched_all(events), Some(token_at_end)) == Ok::<bool, ()>(
            token_at_end || exists|i: int|
                0 <= i < events.len() && #[trigger] events[i] == WatcherEvent::Answer(true),
        ),
    decreases events.len(),
{
    if events.len() > 0 {
        law_cancellation_is_never_hidden(events.drop_last(), token_at_end);
        let seen = exists|i: int|
            0 <= i < events.len() && #[trigger] events[i] == WatcherEvent::Answer(true);
        let seen_before = exists|i: int|
            0 <= i < events.len() - 1 && #[trigger] events.drop_last()[i] == WatcherEvent::Answer(
                true,
            );
        if seen_before {
            let i = choose|i: int|
                0 <= i < events.len() - 1 && #[trigger] events.drop_last()[i]
                    == WatcherEvent::Answer(true);
            assert(events[i] == WatcherEvent::Answer(true));
        }
        if events.last() == WatcherEvent::Answer(true) {
            assert(events[events.len() - 1] == WatcherEvent::Answer(true));
        }
        if seen && events.last() != WatcherEvent::Answer(true) {
            let i = choose|i: int|
                0 <= i < events.len() && #[trigger] events[i] == WatcherEvent::Answer(true);
            assert(events.drop_last()[i] == WatcherEvent::Answer(true));
        }
    }
}

/// A watcher that wakes up after the invocation is over ends, whatever happened before.
pub proof fn law_watcher_ends_with_the_invocation(events: Seq<WatcherEvent>, i: int)
    requires
        0 <= i < events.len(),
        events[i] is Complete,
    ensures
        watched_all(events).completed,
    decreases events.len(),
{
    if i < events.len() - 1 {
        law_watcher_ends_with_the_invocation(events.drop_last(), i);
    }
}

/// A watcher looks at the token until the invocation is over and not after, looks again after one
/// millisecond where the host did not cancel, and terminates the machine exactly where it did; its
/// own end tells nothing of a cancellation where the host cannot be asked.
pub proof fn law_watcher_terminates_exactly_on_cancellation(
    events: Seq<WatcherEvent>,
    token: bool,
)
    ensures
        wake_action(watched_all(events)) == WatcherAction::Stop <==> exists|i: int|
            0 <= i < events.len() && #[trigger] events[i] == WatcherEvent::Complete,
        wake_action(watched_all(events)) == WatcherAction::Stop || wake_action(watched_all(events))
            == WatcherAction::AskToken,
        answer_action(token) == WatcherAction::Terminate <==> token,
        !token ==> answer_action(token) == WatcherAction::Sleep(1_000_000u64),
        watched(watched_all(events), WatcherEvent::Answer(token)).cancelled
            == (watched_all(events).cancelled || token),
        watch_result(watched_all(events), None) == Err::<bool, ()>(()),
    decreases events.len(),
{
    if events.len() > 0 {
        let before = events.drop_last();
        law_watcher_terminates_exactly_on_cancellation(before, token);
        if wake_action(watched_all(before)) == WatcherAction::Stop {
            let i = choose|i: int|
                0 <= i < before.len() && #[trigger] before[i] == WatcherEvent::Complete;
            assert(events[i] == WatcherEvent::Complete);
        }
        if events.last() == WatcherEvent::Complete {
            assert(events[events.len() - 1] == WatcherEvent::Complete);
        } else if exists|i: int|
            0 <= i < events.len() && #[trigger] events[i] == WatcherEvent::Complete {
            let i = choose|i: int|
                0 <= i < events.len() && #[trigger] events[i] == WatcherEvent::Complete;
            assert(before[i] == WatcherEvent::Complete);
        }
    }
}

/// A cancelled token keeps a program out, with the status of the caller, and any other lets it in.
pub proof fn law_cancelled_token_keeps_programs_out(
    token: ProofCancellationToken,
    cancelled_status: i32,
)
    ensures
        token.cancelled <==> entry_of(token, cancelled_status) == Err::<(), i32>(cancelled_status),
        !token.cancelled <==> entry_of(token, cancelled_status) == Ok::<(), i32>(()),
{
}

} // verus!
