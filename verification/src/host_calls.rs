//! The host functions that the probes install, and the counters they keep.
use vstd::prelude::*;

use crate::probe::Counter;

verus! {

/// What the host functions have seen since the counters were reset. A counter that overflows
/// starts again from the smallest number.
#[derive(Clone, Copy, Debug, PartialEq, Eq, Structural)]
pub struct HostCallCounters {
    pub sync_calls: i32,
    pub sync_payload: i32,
    pub sync_returned: i32,
    pub async_calls: i32,
    pub async_payload: i32,
    pub task_runs: i32,
    pub task_returned: i32,
}

/// The payload that a host function takes from its argument: a number is taken as it is, and
/// anything else counts as minus one.
pub open spec fn payload_of(argument: Option<i32>) -> i32 {
    match argument {
        Some(number) => number,
        None => -1i32,
    }
}

/// The number after another; after the largest comes the smallest.
pub open spec fn counted(count: i32) -> i32 {
    if count == i32::MAX {
        i32::MIN
    } else {
        (count + 1) as i32
    }
}

fn count(number: i32) -> (next: i32)
    ensures
        next == counted(number),
{
    if number == i32::MAX {
        i32::MIN
    } else {
        number + 1
    }
}

impl HostCallCounters {
    /// All counters at zero.
    pub fn new() -> (counters: Self)
        ensures
            counters == (HostCallCounters {
                sync_calls: 0,
                sync_payload: 0,
                sync_returned: 0,
                async_calls: 0,
                async_payload: 0,
                task_runs: 0,
                task_returned: 0,
            }),
    {
        HostCallCounters {
            sync_calls: 0,
            sync_payload: 0,
            sync_returned: 0,
            async_calls: 0,
            async_payload: 0,
            task_runs: 0,
            task_returned: 0,
        }
    }

    /// Sets the counters of the synchronous host function to zero.
    pub fn reset_sync(&mut self)
        ensures
            *final(self) == (HostCallCounters {
                sync_calls: 0,
                sync_payload: 0,
                sync_returned: 0,
                ..*old(self)
            }),
    {
        self.sync_calls = 0;
        self.sync_payload = 0;
        self.sync_returned = 0;
    }

    /// Sets the counters of the asynchronous host function to zero.
    pub fn reset_async(&mut self)
        ensures
            *final(self) == (HostCallCounters {
                async_calls: 0,
                async_payload: 0,
                task_runs: 0,
                task_returned: 0,
                ..*old(self)
            }),
    {
        self.async_calls = 0;
        self.async_payload = 0;
        self.task_runs = 0;
        self.task_returned = 0;
    }

    /// The value of a counter.
    pub open spec fn value(self, counter: Counter) -> i32 {
        match counter {
            Counter::SyncCalls => self.sync_calls,
            Counter::SyncPayload => self.sync_payload,
            Counter::SyncReturned => self.sync_returned,
            Counter::AsyncCalls => self.async_calls,
            Counter::AsyncPayload => self.async_payload,
            Counter::TaskRuns => self.task_runs,
            Counter::TaskReturned => self.task_returned,
        }
    }

    /// Reads a counter.
    pub fn read(&self, counter: Counter) -> (value: i32)
        ensures
            value == self.value(counter),
    {
        match counter {
            Counter::SyncCalls => self.sync_calls,
            Counter::SyncPayload => self.sync_payload,
            Counter::SyncReturned => self.sync_returned,
            Counter::AsyncCalls => self.async_calls,
            Counter::AsyncPayload => self.async_payload,
            Counter::TaskRuns => self.task_runs,
            Counter::TaskReturned => self.task_returned,
        }
    }
}

/// The synchronous host function: it counts the call, keeps the payload and returns the number
/// after it.
pub fn nimbus_bun_embed_sync_host_call(counters: &mut HostCallCounters, argument: Option<i32>) -> (
    returned: i32)
    ensures
        returned == counted(payload_of(argument)),
        *final(counters) == sync_called(*old(counters), argument),
{
    let payload: i32 = match argument {
        Some(number) => number,
        None => -1,
    };
    let returned: i32 = count(payload);
    counters.sync_calls = count(counters.sync_calls);
    counters.sync_payload = payload;
    counters.sync_returned = returned;
    returned
}

/// The asynchronous host function: it counts the call, keeps the payload and says what its task is
/// to resolve the promise to.
pub fn nimbus_bun_embed_async_host_call(counters: &mut HostCallCounters, argument: Option<i32>) -> (
    promised: i32)
    ensures
        promised == counted(payload_of(argument)),
        *final(counters) == async_called(*old(counters), argument),
{
    let payload: i32 = match argument {
        Some(number) => number,
        None => -1,
    };
    counters.async_calls = count(counters.async_calls);
    counters.async_payload = payload;
    count(payload)
}

/// The task of an asynchronous host call runs: it is counted, and what it resolves the promise to
/// is kept.
pub fn run_async_host_call_task(counters: &mut HostCallCounters, promised: i32) -> (resolved: i32)
    ensures
        resolved == promised,
        *final(counters) == task_ran(*old(counters), promised),
{
    counters.task_runs = count(counters.task_runs);
    counters.task_returned = promised;
    promised
}

/// The counters after one more call of the synchronous host function.
pub open spec fn sync_called(
    counters: HostCallCounters,
    argument: Option<i32>,
) -> HostCallCounters {
    HostCallCounters {
        sync_calls: counted(counters.sync_calls),
        sync_payload: payload_of(argument),
        sync_returned: counted(payload_of(argument)),
        ..counters
    }
}

/// The counters after one more call of the asynchronous host function.
pub open spec fn async_called(
    counters: HostCallCounters,
    argument: Option<i32>,
) -> HostCallCounters {
    HostCallCounters {
        async_calls: counted(counters.async_calls),
        async_payload: payload_of(argument),
        ..counters
    }
}

/// The counters after one more task has run.
pub open spec fn task_ran(counters: HostCallCounters, promised: i32) -> HostCallCounters {
    HostCallCounters {
        task_runs: counted(counters.task_runs),
        task_returned: promised,
        ..counters
    }
}

/// Something that happens to the counters.
pub enum HostEvent {
    SyncCall(Option<i32>),
    AsyncCall(Option<i32>),
    TaskRun(i32),
}

/// The counters after an event.
pub open spec fn after_event(counters: HostCallCounters, event: HostEvent) -> HostCallCounters {
    match event {
        HostEvent::SyncCall(argument) => sync_called(counters, argument),
        HostEvent::AsyncCall(argument) => async_called(counters, argument),
        HostEvent::TaskRun(promised) => task_ran(counters, promised),
    }
}

/// The counters after several events, beginning with all at zero.
pub open spec fn after_events(events: Seq<HostEvent>) -> HostCallCounters
    decreases events.len(),
{
    if events.len() == 0 {
        HostCallCounters {
            sync_calls: 0,
            sync_payload: 0,
            sync_returned: 0,
            async_calls: 0,
            async_payload: 0,
            task_runs: 0,
            task_returned: 0,
        }
    } else {
        after_event(after_events(events.drop_last()), events.last())
    }
}

/// The counters tell how many calls of each kind there were, and how many tasks have run, however
/// they were mixed.
pub proof fn law_counters_tell_the_calls(events: Seq<HostEvent>)
    requires
        events.len() <= i32::MAX,
    ensures
        after_events(events).sync_calls == events.filter(
            |event: HostEvent| event is SyncCall,
        ).len(),
        after_events(events).async_calls == events.filter(
            |event: HostEvent| event is AsyncCall,
        ).len(),
        after_events(events).task_runs == events.filter(|event: HostEvent| event is TaskRun).len(),
    decreases events.len(),
{
    reveal(Seq::filter);
    if events.len() > 0 {
        law_counters_tell_the_calls(events.drop_last());
        lemma_filter_is_no_longer(events.drop_last(), |event: HostEvent| event is SyncCall);
        lemma_filter_is_no_longer(events.drop_last(), |event: HostEvent| event is AsyncCall);
        lemma_filter_is_no_longer(events.drop_last(), |event: HostEvent| event is TaskRun);
    }
}

proof fn lemma_filter_is_no_longer(events: Seq<HostEvent>, kind: spec_fn(HostEvent) -> bool)
    ensures
        events.filter(kind).len() <= events.len(),
    decreases events.len(),
{
    reveal(Seq::filter);
    if events.len() > 0 {
        lemma_filter_is_no_longer(events.drop_last(), kind);
    }
}

/// A host function takes the number that it was called with and answers with the one after it, and
/// each event changes only the counters of its own kind.
pub proof fn law_host_functions_answer_with_the_next_number(
    before: HostCallCounters,
    number: i32,
    promised: i32,
)
    ensures
        number < i32::MAX ==> counted(number) == number + 1,
        counted(i32::MAX) == i32::MIN,
        payload_of(Some(number)) == number,
        payload_of(None) == -1,
        counted(payload_of(None)) == 0,
        ({
            let after = sync_called(before, Some(number));
            &&& after.value(Counter::SyncPayload) == number
            &&& number < i32::MAX ==> after.value(Counter::SyncReturned) == number + 1
            &&& before.sync_calls < i32::MAX ==> after.value(Counter::SyncCalls)
                == before.sync_calls + 1
            &&& after.value(Counter::AsyncCalls) == before.async_calls
            &&& after.value(Counter::AsyncPayload) == before.async_payload
            &&& after.value(Counter::TaskRuns) == before.task_runs
            &&& after.value(Counter::TaskReturned) == before.task_returned
        }),
        ({
            let after = async_called(before, Some(number));
            &&& after.value(Counter::AsyncPayload) == number
            &&& before.async_calls < i32::MAX ==> after.value(Counter::AsyncCalls)
                == before.async_calls + 1
            &&& after.value(Counter::SyncCalls) == before.sync_calls
            &&& after.value(Counter::SyncPayload) == before.sync_payload
            &&& after.value(Counter::SyncReturned) == before.sync_returned
            &&& after.value(Counter::TaskRuns) == before.task_runs
            &&& after.value(Counter::TaskReturned) == before.task_returned
        }),
        ({
            let after = task_ran(before, promised);
            &&& after.value(Counter::TaskReturned) == promised
            &&& before.task_runs < i32::MAX ==> after.value(Counter::TaskRuns) == before.task_runs
                + 1
            &&& after.value(Counter::SyncCalls) == before.sync_calls
            &&& after.value(Counter::SyncPayload) == before.sync_payload
            &&& after.value(Counter::SyncReturned) == before.sync_returned
            &&& after.value(Counter::AsyncCalls) == before.async_calls
            &&& after.value(Counter::AsyncPayload) == before.async_payload
        }),
{
}

/// One synchronous call and one asynchronous call whose task has run, with the same number and in
/// any order, leave exactly the counters that the probe of the program bundle expects.
pub proof fn law_one_call_each_way_leaves_the_expected_counters(number: i32)
    requires
        number < i32::MAX,
    ensures
        ({
            let sync = HostEvent::SyncCall(Some(number));
            let call = HostEvent::AsyncCall(Some(number));
            let task = HostEvent::TaskRun((number + 1) as i32);
            let expected = HostCallCounters {
                sync_calls: 1,
                sync_payload: number,
                sync_returned: (number + 1) as i32,
                async_calls: 1,
                async_payload: number,
                task_runs: 1,
                task_returned: (number + 1) as i32,
            };
            &&& after_events(seq![call, task, sync]) == expected
            &&& after_events(seq![call, sync, task]) == expected
            &&& after_events(seq![sync, call, task]) == expected
        }),
{
    reveal_with_fuel(after_events, 4);
    let sync = HostEvent::SyncCall(Some(number));
    let call = HostEvent::AsyncCall(Some(number));
    let task = HostEvent::TaskRun((number + 1) as i32);
    assert(seq![call, task, sync].drop_last() == seq![call, task]);
    assert(seq![call, task].drop_last() == seq![call]);
    assert(seq![call].drop_last() == Seq::<HostEvent>::empty());
    assert(seq![call, sync, task].drop_last() == seq![call, sync]);
    assert(seq![call, sync].drop_last() == seq![call]);
    assert(seq![sync, call, task].drop_last() == seq![sync, call]);
    assert(seq![sync, call].drop_last() == seq![sync]);
    assert(seq![sync].drop_last() == Seq::<HostEvent>::empty());
}

} // verus!
