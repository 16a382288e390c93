use embed_probe::host_bridge::{
    host_bridge_status_error_response, nimbus_bun_embed_host_bridge_call_json, HostBridgeAction,
    HostBridgeReply, HostBridgeSeen, INVALID_REQUEST, INVALID_RESPONSE_LENGTH,
    NIMBUS_HOST_BRIDGE_OUTPUT_CAP, RESPONSE_ALLOCATION_FAILED, RESPONSE_LENGTH_CHANGED,
    RESPONSE_TOO_LARGE,
};
use embed_probe::host_calls::{
    nimbus_bun_embed_async_host_call, nimbus_bun_embed_sync_host_call, run_async_host_call_task,
    HostCallCounters,
};
use embed_probe::probe::Counter;
use embed_probe::response::{
    deliver_response, nimbus_bun_embed_take_pending_response, PendingInvocationResponse,
};
use embed_probe::script::{Script, SpinPolicy};
use embed_probe::session::{
    nimbus_bun_embed_probe_construct_and_destroy_vm,
    nimbus_bun_embed_probe_lifecycle_reuse_stress, worker_name, worker_status, FirstVmAction,
    FirstVmSeen, LifecycleStress, SessionSeen, VmSession,
};
use embed_probe::signals::{
    deadline_after, nimbus_bun_embed_spin_entered_ack, GateStep, InitProofGate, SpinEntrySignal,
    SpinEntryStep, SpinEntryWait, CANCELLATION_PROOF_ACK_TIMEOUT, INIT_PROOF_GATE_TIMEOUT,
};
use embed_probe::slot::Slot;
use embed_probe::spin::{spin_interrupt, SpinAction, SpinInterrupt, SpinRun, SpinSeen};

fn reply(request: Option<&[u8]>, trace: Vec<HostBridgeSeen>) -> Option<HostBridgeReply> {
    let mut call = nimbus_bun_embed_host_bridge_call_json(request.map(|bytes| bytes.to_vec()));
    for seen in trace {
        call = call.observe(seen);
    }
    call.into_reply()
}

fn error(text: &str) -> Option<HostBridgeReply> {
    Some(HostBridgeReply::Error(text.to_owned()))
}

fn returned(status: i32, output_len: usize, output: &[u8]) -> HostBridgeSeen {
    HostBridgeSeen::Returned {
        status,
        output_len,
        output: output.to_vec(),
    }
}

#[test]
fn a_request_must_be_a_string() {
    assert_eq!(reply(None, vec![]), error(INVALID_REQUEST));
    assert_eq!(
        INVALID_REQUEST,
        "{\"status\":\"error\",\"error\":{\"code\":\"invalid_host_bridge_request\",\"message\":\"request must be a JSON string\"}}"
    );
}

#[test]
fn a_response_that_fits_comes_from_one_call() {
    let call = nimbus_bun_embed_host_bridge_call_json(Some(b"{\"op\":1}".to_vec()));
    assert_eq!(
        call.action(),
        HostBridgeAction::CallHost {
            request: b"{\"op\":1}",
            capacity: 4 * 1024 * 1024,
        }
    );
    assert_eq!(
        reply(Some(b"{}"), vec![returned(0, 2, b"{}\0\0")]),
        Some(HostBridgeReply::Response(b"{}".to_vec()))
    );
    assert_eq!(
        reply(Some(b"{}"), vec![returned(0, 0, b"\0\0")]),
        Some(HostBridgeReply::Response(vec![]))
    );
}

#[test]
fn a_larger_response_is_taken_by_a_second_call() {
    let mut call = nimbus_bun_embed_host_bridge_call_json(Some(b"{}".to_vec()));
    call = call.observe(returned(307, 5, b"\0\0"));
    assert_eq!(call.action(), HostBridgeAction::Reserve { length: 5 });
    call = call.observe(HostBridgeSeen::Reserved(true));
    assert_eq!(call.action(), HostBridgeAction::TakeRetained { length: 5 });
    call = call.observe(returned(0, 5, b"hello"));
    assert_eq!(call.action(), HostBridgeAction::Reply);
    assert_eq!(
        call.into_reply(),
        Some(HostBridgeReply::Response(b"hello".to_vec()))
    );
}

#[test]
fn every_failure_of_the_host_has_its_reply() {
    assert_eq!(
        reply(Some(b"{}"), vec![returned(307, 2, b"\0\0")]),
        error(INVALID_RESPONSE_LENGTH)
    );
    assert_eq!(
        reply(
            Some(b"{}"),
            vec![returned(307, 3, b"\0\0"), HostBridgeSeen::Reserved(false)]
        ),
        error(RESPONSE_ALLOCATION_FAILED)
    );
    let taken = |seen: HostBridgeSeen| {
        reply(
            Some(b"{}"),
            vec![
                returned(307, 3, b"\0\0"),
                HostBridgeSeen::Reserved(true),
                seen,
            ],
        )
    };
    assert_eq!(taken(returned(0, 2, b"abc")), error(RESPONSE_LENGTH_CHANGED));
    assert_eq!(
        taken(returned(5, 0, b"abc")),
        error(&host_bridge_status_error_response(5))
    );
    assert_eq!(
        taken(returned(307, 9, b"abc")),
        error(&host_bridge_status_error_response(307))
    );
    assert_eq!(
        taken(HostBridgeSeen::NoBridge),
        error(&host_bridge_status_error_response(311))
    );
    assert_eq!(
        reply(Some(b"{}"), vec![returned(0, 3, b"\0\0")]),
        error(RESPONSE_TOO_LARGE)
    );
    assert_eq!(
        reply(Some(b"{}"), vec![HostBridgeSeen::NoBridge]),
        error("{\"status\":\"error\",\"error\":{\"code\":\"host_bridge_callback_failed\",\"status\":311}}")
    );
    assert_eq!(
        host_bridge_status_error_response(-7),
        "{\"status\":\"error\",\"error\":{\"code\":\"host_bridge_callback_failed\",\"status\":-7}}"
    );
}

#[test]
fn a_host_that_retains_its_response_is_heard_in_full() {
    let response = vec![b'x'; NIMBUS_HOST_BRIDGE_OUTPUT_CAP + 1];
    let mut pending = PendingInvocationResponse::new();
    let mut call = nimbus_bun_embed_host_bridge_call_json(Some(b"{}".to_vec()));
    let mut operations = 0;
    loop {
        call = match call.action() {
            HostBridgeAction::CallHost { request, capacity } => {
                assert_eq!(request, b"{}");
                operations += 1;
                let delivery = deliver_response(&mut pending, response.clone(), capacity);
                call.observe(HostBridgeSeen::Returned {
                    status: delivery.status,
                    output_len: delivery.output_len.unwrap_or(0),
                    output: vec![0; capacity],
                })
            }
            HostBridgeAction::Reserve { .. } => call.observe(HostBridgeSeen::Reserved(true)),
            HostBridgeAction::TakeRetained { length } => {
                let delivery =
                    nimbus_bun_embed_take_pending_response(&mut pending, true, length, true);
                call.observe(HostBridgeSeen::Returned {
                    status: delivery.status,
                    output_len: delivery.output_len.unwrap_or(0),
                    output: delivery.output.unwrap_or_default(),
                })
            }
            HostBridgeAction::Reply => break,
        };
    }
    assert_eq!(operations, 1);
    assert_eq!(call.into_reply(), Some(HostBridgeReply::Response(response)));
}

#[test]
fn host_functions_count_their_calls() {
    let mut counters = HostCallCounters::new();
    assert_eq!(nimbus_bun_embed_sync_host_call(&mut counters, Some(41)), 42);
    assert_eq!(nimbus_bun_embed_sync_host_call(&mut counters, None), 0);
    assert_eq!(counters.read(Counter::SyncCalls), 2);
    assert_eq!(counters.read(Counter::SyncPayload), -1);
    assert_eq!(counters.read(Counter::SyncReturned), 0);
    let promised = nimbus_bun_embed_async_host_call(&mut counters, Some(41));
    assert_eq!(promised, 42);
    assert_eq!(counters.read(Counter::AsyncCalls), 1);
    assert_eq!(counters.read(Counter::AsyncPayload), 41);
    assert_eq!(counters.read(Counter::TaskRuns), 0);
    assert_eq!(run_async_host_call_task(&mut counters, promised), 42);
    assert_eq!(counters.read(Counter::TaskRuns), 1);
    assert_eq!(counters.read(Counter::TaskReturned), 42);
    counters.reset_sync();
    assert_eq!(counters.read(Counter::SyncCalls), 0);
    assert_eq!(counters.read(Counter::AsyncCalls), 1);
    counters.reset_async();
    assert_eq!(counters, HostCallCounters::new());
}

#[test]
fn a_counter_starts_again_after_the_largest_number() {
    let mut counters = HostCallCounters::new();
    counters.sync_calls = i32::MAX;
    nimbus_bun_embed_sync_host_call(&mut counters, Some(1));
    assert_eq!(counters.sync_calls, i32::MIN);
    assert_eq!(
        nimbus_bun_embed_sync_host_call(&mut counters, Some(i32::MAX)),
        i32::MIN
    );
    assert_eq!(
        nimbus_bun_embed_async_host_call(&mut counters, Some(i32::MAX)),
        i32::MIN
    );
}

#[test]
fn slots_nest() {
    let mut slot: Slot<u32> = Slot::new();
    assert!(!slot.is_installed());
    let outer = slot.install(1);
    let inner = slot.install(2);
    assert_eq!(slot.current(), Some(&2));
    slot.restore(inner);
    assert_eq!(slot.current(), Some(&1));
    assert!(slot.is_installed());
    slot.restore(outer);
    assert_eq!(slot.current(), None);
}

#[test]
fn a_waiter_learns_of_the_entry_first() {
    let mut signal = SpinEntrySignal::new();
    assert_eq!(
        signal.wait(100, 40, false),
        SpinEntryStep::Sleep { remaining: 60 }
    );
    assert_eq!(
        signal.wait(100, 100, false),
        SpinEntryStep::Return(SpinEntryWait::TimedOut)
    );
    assert_eq!(
        signal.wait(100, 40, true),
        SpinEntryStep::Return(SpinEntryWait::TimedOut)
    );
    signal.complete();
    assert_eq!(
        signal.wait(100, 200, true),
        SpinEntryStep::Return(SpinEntryWait::Completed)
    );
    signal.acknowledge();
    assert_eq!(
        signal.wait(100, 200, true),
        SpinEntryStep::Return(SpinEntryWait::Entered)
    );
    assert_eq!(CANCELLATION_PROOF_ACK_TIMEOUT, 30_000_000_000);
    assert_eq!(INIT_PROOF_GATE_TIMEOUT, 30_000_000_000);
    assert_eq!(deadline_after(5, 10), 15);
}

#[test]
fn the_entry_function_acknowledges_what_is_installed() {
    assert_eq!(nimbus_bun_embed_spin_entered_ack(None), (None, 1));
    let (signal, returned) = nimbus_bun_embed_spin_entered_ack(Some(SpinEntrySignal::new()));
    assert_eq!(returned, 1);
    assert_eq!(
        signal,
        Some(SpinEntrySignal { entered: true, completed: false })
    );
}

#[test]
fn the_last_arrival_opens_for_all() {
    let mut gate = InitProofGate::new(3);
    assert!(!gate.arrive());
    assert!(!gate.arrive());
    assert_eq!(gate.wait(50, 10, false), GateStep::Sleep { remaining: 40 });
    assert!(gate.arrive());
    assert_eq!(gate.wait(50, 60, true), GateStep::Return(true));
}

#[test]
fn all_timely_workers_pass() {
    let mut gate = InitProofGate::new(4);
    for arrived in 1..=4 {
        assert_eq!(gate.arrive(), arrived == 4);
        if arrived < 4 {
            assert_eq!(gate.wait(90, 10, false), GateStep::Sleep { remaining: 80 });
        }
    }
    for _ in 0..4 {
        assert_eq!(gate.wait(90, 95, true), GateStep::Return(true));
    }
}

#[test]
fn a_cancelled_barrier_counts_nobody() {
    let mut gate = InitProofGate::new(2);
    gate.arrivals = usize::MAX;
    gate.cancel();
    assert!(!gate.arrive());
    assert_eq!(gate.arrivals, usize::MAX);
}

#[test]
fn one_late_worker_refuses_all() {
    let mut gate = InitProofGate::new(2);
    gate.arrive();
    assert_eq!(gate.wait(50, 50, false), GateStep::Return(false));
    assert!(!gate.arrive());
    assert_eq!(gate.arrivals, 1);
    assert_eq!(gate.wait(90, 60, false), GateStep::Return(false));

    let mut cancelled = InitProofGate::new(1);
    cancelled.cancel();
    assert!(!cancelled.arrive());
    assert_eq!(cancelled.wait(90, 60, false), GateStep::Return(false));
}

fn spin(policy: SpinPolicy, trace: &[SpinSeen]) -> SpinAction {
    let mut run = SpinRun::new(policy);
    for seen in trace {
        run.observe(*seen);
    }
    run.action()
}

const INTERRUPTED: SpinSeen = SpinSeen::Outcome {
    acknowledged: true,
    fired: true,
    request: false,
};

#[test]
fn a_spinning_program_is_interrupted_after_its_entry() {
    for policy in [SpinPolicy::Deadline, SpinPolicy::ExternalCancel] {
        assert_eq!(spin(policy, &[]), SpinAction::Evaluate(Script::Spin(policy)));
        let joined = SpinSeen::Answer(true);
        let ways: [&[SpinSeen]; 6] = [
            &[SpinSeen::Thrown { termination: true }],
            &[SpinSeen::Thrown { termination: false }, SpinSeen::Answer(true)],
            &[
                SpinSeen::ExceptionPending,
                SpinSeen::Answer(false),
                SpinSeen::Answer(false),
            ],
            &[
                SpinSeen::Thrown { termination: false },
                SpinSeen::Answer(false),
                SpinSeen::Answer(true),
                SpinSeen::Number(Some(1)),
            ],
            &[
                SpinSeen::Promise,
                SpinSeen::Stopped { request: true, exception: false },
            ],
            &[
                SpinSeen::Promise,
                SpinSeen::Stopped { request: false, exception: true },
            ],
        ];
        for way in ways {
            assert_eq!(spin(policy, way), SpinAction::CompleteAndJoin);
            let mut trace = way.to_vec();
            trace.push(joined);
            assert_eq!(spin(policy, &trace), SpinAction::Inspect);
            trace.push(INTERRUPTED);
            assert_eq!(spin(policy, &trace), SpinAction::Finish(None));
        }
    }
}

#[test]
fn every_failure_to_interrupt_has_its_status() {
    let cases = [
        (SpinPolicy::Deadline, [43, 44, 45, 46, 47, 48, 64]),
        (SpinPolicy::ExternalCancel, [52, 53, 54, 55, 56, 57, 58]),
    ];
    for (policy, statuses) in cases {
        let thrown = [
            SpinSeen::ExceptionPending,
            SpinSeen::Answer(false),
            SpinSeen::Answer(true),
            SpinSeen::Number(Some(0)),
            SpinSeen::Answer(true),
            INTERRUPTED,
        ];
        assert_eq!(
            spin(policy, &thrown[..3]),
            SpinAction::CheckEntered(Script::SpinEntered)
        );
        assert_eq!(spin(policy, &thrown), SpinAction::Finish(Some(statuses[0])));
        assert_eq!(
            spin(
                policy,
                &[SpinSeen::Other, SpinSeen::Answer(true), INTERRUPTED]
            ),
            SpinAction::Finish(Some(statuses[1]))
        );
        assert_eq!(
            spin(
                policy,
                &[
                    SpinSeen::Promise,
                    SpinSeen::Stopped { request: false, exception: false },
                    SpinSeen::Answer(true),
                    INTERRUPTED,
                ]
            ),
            SpinAction::Finish(Some(statuses[2]))
        );
        let ended = SpinSeen::Thrown { termination: true };
        assert_eq!(
            spin(policy, &[ended, SpinSeen::Answer(false)]),
            SpinAction::Finish(Some(statuses[3]))
        );
        let outcome = |acknowledged: bool, fired: bool, request: bool| {
            spin(
                policy,
                &[
                    ended,
                    SpinSeen::Answer(true),
                    SpinSeen::Outcome { acknowledged, fired, request },
                ],
            )
        };
        assert_eq!(
            outcome(false, true, false),
            SpinAction::Finish(Some(statuses[4]))
        );
        assert_eq!(
            outcome(true, false, true),
            SpinAction::Finish(Some(statuses[5]))
        );
        assert_eq!(
            outcome(true, true, true),
            SpinAction::Finish(Some(statuses[6]))
        );
    }
}

#[test]
fn the_second_thread_fires_unless_the_evaluation_is_over() {
    assert_eq!(
        spin_interrupt(SpinEntryWait::Entered),
        SpinInterrupt { acknowledged: true, fire: true }
    );
    assert_eq!(
        spin_interrupt(SpinEntryWait::Completed),
        SpinInterrupt { acknowledged: false, fire: false }
    );
    assert_eq!(
        spin_interrupt(SpinEntryWait::TimedOut),
        SpinInterrupt { acknowledged: false, fire: true }
    );
}

#[test]
fn a_machine_is_destroyed_after_its_scripts_are_closed() {
    let mut session = VmSession::new(false);
    session.observe(SessionSeen::Done);
    assert_eq!(session, VmSession::InitProcess);
    session.observe(SessionSeen::Done);
    assert_eq!(session, VmSession::InitMachine);
    session.observe(SessionSeen::Made(true));
    assert_eq!(session, VmSession::Run);
    session.observe(SessionSeen::Status(77));
    assert_eq!(session, VmSession::CloseScripts { status: 77 });
    session.observe(SessionSeen::Done);
    assert_eq!(session, VmSession::Destroy { status: 77 });
    session.observe(SessionSeen::Done);
    assert_eq!(session, VmSession::Finished { status: 77 });
}

#[test]
fn without_a_machine_the_status_is_a_failure() {
    let mut refused = VmSession::new(true);
    refused.observe(SessionSeen::Done);
    assert_eq!(refused, VmSession::WaitAtGate);
    refused.observe(SessionSeen::Passed(false));
    assert_eq!(refused, VmSession::Finished { status: 318 });

    let mut unmade = VmSession::new(true);
    unmade.observe(SessionSeen::Done);
    unmade.observe(SessionSeen::Passed(true));
    unmade.observe(SessionSeen::Done);
    unmade.observe(SessionSeen::Made(false));
    assert_eq!(unmade, VmSession::Finished { status: 1 });
}

#[test]
fn the_stress_probe_ends_with_the_first_failure() {
    let mut stress = nimbus_bun_embed_probe_lifecycle_reuse_stress();
    for left in [3, 2, 1, 0] {
        assert_eq!(stress, LifecycleStress::Fresh { left });
        let mut failing = stress;
        failing.observe(29);
        assert_eq!(failing, LifecycleStress::Finished { status: 29 });
        stress.observe(0);
    }
    assert_eq!(stress, LifecycleStress::Reuse);
    let mut failing = stress;
    failing.observe(236);
    assert_eq!(failing, LifecycleStress::Finished { status: 236 });
    stress.observe(0);
    assert_eq!(stress, LifecycleStress::Finished { status: 0 });
}

fn first_vms(spawnable: usize, ended: &[Option<i32>]) -> (i32, Vec<FirstVmAction>) {
    let mut run = nimbus_bun_embed_probe_construct_and_destroy_vm();
    let mut actions = vec![];
    loop {
        let action = run.action();
        actions.push(action);
        match action {
            FirstVmAction::Spawn { worker } => {
                run.observe(FirstVmSeen::Spawned(worker < spawnable))
            }
            FirstVmAction::CancelGate => run.observe(FirstVmSeen::Done),
            FirstVmAction::Join { worker } => run.observe(FirstVmSeen::Joined(ended[worker])),
            FirstVmAction::Finish { status } => return (status, actions),
        }
    }
}

#[test]
fn all_first_machines_must_succeed() {
    let (status, actions) = first_vms(4, &[Some(0), Some(0), Some(0), Some(0)]);
    assert_eq!(status, 0);
    assert_eq!(actions.len(), 9);
    assert_eq!(actions[3], FirstVmAction::Spawn { worker: 3 });
    assert_eq!(actions[4], FirstVmAction::Join { worker: 0 });
    assert_eq!(first_vms(4, &[Some(0), Some(318), Some(1), None]).0, 318);
    assert_eq!(first_vms(4, &[Some(0), None, Some(1), Some(0)]).0, 319);
    assert_eq!(first_vms(4, &[Some(0), Some(0), Some(0), Some(1)]).0, 1);
}

#[test]
fn a_worker_that_cannot_be_started_cancels_for_the_others() {
    let (status, actions) = first_vms(2, &[Some(318), None]);
    assert_eq!(status, 317);
    assert_eq!(
        actions,
        vec![
            FirstVmAction::Spawn { worker: 0 },
            FirstVmAction::Spawn { worker: 1 },
            FirstVmAction::Spawn { worker: 2 },
            FirstVmAction::CancelGate,
            FirstVmAction::Join { worker: 0 },
            FirstVmAction::Join { worker: 1 },
            FirstVmAction::Finish { status: 317 },
        ]
    );
    assert_eq!(first_vms(0, &[]).0, 317);
}

#[test]
fn workers_have_names_and_statuses() {
    assert_eq!(worker_name(0), "nimbus-bun-init-proof-0");
    assert_eq!(worker_name(13), "nimbus-bun-init-proof-13");
    assert_eq!(worker_status(Some(5)), (5, false));
    assert_eq!(worker_status(None), (319, true));
}

#[test]
fn counters_tell_the_calls_in_any_order() {
    let mut counters = HostCallCounters::new();
    let mut promised = vec![];
    for round in 0..5 {
        nimbus_bun_embed_sync_host_call(&mut counters, Some(round));
        promised.push(nimbus_bun_embed_async_host_call(&mut counters, Some(round)));
        nimbus_bun_embed_sync_host_call(&mut counters, None);
    }
    for value in &promised[..3] {
        run_async_host_call_task(&mut counters, *value);
    }
    assert_eq!(counters.sync_calls, 10);
    assert_eq!(counters.async_calls, 5);
    assert_eq!(counters.task_runs, 3);
    assert_eq!(counters.task_returned, 3);
}
