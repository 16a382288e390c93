use embed_probe::host_calls::{
    nimbus_bun_embed_async_host_call, nimbus_bun_embed_sync_host_call, run_async_host_call_task,
    HostCallCounters,
};
use embed_probe::probe::{
    evaluated, settled, value, Action, Effect, Observation, ProbeRun, PromiseSlot, Resource,
};
use embed_probe::probes::{
    lifecycle_reuse_run, nimbus_bun_embed_probe_async_host_call,
    nimbus_bun_embed_probe_memory_behavior, nimbus_bun_embed_probe_package_module_policy,
    nimbus_bun_embed_probe_permission_surface_inventory,
    nimbus_bun_embed_probe_program_bundle_host_calls, nimbus_bun_embed_probe_sync_host_call,
    nimbus_bun_embed_probe_timeout_and_cancel, program_invocation_run,
};
use embed_probe::report::{module_policy_status_name, ReportLine};
use embed_probe::script::{
    lifecycle_invoke_source, lifecycle_state_source, LifecycleBody, ProgramSource, Script,
    SpinPolicy,
};
use embed_probe::surfaces::{
    is_accepted_permission_classification, is_known_permission_classification, permission_surface,
    permission_classification_name, PERMISSION_SURFACE_COUNT,
};
use embed_probe::text::panic_message;

/// A machine that behaves, as far as the probes can see.
struct Machine {
    counters: HostCallCounters,
    promised: Option<i32>,
    /// How many host calls of each kind the awaited program still makes.
    rounds: i32,
    resolved: i32,
    heap: u64,
    locks: i32,
    deepest: i32,
    denials: i32,
    requests: i32,
    evaluated: Vec<Script>,
    lines: Vec<String>,
}

impl Machine {
    fn new() -> Machine {
        Machine {
            counters: HostCallCounters::new(),
            promised: None,
            rounds: 0,
            resolved: 0,
            heap: 1000,
            locks: 0,
            deepest: 0,
            denials: 0,
            requests: 0,
            evaluated: vec![],
            lines: vec![],
        }
    }

    fn call_async(&mut self) {
        self.promised = Some(nimbus_bun_embed_async_host_call(&mut self.counters, Some(41)));
    }

    fn settle_async(&mut self) {
        if let Some(promised) = self.promised.take() {
            self.resolved = run_async_host_call_task(&mut self.counters, promised);
        }
    }

    fn evaluate(&mut self, script: Script) -> Observation {
        self.evaluated.push(script);
        match script {
            Script::SyncHostCall => Observation::Number(nimbus_bun_embed_sync_host_call(
                &mut self.counters,
                Some(41),
            )),
            Script::AsyncHostCall => {
                self.call_async();
                Observation::Other
            }
            Script::AsyncObserved => Observation::Number(self.resolved),
            Script::Bundle(_) | Script::ProgramWrapper => Observation::Other,
            Script::BundleInvoke | Script::LifecycleInvoke { .. } => {
                self.call_async();
                self.rounds = 1;
                Observation::Promise
            }
            Script::MemoryInvocations => {
                self.call_async();
                self.rounds = 16;
                Observation::Promise
            }
            Script::BundleState | Script::Recovery | Script::LifecycleState { .. } => {
                Observation::Number(42)
            }
            Script::StaticEsm => Observation::Threw,
            Script::ImportNodeFs
            | Script::ImportPackage
            | Script::ImportPlugin
            | Script::ImportNodeVm
            | Script::BunResolve => Observation::Promise,
            Script::WrapperNodeBuiltin
            | Script::WrapperExternalPackage
            | Script::BunResolveSync
            | Script::NativeAddonResolveSync => Observation::Number(8),
            _ => Observation::Number(1),
        }
    }

    fn answer(&mut self, run: &ProbeRun, action: Action) -> Observation {
        match action {
            Action::Perform(effect) => {
                match effect {
                    Effect::ResetSyncCounters => self.counters.reset_sync(),
                    Effect::ResetAsyncCounters => self.counters.reset_async(),
                    Effect::Lock | Effect::ProbeLock => self.locks += 1,
                    Effect::Unlock => self.locks -= 1,
                    Effect::DenyResolution => self.denials += 1,
                    Effect::ProtectRequest => self.requests += 1,
                    Effect::LetRequestGo => self.requests -= 1,
                    _ => {}
                }
                self.deepest = self.deepest.max(self.locks);
                Observation::Done
            }
            Action::Evaluate(script) => self.evaluate(script),
            Action::ReadCounter(counter) => Observation::Number(self.counters.read(counter)),
            Action::TakeHostPromise => Observation::Promise,
            Action::Await(PromiseSlot::Host) => {
                self.settle_async();
                Observation::Done
            }
            Action::Await(PromiseSlot::Invocation) => {
                let rounds = self.rounds;
                while self.rounds > 0 {
                    self.settle_async();
                    nimbus_bun_embed_sync_host_call(&mut self.counters, Some(41));
                    self.rounds -= 1;
                    if self.rounds > 0 {
                        self.call_async();
                    }
                }
                if rounds == 16 {
                    self.resolved = 16;
                }
                Observation::Done
            }
            Action::CheckFulfilled(_) => Observation::Done,
            Action::ReadResult(_) => Observation::Number(self.resolved),
            Action::Settle => Observation::Number(8),
            Action::ApplyDenyProfile => Observation::Done,
            Action::CollectGarbage | Action::MeasureHeap => {
                self.heap += 100;
                Observation::Bytes(self.heap)
            }
            Action::Print(line) => {
                match run.line(line) {
                    Some(text) => self.lines.push(text),
                    None => panic!("a line shows an unknown value"),
                }
                Observation::Done
            }
            Action::Spin(_) => Observation::Done,
            Action::ParseRequest => Observation::Request {
                empty: false,
                object: true,
                exception: false,
            },
            Action::LookupInvoke => Observation::Callable,
            Action::CallInvoke => {
                assert_eq!(self.requests, 1);
                assert_eq!(self.locks, 1);
                assert_eq!(self.denials, 1);
                Observation::Other
            }
            Action::Stringify => Observation::Done,
            Action::Nothing => Observation::Done,
            Action::Release(resource) => {
                match resource {
                    Resource::Lock => self.locks -= 1,
                    Resource::Denial => self.denials -= 1,
                    Resource::Request => self.requests -= 1,
                }
                Observation::Done
            }
            Action::Finish(_) => Observation::Done,
        }
    }

    /// Runs a probe; at step `at` the machine misbehaves as `change` says.
    fn run(&mut self, mut run: ProbeRun, at: usize, change: Observation) -> i32 {
        let mut step = 0;
        loop {
            let action = run.action();
            if let Action::Finish(status) = action {
                assert_eq!(run.status(), Some(status));
                assert_eq!(self.locks, 0);
                assert_eq!(self.denials, 0);
                assert_eq!(self.requests, 0);
                return status;
            }
            assert_eq!(run.status().is_some(), matches!(action, Action::Release(_)));
            let seen = self.answer(&run, action);
            run.observe(if step == at { change } else { seen });
            step += 1;
        }
    }

    fn healthy(&mut self, run: ProbeRun) -> i32 {
        self.run(run, usize::MAX, Observation::Done)
    }
}

fn status_of(run: ProbeRun, at: usize, change: Observation) -> i32 {
    Machine::new().run(run, at, change)
}

#[test]
fn a_machine_that_behaves_passes_every_probe() {
    for run in [
        nimbus_bun_embed_probe_sync_host_call(),
        nimbus_bun_embed_probe_async_host_call(),
        nimbus_bun_embed_probe_program_bundle_host_calls(),
        nimbus_bun_embed_probe_timeout_and_cancel(),
        nimbus_bun_embed_probe_permission_surface_inventory(),
        nimbus_bun_embed_probe_memory_behavior(),
        nimbus_bun_embed_probe_package_module_policy(),
        lifecycle_reuse_run(),
        program_invocation_run(false),
        program_invocation_run(true),
    ] {
        let mut machine = Machine::new();
        assert_eq!(machine.healthy(run), 0);
        assert_eq!(machine.locks, 0);
        assert_eq!(machine.deepest, 1);
    }
}

#[test]
fn the_sync_probe_names_its_failures() {
    let run = nimbus_bun_embed_probe_sync_host_call;
    assert_eq!(status_of(run(), 3, Observation::Threw), 2);
    assert_eq!(status_of(run(), 3, Observation::Number(41)), 6);
    assert_eq!(status_of(run(), 3, Observation::Other), 6);
    assert_eq!(status_of(run(), 4, Observation::Number(2)), 3);
    assert_eq!(status_of(run(), 5, Observation::Number(42)), 4);
    assert_eq!(status_of(run(), 6, Observation::Number(41)), 5);
}

#[test]
fn the_async_probe_names_its_failures() {
    let run = nimbus_bun_embed_probe_async_host_call;
    let cases = [
        (4, Observation::Threw, 10),
        (6, Observation::Number(0), 11),
        (7, Observation::Number(0), 12),
        (8, Observation::Number(1), 13),
        (9, Observation::Other, 14),
        (11, Observation::WaitFailed, 17),
        (12, Observation::Number(0), 15),
        (13, Observation::Number(41), 16),
        (14, Observation::Unfulfilled, 17),
        (15, Observation::Number(41), 18),
        (16, Observation::Threw, 19),
        (16, Observation::Number(0), 20),
    ];
    for (at, seen, status) in cases {
        assert_eq!(status_of(run(), at, seen), status);
    }
}

#[test]
fn the_bundle_probe_names_its_failures() {
    let run = nimbus_bun_embed_probe_program_bundle_host_calls;
    let cases = [
        (6, Observation::Threw, 21),
        (6, Observation::Number(0), 22),
        (7, Observation::Threw, 23),
        (8, Observation::Threw, 24),
        (8, Observation::Number(42), 25),
        (10, Observation::Number(0), 26),
        (16, Observation::WaitFailed, 38),
    ];
    for (at, seen, status) in cases {
        assert_eq!(status_of(run(), at, seen), status);
    }
}

#[test]
fn the_inventory_numbers_its_failures_by_surface() {
    let run = nimbus_bun_embed_probe_permission_surface_inventory;
    assert_eq!(status_of(run(), 6, Observation::Failed), 105);
    for surface in [0, 1, 53, 54, 96] {
        let at = 9 + 2 * surface;
        let status = 110 + 2 * surface as i32;
        assert_eq!(status_of(run(), at, Observation::Threw), status);
        for class in [0, 4, 5, 6, -1] {
            assert_eq!(
                status_of(run(), at, Observation::Number(class)),
                status + 1
            );
        }
        assert_eq!(status_of(run(), at, Observation::Other), status + 1);
        for class in [1, 2, 3] {
            assert_eq!(status_of(run(), at, Observation::Number(class)), 0);
        }
    }
}

#[test]
fn the_inventory_reports_every_surface() {
    let mut machine = Machine::new();
    let run = nimbus_bun_embed_probe_permission_surface_inventory();
    assert_eq!(machine.run(run, 11, Observation::Number(3)), 0);
    assert_eq!(machine.lines.len(), 98);
    assert_eq!(
        machine.lines[0],
        "nimbus bun embed permission surface inventory:"
    );
    assert_eq!(machine.lines[1], "  Bun global: absent_by_default");
    assert_eq!(machine.lines[2], "  Bun.$: policy_hook_available");
    assert_eq!(
        machine.lines[97],
        "  Nimbus host hooks and generated wrapper: absent_by_default"
    );
}

#[test]
fn the_memory_probe_reports_its_samples() {
    let mut machine = Machine::new();
    assert_eq!(machine.healthy(nimbus_bun_embed_probe_memory_behavior()), 0);
    assert_eq!(
        machine.lines,
        vec![
            "nimbus bun embed memory behavior:",
            "  invocation_count: 16",
            "  heap_after_setup_gc_bytes: 1100",
            "  heap_before_load_bytes: 1200",
            "  heap_after_load_bytes: 1300",
            "  heap_retained_after_gc_bytes: 1400",
            "  heap_after_release_gc_bytes: 1500",
            "  heap_after_shrink_bytes: 1600",
            "  observed_load_growth_bytes: 100",
            "  observed_gc_retained_growth_bytes: 300",
            "  observed_release_drop_bytes: 0",
            "  hard_heap_limit: not_observed",
            "  growth_assertion: full_gc_live_size",
            "  pressure_signal: vm.heap_size_and_sync_gc",
            "  safe_first_policy: fresh_vm_or_discard_on_pressure",
        ]
    );
}

#[test]
fn the_memory_probe_must_see_growth() {
    let run = nimbus_bun_embed_probe_memory_behavior;
    assert_eq!(status_of(run(), 9, Observation::Bytes(5000)), 192);
    assert_eq!(status_of(run(), 9, Observation::Bytes(1400)), 192);
    assert_eq!(status_of(run(), 9, Observation::Bytes(1399)), 0);
}

#[test]
fn every_way_to_a_module_must_be_denied() {
    let run = nimbus_bun_embed_probe_package_module_policy;
    let cases = [
        (5, Observation::Number(1), 206),
        (9, Observation::Number(7), 241),
        (10, Observation::Number(7), 241),
        (10, Observation::Unfulfilled, 208),
        (13, Observation::Number(6), 242),
        (17, Observation::Number(6), 243),
        (21, Observation::Number(6), 247),
        (25, Observation::Number(5), 240),
        (25, Observation::Other, 213),
        (28, Observation::Number(5), 244),
        (32, Observation::Number(5), 244),
        (35, Observation::Number(5), 245),
        (38, Observation::Number(2), 246),
        (42, Observation::Number(2), 246),
        (42, Observation::Threw, 221),
    ];
    for (at, seen, status) in cases {
        assert_eq!(status_of(run(), at, seen), status);
    }
}

#[test]
fn the_module_probe_reports_what_it_read() {
    let mut machine = Machine::new();
    let run = nimbus_bun_embed_probe_package_module_policy();
    assert_eq!(machine.run(run, 10, Observation::Number(6)), 241);
    assert_eq!(
        machine.lines[4],
        "  dynamic_import_node_fs: rejected_by_bun_loader"
    );
    assert_eq!(machine.lines[8], "  require: absent_by_default");
    assert_eq!(machine.lines[12], "  Bun.resolve: denied_by_resolver_policy");
    assert_eq!(machine.lines.len(), 20);
}

#[test]
fn a_cancelled_program_is_not_evaluated() {
    let mut machine = Machine::new();
    assert_eq!(machine.healthy(nimbus_bun_embed_probe_timeout_and_cancel()), 0);
    assert!(!machine.evaluated.contains(&Script::PreEntry));
    assert_eq!(
        machine
            .evaluated
            .iter()
            .filter(|script| **script == Script::Recovery)
            .count(),
        3
    );
    assert_eq!(
        machine.lines.last().map(|line| line.as_str()),
        Some("  cancellation_timing_policy: state_ack_not_sleep")
    );
}

#[test]
fn a_failed_interruption_ends_the_probe_with_its_status() {
    let run = nimbus_bun_embed_probe_timeout_and_cancel;
    assert_eq!(status_of(run(), 8, Observation::Number(0)), 71);
    assert_eq!(status_of(run(), 11, Observation::Threw), 67);
    assert_eq!(status_of(run(), 11, Observation::Number(41)), 68);
    assert_eq!(status_of(run(), 13, Observation::Status(45)), 45);
    assert_eq!(status_of(run(), 15, Observation::Threw), 50);
    assert_eq!(status_of(run(), 17, Observation::Status(56)), 56);
    assert_eq!(status_of(run(), 19, Observation::Number(0)), 61);
}

#[test]
fn one_machine_serves_all_lifecycle_invocations() {
    let mut machine = Machine::new();
    assert_eq!(machine.healthy(lifecycle_reuse_run()), 0);
    let invoked: Vec<Script> = machine
        .evaluated
        .iter()
        .copied()
        .filter(|script| matches!(script, Script::LifecycleInvoke { .. }))
        .collect();
    assert_eq!(invoked.len(), 9);
    assert_eq!(
        invoked[0],
        Script::LifecycleInvoke {
            body: LifecycleBody::Reuse(0),
            message_id: 1,
        }
    );
    assert_eq!(
        invoked[8],
        Script::LifecycleInvoke {
            body: LifecycleBody::PostCancel,
            message_id: 9,
        }
    );
    assert_eq!(machine.counters.sync_calls, 9);
    assert_eq!(machine.lines.len(), 12);
    assert_eq!(
        machine.lines[1],
        "  fresh_vm_create_invoke_destroy_iterations: 4"
    );
}

#[test]
fn an_invocation_names_its_failures() {
    let request = |empty: bool, object: bool, exception: bool| Observation::Request {
        empty,
        object,
        exception,
    };
    let plain = || program_invocation_run(false);
    let bridged = || program_invocation_run(true);
    assert_eq!(status_of(plain(), 3, request(true, false, false)), 301);
    assert_eq!(status_of(plain(), 3, request(false, false, false)), 301);
    assert_eq!(status_of(plain(), 3, request(false, true, true)), 301);
    assert_eq!(status_of(plain(), 3, Observation::Failed), 301);
    assert_eq!(status_of(plain(), 5, Observation::Failed), 315);
    assert_eq!(status_of(plain(), 6, Observation::Threw), 302);
    assert_eq!(status_of(plain(), 7, Observation::Other), 303);
    assert_eq!(status_of(plain(), 8, Observation::Threw), 303);
    assert_eq!(status_of(plain(), 10, Observation::Threw), 305);
    assert_eq!(status_of(plain(), 10, Observation::Dead), 306);
    assert_eq!(status_of(bridged(), 7, Observation::Threw), 309);
    assert_eq!(status_of(bridged(), 7, Observation::Number(0)), 310);
    assert_eq!(status_of(bridged(), 8, Observation::Threw), 302);
}

#[test]
fn a_promised_result_is_waited_for() {
    let mut run = program_invocation_run(false);
    let mut machine = Machine::new();
    for _ in 0..8 {
        let seen = machine.answer(&run, run.action());
        run.observe(seen);
    }
    assert_eq!(run.action(), Action::CallInvoke);
    run.observe(Observation::Promise);
    assert_eq!(run.action(), Action::Settle);
    run.observe(Observation::Unfulfilled);
    assert_eq!(run.status(), Some(304));
    assert_eq!(run.action(), Action::Release(Resource::Request));
    run.observe(Observation::Done);
    assert_eq!(run.action(), Action::Release(Resource::Lock));
    run.observe(Observation::Done);
    assert_eq!(run.action(), Action::Release(Resource::Denial));
    run.observe(Observation::Done);
    assert_eq!(run.action(), Action::Finish(304));
}

#[test]
fn the_end_of_a_probe_is_final() {
    let mut run = nimbus_bun_embed_probe_sync_host_call();
    for _ in 0..3 {
        run.observe(Observation::Done);
    }
    run.observe(Observation::Threw);
    assert_eq!(run.status(), Some(2));
    assert_eq!(run.action(), Action::Release(Resource::Lock));
    run.observe(Observation::Done);
    assert_eq!(run.action(), Action::Finish(2));
    run.observe(Observation::Done);
    assert_eq!(run.action(), Action::Finish(2));
}

#[test]
fn exceptions_count_before_values() {
    assert_eq!(evaluated(true, false, true, Some(1)), Observation::Threw);
    assert_eq!(evaluated(false, true, true, Some(1)), Observation::Threw);
    assert_eq!(evaluated(false, false, true, Some(1)), Observation::Promise);
    assert_eq!(
        evaluated(false, false, false, Some(1)),
        Observation::Number(1)
    );
    assert_eq!(evaluated(false, false, false, None), Observation::Other);
}

#[test]
fn a_promise_shows_its_wait_before_its_result() {
    assert_eq!(settled(false, true, Some(8)), Observation::WaitFailed);
    assert_eq!(settled(false, false, None), Observation::WaitFailed);
    assert_eq!(settled(true, false, Some(8)), Observation::Unfulfilled);
    assert_eq!(settled(true, true, Some(8)), Observation::Number(8));
    assert_eq!(settled(true, true, None), Observation::Other);
    assert_eq!(value(Some(-3)), Observation::Number(-3));
    assert_eq!(value(None), Observation::Other);
}

#[test]
fn surfaces_have_names_and_classifiers() {
    assert_eq!(PERMISSION_SURFACE_COUNT, 97);
    let global = permission_surface(0);
    assert_eq!(global.name, "Bun global");
    assert!(global.source.contains("typeof globalThis.Bun === \"undefined\""));
    let shell = permission_surface(1);
    assert_eq!(shell.name, "Bun.$");
    assert_eq!(
        shell.source,
        "globalThis.__nimbusPermissionProbeFunction(globalThis.Bun?.$)"
    );
    let console = permission_surface(62);
    assert_eq!(console.name, "console._stderr");
    assert_eq!(
        console.source,
        "globalThis.__nimbusPermissionProbeFunction(globalThis.console?._stderr)"
    );
    let fetch = permission_surface(84);
    assert_eq!(fetch.name, "fetch");
    assert_eq!(
        fetch.source,
        "globalThis.__nimbusPermissionProbeFunction(globalThis.fetch)"
    );
}

#[test]
fn classifications_are_known_accepted_and_named() {
    for class in -1..=7 {
        assert_eq!(
            is_known_permission_classification(class),
            (1..=5).contains(&class)
        );
        assert_eq!(
            is_accepted_permission_classification(class),
            (1..=3).contains(&class)
        );
    }
    assert_eq!(permission_classification_name(1), "absent_by_default");
    assert_eq!(permission_classification_name(2), "denied_by_default");
    assert_eq!(permission_classification_name(3), "policy_hook_available");
    assert_eq!(permission_classification_name(4), "policy_hook_missing");
    assert_eq!(permission_classification_name(5), "unsafe_bypass");
    assert_eq!(permission_classification_name(0), "unknown");
}

#[test]
fn module_policies_are_named() {
    let names = [
        (1, "absent_by_default"),
        (2, "denied_by_generated_wrapper"),
        (3, "unknown"),
        (4, "policy_hook_missing"),
        (5, "unsafe_bypass"),
        (6, "rejected_by_bun_loader"),
        (7, "unsafe_import_fulfilled"),
        (8, "denied_by_resolver_policy"),
        (9, "unknown"),
        (0, "unknown"),
    ];
    for (status, name) in names {
        assert_eq!(module_policy_status_name(status), name);
    }
}

#[test]
fn lines_show_only_known_values() {
    let readings = vec![-12];
    let heap = vec![7, 30, u64::MAX];
    let line = |line: ReportLine| line.render(&readings, &heap);
    assert_eq!(line(ReportLine::Text("as it is")), Some("as it is".to_owned()));
    assert_eq!(
        line(ReportLine::Count { label: "n", value: -305 }),
        Some("  n: -305".to_owned())
    );
    assert_eq!(
        line(ReportLine::Policy { label: "p", reading: 0 }),
        Some("  p: unknown".to_owned())
    );
    assert_eq!(line(ReportLine::Policy { label: "p", reading: 1 }), None);
    assert_eq!(line(ReportLine::Surface(1)), None);
    assert_eq!(
        line(ReportLine::HeapBytes { label: "h", sample: 2 }),
        Some("  h: 18446744073709551615".to_owned())
    );
    assert_eq!(line(ReportLine::HeapBytes { label: "h", sample: 3 }), None);
    assert_eq!(
        line(ReportLine::HeapDifference { label: "d", larger: 1, smaller: 0 }),
        Some("  d: 23".to_owned())
    );
    assert_eq!(
        line(ReportLine::HeapDifference { label: "d", larger: 0, smaller: 1 }),
        Some("  d: 0".to_owned())
    );
    assert_eq!(
        line(ReportLine::HeapDifference { label: "d", larger: 0, smaller: 3 }),
        None
    );
}

#[test]
fn lifecycle_programs_quote_their_message() {
    assert_eq!(
        lifecycle_invoke_source("say \"hi\"\n", 12),
        "\nglobalThis.__nimbusInvoke({\n  kind: \"mutation\",\n  function_name: \"messages:sendAndSchedule\",\n  args: { body: \"say \\\"hi\\\"\\n\" },\n}).then((response) => {\n  return response.status === \"ok\" && response.value === \"message-id-12\"\n    ? 42\n    : -1;\n})\n"
    );
    let script = Script::LifecycleInvoke {
        body: LifecycleBody::Reuse(3),
        message_id: 4,
    };
    assert_eq!(
        script.source(),
        ProgramSource::Text(lifecycle_invoke_source("reuse-3", 4))
    );
    let last = Script::LifecycleInvoke {
        body: LifecycleBody::PostCancel,
        message_id: 9,
    };
    assert_eq!(
        last.source(),
        ProgramSource::Text(lifecycle_invoke_source("post-cancel", 9))
    );
    assert_eq!(last.filename(), "nimbus-bun-embed-probe-lifecycle-invoke.js");
    assert!(lifecycle_invoke_source("reuse-3", 4).contains("args: { body: \"reuse-3\" },"));
    assert!(lifecycle_invoke_source("post-cancel", 9).contains("args: { body: \"post-cancel\" },"));
    let state = lifecycle_state_source(9);
    assert!(state.contains("state.insertCount === 9\n"));
    assert!(state.contains("state.scheduleCount === 9\n"));
    assert!(state.ends_with("      ? 42\n      : -1;\n})()\n"));
}

#[test]
fn programs_come_from_the_library_or_from_a_bundle() {
    assert_eq!(
        Script::Recovery.source(),
        ProgramSource::Text("40 + 2".to_owned())
    );
    assert_eq!(
        Script::Recovery.filename(),
        "nimbus-bun-embed-probe-timeout-recovery.js"
    );
    assert_eq!(
        Script::ProgramWrapper.source(),
        ProgramSource::InvocationBundle
    );
    assert_eq!(
        Script::Spin(SpinPolicy::Deadline).source(),
        Script::Spin(SpinPolicy::ExternalCancel).source()
    );
    assert_eq!(
        Script::PreEntry.source(),
        ProgramSource::Text("globalThis.__nimbusPreEntryCancelRan = true; 1".to_owned())
    );
    assert_eq!(
        Script::PermissionSurface(1).source(),
        ProgramSource::Text(permission_surface(1).source)
    );
}

#[test]
fn panic_messages_show_their_bytes() {
    assert_eq!(panic_message(None), "");
    assert_eq!(panic_message(Some(b"")), "");
    assert_eq!(panic_message(Some("grün".as_bytes())), "grün");
    assert_eq!(panic_message(Some(b"a\xffb")), "a\u{fffd}b");
}

#[test]
fn every_end_gives_back_what_is_held() {
    for at in 0..30 {
        for run in [
            nimbus_bun_embed_probe_async_host_call(),
            nimbus_bun_embed_probe_package_module_policy(),
            program_invocation_run(true),
            lifecycle_reuse_run(),
        ] {
            let mut run = run;
            let mut machine = Machine::new();
            let mut step = 0;
            loop {
                let action = run.action();
                let seen = machine.answer(&run, action);
                match action {
                    Action::Finish(_) => break,
                    Action::Evaluate(_) if step >= at => run.observe(Observation::Threw),
                    _ => run.observe(seen),
                }
                step += 1;
            }
            assert_eq!(machine.locks, 0);
            assert_eq!(machine.denials, 0);
            assert_eq!(machine.requests, 0);
        }
    }
}

/// All actions that a probe asks of a machine that behaves.
fn actions(mut run: ProbeRun) -> Vec<Action> {
    let mut machine = Machine::new();
    let mut actions = vec![];
    loop {
        let action = run.action();
        actions.push(action);
        if matches!(action, Action::Finish(_)) {
            return actions;
        }
        let seen = machine.answer(&run, action);
        run.observe(seen);
    }
}

fn place(actions: &[Action], wanted: Action) -> Option<usize> {
    actions.iter().position(|action| *action == wanted)
}

#[test]
fn termination_is_made_before_a_program_is_interrupted() {
    for run in [
        nimbus_bun_embed_probe_timeout_and_cancel(),
        lifecycle_reuse_run(),
    ] {
        let actions = actions(run);
        let made = place(&actions, Action::Perform(Effect::MaterializeTermination));
        let spun = actions
            .iter()
            .position(|action| matches!(action, Action::Spin(_)));
        assert!(made.is_some());
        assert!(spun.is_some());
        assert!(made < spun);
    }
}

#[test]
fn a_tenant_program_runs_behind_the_denials() {
    let plain = actions(program_invocation_run(false));
    let bridged = actions(program_invocation_run(true));
    for actions in [&plain, &bridged] {
        let program = place(actions, Action::Evaluate(Script::ProgramWrapper));
        let resolution = place(actions, Action::Perform(Effect::DenyResolution));
        let profile = place(actions, Action::ApplyDenyProfile);
        let request = place(actions, Action::ParseRequest);
        assert!(program.is_some());
        for before in [resolution, profile, request] {
            assert!(before.is_some());
            assert!(before < program);
        }
    }
    let transport = Action::Evaluate(Script::HostBridgeTransport);
    assert_eq!(place(&plain, transport), None);
    assert!(place(&bridged, transport) < place(&bridged, Action::Evaluate(Script::ProgramWrapper)));
}
