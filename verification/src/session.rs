//! The life of a machine: from the initialization of its thread, through the run of a probe or a
//! program, to its destruction; and the probes that are made of several such lives.
use vstd::prelude::*;

use crate::probes::LIFECYCLE_FRESH_VM_ITERATIONS;
use crate::text::append_decimal_u64;

verus! {

/// The machine could not be made.
pub const MACHINE_NOT_MADE: i32 = 1;

/// A worker could not be started.
pub const SPAWN_FAILED: i32 = 317;

/// The initialization barrier was cancelled.
pub const GATE_FAILED: i32 = 318;

/// A worker panicked.
pub const WORKER_PANICKED: i32 = 319;

/// How many machines are made at the same time to prove that the first one may be.
pub const CONCURRENT_FIRST_VMS: usize = 4;

/// Where the life of a machine stands.
#[derive(Clone, Copy, Debug, PartialEq, Eq, Structural)]
pub enum VmSession {
    /// The thread is to be initialized.
    InitThread { gated: bool },
    /// The others are to be waited for at the initialization barrier.
    WaitAtGate,
    /// The process is to be initialized, unless that was done.
    InitProcess,
    /// The machine is to be made.
    InitMachine,
    /// The machine is to be used.
    Run,
    /// The exceptions are to be taken off the machine and its scripts forbidden, under its lock.
    CloseScripts { status: i32 },
    /// The machine is to be destroyed.
    Destroy { status: i32 },
    Finished { status: i32 },
}

/// What the embedder saw.
#[derive(Clone, Copy, Debug, PartialEq, Eq, Structural)]
pub enum SessionSeen {
    Done,
    /// Whether the barrier let the thread pass.
    Passed(bool),
    /// Whether the machine was made.
    Made(bool),
    /// The status with which the use of the machine ended.
    Status(i32),
}

impl VmSession {
    /// The observation is one that this state waits for.
    pub open spec fn answered_by(self, seen: SessionSeen) -> bool {
        match self {
            VmSession::InitThread { .. } => seen is Done,
            VmSession::WaitAtGate => seen is Passed,
            VmSession::InitProcess => seen is Done,
            VmSession::InitMachine => seen is Made,
            VmSession::Run => seen is Status,
            VmSession::CloseScripts { .. } => seen is Done,
            VmSession::Destroy { .. } => seen is Done,
            VmSession::Finished { .. } => false,
        }
    }

    /// The state after an observation.
    pub open spec fn next(self, seen: SessionSeen) -> VmSession {
        match self {
            VmSession::InitThread { gated } => if gated {
                VmSession::WaitAtGate
            } else {
                VmSession::InitProcess
            },
            VmSession::WaitAtGate => if seen == SessionSeen::Passed(true) {
                VmSession::InitProcess
            } else {
                VmSession::Finished { status: GATE_FAILED }
            },
            VmSession::InitProcess => VmSession::InitMachine,
            VmSession::InitMachine => if seen == SessionSeen::Made(true) {
                VmSession::Run
            } else {
                VmSession::Finished { status: MACHINE_NOT_MADE }
            },
            VmSession::Run => VmSession::CloseScripts { status: seen->Status_0 },
            VmSession::CloseScripts { status } => VmSession::Destroy { status },
            VmSession::Destroy { status } => VmSession::Finished { status },
            VmSession::Finished { .. } => self,
        }
    }

    /// The life of a machine that begins, with or without an initialization barrier.
    pub fn new(gated: bool) -> (session: Self)
        ensures
            session == (VmSession::InitThread { gated }),
    {
        VmSession::InitThread { gated }
    }

    /// Takes the answer to what was due.
    pub fn observe(&mut self, seen: SessionSeen)
        requires
            old(self).answered_by(seen),
        ensures
            *final(self) == old(self).next(seen),
    {
        *self = match (*self, seen) {
            (VmSession::InitThread { gated }, _) => if gated {
                VmSession::WaitAtGate
            } else {
                VmSession::InitProcess
            },
            (VmSession::WaitAtGate, SessionSeen::Passed(passed)) => if passed {
                VmSession::InitProcess
            } else {
                VmSession::Finished { status: GATE_FAILED }
            },
            (VmSession::InitProcess, _) => VmSession::InitMachine,
            (VmSession::InitMachine, SessionSeen::Made(made)) => if made {
                VmSession::Run
            } else {
                VmSession::Finished { status: MACHINE_NOT_MADE }
            },
            (VmSession::Run, SessionSeen::Status(status)) => VmSession::CloseScripts { status },
            (VmSession::CloseScripts { status }, _) => VmSession::Destroy { status },
            (VmSession::Destroy { status }, _) => VmSession::Finished { status },
            (state, _) => state,
        };
    }
}

/// The state after several observations.
pub open spec fn session_after(gated: bool, trace: Seq<SessionSeen>) -> VmSession
    decreases trace.len(),
{
    if trace.len() == 0 {
        VmSession::InitThread { gated }
    } else {
        session_after(gated, trace.drop_last()).next(trace.last())
    }
}

/// Every observation is one that was waited for.
pub open spec fn session_fair(gated: bool, trace: Seq<SessionSeen>) -> bool {
    forall|i: int|
        0 <= i < trace.len() ==> session_after(gated, #[trigger] trace.take(i)).answered_by(
            trace[i],
        )
}

proof fn lemma_session_prefix(gated: bool, trace: Seq<SessionSeen>)
    requires
        session_fair(gated, trace),
        trace.len() > 0,
    ensures
        session_fair(gated, trace.drop_last()),
        session_after(gated, trace.drop_last()).answered_by(trace.last()),
{
    let before = trace.drop_last();
    assert(trace.take(trace.len() - 1) == before);
    assert forall|i: int| 0 <= i < before.len() implies session_after(
        gated,
        #[trigger] before.take(i),
    ).answered_by(before[i]) by {
        assert(before.take(i) == trace.take(i));
    }
}

/// How each state was reached.
proof fn lemma_session_stages(gated: bool, trace: Seq<SessionSeen>)
    requires
        session_fair(gated, trace),
    ensures
        ({
            let n = trace.len() as int;
            let unmade = forall|i: int| 0 <= i < n ==> trace[i] != SessionSeen::Made(true);
            match session_after(gated, trace) {
                VmSession::InitThread { .. } => n == 0,
                VmSession::WaitAtGate => gated && unmade,
                VmSession::InitProcess => unmade,
                VmSession::InitMachine => unmade,
                VmSession::Run => n >= 1 && trace[n - 1] == SessionSeen::Made(true),
                VmSession::CloseScripts { status } => {
                    &&& n >= 2
                    &&& trace[n - 2] == SessionSeen::Made(true)
                    &&& trace[n - 1] == SessionSeen::Status(status)
                    &&& session_after(gated, trace.take(n - 1)) is Run
                },
                VmSession::Destroy { status } => {
                    &&& n >= 3
                    &&& trace[n - 3] == SessionSeen::Made(true)
                    &&& trace[n - 2] == SessionSeen::Status(status)
                    &&& session_after(gated, trace.take(n - 2)) is Run
                    &&& session_after(gated, trace.take(n - 1)) == (VmSession::CloseScripts {
                        status,
                    })
                },
                VmSession::Finished { .. } => true,
            }
        }),
    decreases trace.len(),
{
    if trace.len() > 0 {
        let n = trace.len() as int;
        let before = trace.drop_last();
        lemma_session_prefix(gated, trace);
        lemma_session_stages(gated, before);
        assert(trace.take(n - 1) == before);
        if n >= 2 {
            assert(before.take(n - 2) == trace.take(n - 2));
        }
        assert(forall|i: int| 0 <= i < n - 1 ==> trace[i] == before[i]);
    }
}

/// A machine that was made is destroyed before its life ends: its scripts are closed, and only
/// after that it is destroyed, and the status is the one with which its use ended. Without a
/// machine the status is not zero.
pub proof fn law_every_machine_is_destroyed(gated: bool, trace: Seq<SessionSeen>)
    requires
        session_fair(gated, trace),
        session_after(gated, trace) is Finished,
    ensures
        ({
            let n = trace.len() as int;
            let status = session_after(gated, trace)->Finished_status;
            if trace.contains(SessionSeen::Made(true)) {
                &&& n >= 4
                &&& trace[n - 3] == SessionSeen::Status(status)
                &&& session_after(gated, trace.take(n - 3)) is Run
                &&& session_after(gated, trace.take(n - 2)) == (VmSession::CloseScripts { status })
                &&& session_after(gated, trace.take(n - 1)) == (VmSession::Destroy { status })
            } else {
                status == MACHINE_NOT_MADE || (gated && status == GATE_FAILED)
            }
        }),
{
    let n = trace.len() as int;
    let before = trace.drop_last();
    lemma_session_prefix(gated, trace);
    lemma_session_stages(gated, before);
    assert(trace.take(n - 1) == before);
    assert(forall|i: int| 0 <= i < n - 1 ==> trace[i] == before[i]);
    if session_after(gated, before) is Destroy {
        assert(trace.take(n - 3) == before.take(n - 3));
        assert(trace.take(n - 2) == before.take(n - 2));
        assert(trace[n - 4] == SessionSeen::Made(true));
    } else {
        assert forall|i: int| 0 <= i < n implies trace[i] != SessionSeen::Made(true) by {}
    }
}

/// A thread that the barrier does not let pass initializes nothing and makes no machine.
pub proof fn law_failed_gate_makes_nothing(trace: Seq<SessionSeen>)
    requires
        session_fair(true, trace),
        trace.len() >= 2,
        trace[1] == SessionSeen::Passed(false),
    ensures
        trace.len() == 2,
        session_after(true, trace) == (VmSession::Finished { status: GATE_FAILED }),
{
    reveal_with_fuel(session_after, 4);
    let first = trace.take(1);
    let second = trace.take(2);
    assert(first.drop_last() == trace.take(0));
    assert(second.drop_last() == first);
    if trace.len() > 2 {
        assert(session_after(true, trace.take(2)).answered_by(trace[2]));
    } else {
        assert(second == trace);
    }
}

/// The lives of machines that the stress probe asks for.
#[derive(Clone, Copy, Debug, PartialEq, Eq, Structural)]
pub enum LifecycleStress {
    /// A fresh machine runs the program bundle, and `left` more do after it.
    Fresh { left: usize },
    /// One machine is used again and again.
    Reuse,
    Finished { status: i32 },
}

/// The probe of fresh and of reused machines.
pub fn nimbus_bun_embed_probe_lifecycle_reuse_stress() -> (stress: LifecycleStress)
    ensures
        stress == stress_after(Seq::empty()),
{
    LifecycleStress::Fresh { left: LIFECYCLE_FRESH_VM_ITERATIONS - 1 }
}

impl LifecycleStress {
    /// The state once the machine has ended with a status.
    pub open spec fn next(self, status: i32) -> LifecycleStress {
        match self {
            LifecycleStress::Fresh { left } => if status != 0 {
                LifecycleStress::Finished { status }
            } else if left == 0 {
                LifecycleStress::Reuse
            } else {
                LifecycleStress::Fresh { left: (left - 1) as usize }
            },
            LifecycleStress::Reuse => LifecycleStress::Finished { status },
            LifecycleStress::Finished { .. } => self,
        }
    }

    /// Takes the status with which a machine ended.
    pub fn observe(&mut self, status: i32)
        ensures
            *final(self) == old(self).next(status),
    {
        *self = match *self {
            LifecycleStress::Fresh { left } => if status != 0 {
                LifecycleStress::Finished { status }
            } else if left == 0 {
                LifecycleStress::Reuse
            } else {
                LifecycleStress::Fresh { left: left - 1 }
            },
            LifecycleStress::Reuse => LifecycleStress::Finished { status },
            LifecycleStress::Finished { status } => LifecycleStress::Finished { status },
        };
    }
}

/// The state after machines have ended with these statuses.
pub open spec fn stress_after(statuses: Seq<i32>) -> LifecycleStress
    decreases statuses.len(),
{
    if statuses.len() == 0 {
        LifecycleStress::Fresh { left: (LIFECYCLE_FRESH_VM_ITERATIONS - 1) as usize }
    } else {
        stress_after(statuses.drop_last()).next(statuses.last())
    }
}

proof fn lemma_zeros(statuses: Seq<i32>)
    requires
        statuses.len() <= LIFECYCLE_FRESH_VM_ITERATIONS,
        forall|i: int| 0 <= i < statuses.len() ==> statuses[i] == 0,
    ensures
        statuses.len() < LIFECYCLE_FRESH_VM_ITERATIONS ==> stress_after(statuses) == (
        LifecycleStress::Fresh {
            left: (LIFECYCLE_FRESH_VM_ITERATIONS - 1 - statuses.len()) as usize,
        }),
        statuses.len() == LIFECYCLE_FRESH_VM_ITERATIONS ==> stress_after(statuses)
            == LifecycleStress::Reuse,
    decreases statuses.len(),
{
    if statuses.len() > 0 {
        let before = statuses.drop_last();
        assert(forall|i: int| 0 <= i < before.len() ==> before[i] == statuses[i]);
        lemma_zeros(before);
    }
}

/// The stress probe ends with the first status that is not zero, and with zero only after every
/// fresh machine and the reused one ended with zero.
pub proof fn law_stress_status_is_the_first_failure(statuses: Seq<i32>)
    requires
        0 < statuses.len() <= LIFECYCLE_FRESH_VM_ITERATIONS + 1,
        forall|i: int| 0 <= i < statuses.len() - 1 ==> statuses[i] == 0,
    ensures
        statuses.last() != 0 || statuses.len() == LIFECYCLE_FRESH_VM_ITERATIONS + 1
            ==> stress_after(statuses) == (LifecycleStress::Finished { status: statuses.last() }),
        statuses.last() == 0 && statuses.len() <= LIFECYCLE_FRESH_VM_ITERATIONS ==> !(stress_after(
            statuses,
        ) is Finished),
{
    let before = statuses.drop_last();
    assert(forall|i: int| 0 <= i < before.len() ==> before[i] == statuses[i]);
    lemma_zeros(before);
    if statuses.last() == 0 && statuses.len() <= LIFECYCLE_FRESH_VM_ITERATIONS {
        lemma_zeros(statuses);
    }
}

/// Where the proof of concurrent first machines stands.
#[derive(Clone, Copy, Debug, PartialEq, Eq, Structural)]
pub struct FirstVmProof {
    /// How many workers were started.
    pub spawned: usize,
    /// A worker could not be started.
    pub spawn_failed: bool,
    /// The barrier was cancelled on that account.
    pub gate_cancelled: bool,
    /// How many workers were joined.
    pub joined: usize,
    /// The first status that is not zero.
    pub status: i32,
}

/// What the proof does next.
#[derive(Clone, Copy, Debug, PartialEq, Eq, Structural)]
pub enum FirstVmAction {
    /// Starts a worker.
    Spawn { worker: usize },
    /// Cancels the initialization barrier.
    CancelGate,
    /// Joins the worker that was started in this place.
    Join { worker: usize },
    Finish { status: i32 },
}

/// What the embedder saw.
#[derive(Clone, Copy, Debug, PartialEq, Eq, Structural)]
pub enum FirstVmSeen {
    /// Whether the worker was started.
    Spawned(bool),
    Done,
    /// The status with which the worker ended; none where it could not be joined.
    Joined(Option<i32>),
}

/// The status of a worker, and whether it has to cancel the barrier.
pub open spec fn worker_end(run: Option<i32>) -> (i32, bool) {
    match run {
        Some(status) => (status, false),
        None => (WORKER_PANICKED, true),
    }
}

/// The status of a worker, and whether it has to cancel the barrier for the others: it has to where
/// its run panicked, which is no status.
pub fn worker_status(run: Option<i32>) -> (ended: (i32, bool))
    ensures
        ended == worker_end(run),
{
    match run {
        Some(status) => (status, false),
        None => (WORKER_PANICKED, true),
    }
}

/// The name of a worker.
pub fn worker_name(worker: usize) -> (name: String)
    ensures
        name@ == "nimbus-bun-init-proof-"@ + crate::text::decimal(worker as int),
{
    let mut name = "nimbus-bun-init-proof-".to_owned();
    append_decimal_u64(&mut name, worker as u64);
    name
}

/// The proof that several threads can make the first machine at the same time.
pub fn nimbus_bun_embed_probe_construct_and_destroy_vm() -> (proof_run: FirstVmProof)
    ensures
        proof_run == FirstVmProof::start(),
{
    FirstVmProof {
        spawned: 0,
        spawn_failed: false,
        gate_cancelled: false,
        joined: 0,
        status: 0,
    }
}

/// The status after another worker has ended: the first that is not zero stays.
pub open spec fn aggregate(status: i32, ended: Option<i32>) -> i32 {
    if status != 0 {
        status
    } else {
        match ended {
            Some(status) => status,
            None => WORKER_PANICKED,
        }
    }
}

impl FirstVmProof {
    /// Nothing has been done.
    pub open spec fn start() -> FirstVmProof {
        FirstVmProof {
            spawned: 0,
            spawn_failed: false,
            gate_cancelled: false,
            joined: 0,
            status: 0,
        }
    }

    /// No worker is joined before all are started, nor one that was not.
    pub open spec fn wf(self) -> bool {
        &&& self.joined <= self.spawned <= CONCURRENT_FIRST_VMS
        &&& self.joined > 0 ==> self.spawn_failed || self.spawned == CONCURRENT_FIRST_VMS
        &&& self.gate_cancelled ==> self.spawn_failed
        &&& self.spawn_failed ==> self.spawned < CONCURRENT_FIRST_VMS && self.status
            == SPAWN_FAILED
    }

    /// What to do next.
    pub open spec fn spec_action(self) -> FirstVmAction {
        if !self.spawn_failed && self.spawned < CONCURRENT_FIRST_VMS {
            FirstVmAction::Spawn { worker: self.spawned }
        } else if self.spawn_failed && !self.gate_cancelled {
            FirstVmAction::CancelGate
        } else if self.joined < self.spawned {
            FirstVmAction::Join { worker: self.joined }
        } else {
            FirstVmAction::Finish { status: self.status }
        }
    }

    /// What to do next.
    pub fn action(&self) -> (action: FirstVmAction)
        ensures
            action == self.spec_action(),
    {
        if !self.spawn_failed && self.spawned < CONCURRENT_FIRST_VMS {
            FirstVmAction::Spawn { worker: self.spawned }
        } else if self.spawn_failed && !self.gate_cancelled {
            FirstVmAction::CancelGate
        } else if self.joined < self.spawned {
            FirstVmAction::Join { worker: self.joined }
        } else {
            FirstVmAction::Finish { status: self.status }
        }
    }

    /// The observation is one that this state waits for.
    pub open spec fn answered_by(self, seen: FirstVmSeen) -> bool {
        match self.spec_action() {
            FirstVmAction::Spawn { .. } => seen is Spawned,
            FirstVmAction::CancelGate => seen is Done,
            FirstVmAction::Join { .. } => seen is Joined,
            FirstVmAction::Finish { .. } => false,
        }
    }

    /// The state after an observation.
    pub open spec fn next(self, seen: FirstVmSeen) -> FirstVmProof {
        match seen {
            FirstVmSeen::Spawned(true) => FirstVmProof {
                spawned: (self.spawned + 1) as usize,
                ..self
            },
            FirstVmSeen::Spawned(false) => FirstVmProof {
                spawn_failed: true,
                status: SPAWN_FAILED,
                ..self
            },
            FirstVmSeen::Done => FirstVmProof { gate_cancelled: true, ..self },
            FirstVmSeen::Joined(ended) => FirstVmProof {
                joined: (self.joined + 1) as usize,
                status: aggregate(self.status, ended),
                ..self
            },
        }
    }

    /// Takes the answer to the action that was due.
    pub fn observe(&mut self, seen: FirstVmSeen)
        requires
            old(self).wf(),
            old(self).answered_by(seen),
        ensures
            final(self).wf(),
            *final(self) == old(self).next(seen),
    {
        match seen {
            FirstVmSeen::Spawned(spawned) => if spawned {
                self.spawned = self.spawned + 1;
            } else {
                self.spawn_failed = true;
                self.status = SPAWN_FAILED;
            },
            FirstVmSeen::Done => {
                self.gate_cancelled = true;
            },
            FirstVmSeen::Joined(ended) => {
                if self.status == 0 {
                    self.status = match ended {
                        Some(status) => status,
                        None => WORKER_PANICKED,
                    };
                }
                self.joined = self.joined + 1;
            },
        }
    }
}

/// The state after several observations.
pub open spec fn first_vms_after(trace: Seq<FirstVmSeen>) -> FirstVmProof
    decreases trace.len(),
{
    if trace.len() == 0 {
        FirstVmProof::start()
    } else {
        first_vms_after(trace.drop_last()).next(trace.last())
    }
}

/// Every observation is one that was waited for.
pub open spec fn first_vms_fair(trace: Seq<FirstVmSeen>) -> bool {
    forall|i: int|
        0 <= i < trace.len() ==> first_vms_after(#[trigger] trace.take(i)).answered_by(trace[i])
}

/// The statuses with which the workers ended that were joined, in the order of their start.
pub open spec fn joined_statuses(trace: Seq<FirstVmSeen>) -> Seq<Option<i32>>
    decreases trace.len(),
{
    if trace.len() == 0 {
        Seq::empty()
    } else {
        let before = joined_statuses(trace.drop_last());
        match trace.last() {
            FirstVmSeen::Joined(ended) => before.push(ended),
            _ => before,
        }
    }
}

/// The first of the statuses that is not zero.
pub open spec fn first_failure(statuses: Seq<Option<i32>>) -> i32
    decreases statuses.len(),
{
    if statuses.len() == 0 {
        0
    } else {
        aggregate(first_failure(statuses.drop_last()), statuses.last())
    }
}

proof fn lemma_first_vms_prefix(trace: Seq<FirstVmSeen>)
    requires
        first_vms_fair(trace),
        trace.len() > 0,
    ensures
        first_vms_fair(trace.drop_last()),
        first_vms_after(trace.drop_last()).answered_by(trace.last()),
{
    let before = trace.drop_last();
    assert(trace.take(trace.len() - 1) == before);
    assert forall|i: int| 0 <= i < before.len() implies first_vms_after(
        #[trigger] before.take(i),
    ).answered_by(before[i]) by {
        assert(before.take(i) == trace.take(i));
    }
}

proof fn lemma_first_vms(trace: Seq<FirstVmSeen>)
    requires
        first_vms_fair(trace),
    ensures
        first_vms_after(trace).wf(),
        first_vms_after(trace).joined == joined_statuses(trace).len(),
        first_vms_after(trace).spawn_failed <==> trace.contains(FirstVmSeen::Spawned(false)),
        !first_vms_after(trace).spawn_failed ==> first_vms_after(trace).status == first_failure(
            joined_statuses(trace),
        ),
    decreases trace.len(),
{
    if trace.len() > 0 {
        let before = trace.drop_last();
        lemma_first_vms_prefix(trace);
        lemma_first_vms(before);
        let statuses = joined_statuses(trace);
        if trace.last() is Joined {
            assert(statuses.drop_last() == joined_statuses(before));
        }
        if before.contains(FirstVmSeen::Spawned(false)) {
            let i = choose|i: int|
                0 <= i < before.len() && before[i] == FirstVmSeen::Spawned(false);
            assert(trace[i] == FirstVmSeen::Spawned(false));
        }
        if trace.last() == FirstVmSeen::Spawned(false) {
            assert(trace[trace.len() - 1] == FirstVmSeen::Spawned(false));
        } else if trace.contains(FirstVmSeen::Spawned(false)) {
            let i = choose|i: int| 0 <= i < trace.len() && trace[i] == FirstVmSeen::Spawned(false);
            assert(before[i] == FirstVmSeen::Spawned(false));
        }
    }
}

/// Every worker that was started is joined before the proof ends. Its status says that a worker
/// could not be started, or is the first that is not zero of the workers in the order of their
/// start; and it is zero only if all of them were started and ended with zero.
pub proof fn law_first_vm_proof_joins_every_worker(trace: Seq<FirstVmSeen>)
    requires
        first_vms_fair(trace),
        first_vms_after(trace).spec_action() is Finish,
    ensures
        first_vms_after(trace).wf(),
        joined_statuses(trace).len() == first_vms_after(trace).spawned,
        first_vms_after(trace).status == if trace.contains(FirstVmSeen::Spawned(false)) {
            SPAWN_FAILED
        } else {
            first_failure(joined_statuses(trace))
        },
        first_vms_after(trace).status == 0 ==> joined_statuses(trace) == Seq::new(
            CONCURRENT_FIRST_VMS as nat,
            |i: int| Some(0i32),
        ),
{
    lemma_first_vms(trace);
    if first_vms_after(trace).status == 0 {
        lemma_no_failure_means_zeros(joined_statuses(trace));
    }
}

proof fn lemma_no_failure_means_zeros(statuses: Seq<Option<i32>>)
    requires
        first_failure(statuses) == 0,
    ensures
        forall|i: int| 0 <= i < statuses.len() ==> statuses[i] == Some(0i32),
    decreases statuses.len(),
{
    if statuses.len() > 0 {
        lemma_no_failure_means_zeros(statuses.drop_last());
        assert forall|i: int| 0 <= i < statuses.len() implies statuses[i] == Some(0i32) by {
            if i < statuses.len() - 1 {
                assert(statuses.drop_last()[i] == statuses[i]);
            }
        }
    }
}

/// A worker that could not be started keeps no other waiting: the barrier is cancelled before any
/// worker is joined.
pub proof fn law_gate_is_cancelled_before_joining(trace: Seq<FirstVmSeen>)
    requires
        first_vms_fair(trace),
        trace.contains(FirstVmSeen::Spawned(false)),
        first_vms_after(trace).joined > 0 || first_vms_after(trace).spec_action() is Join
            || first_vms_after(trace).spec_action() is Finish,
    ensures
        first_vms_after(trace).gate_cancelled,
    decreases trace.len(),
{
    lemma_first_vms(trace);
    if first_vms_after(trace).joined > 0 {
        let before = trace.drop_last();
        lemma_first_vms_prefix(trace);
        lemma_first_vms(before);
        if !(trace.last() is Joined) {
            assert(before.contains(FirstVmSeen::Spawned(false))) by {
                let i = choose|i: int|
                    0 <= i < trace.len() && trace[i] == FirstVmSeen::Spawned(false);
                assert(before[i] == FirstVmSeen::Spawned(false));
            }
            law_gate_is_cancelled_before_joining(before);
        }
    }
}

proof fn lemma_session_step(gated: bool, trace: Seq<SessionSeen>, k: int)
    requires
        session_fair(gated, trace),
        0 <= k < trace.len(),
    ensures
        session_after(gated, trace.take(k)).answered_by(trace[k]),
        session_after(gated, trace.take(k + 1)) == session_after(gated, trace.take(k)).next(
            trace[k],
        ),
{
    assert(trace.take(k + 1).drop_last() == trace.take(k));
    assert(trace.take(k + 1).last() == trace[k]);
}

/// The life of a machine, step by step: its thread is initialized, the barrier is passed where
/// there is one, the process is initialized, the machine is made, used, closed and destroyed. What
/// was seen says with which status it ends: 318 where the barrier did not let the thread pass, 1
/// where the machine could not be made, and otherwise the status with which its use ended.
pub proof fn law_life_of_a_machine_goes_in_order(gated: bool, trace: Seq<SessionSeen>)
    requires
        session_fair(gated, trace),
        session_after(gated, trace) is Finished,
    ensures
        ({
            let past = if gated {
                1int
            } else {
                0int
            };
            let end = session_after(gated, trace);
            &&& trace.len() >= 2
            &&& session_after(gated, trace.take(0)) == (VmSession::InitThread { gated })
            &&& gated ==> session_after(gated, trace.take(1)) == VmSession::WaitAtGate
            &&& if gated && trace[1] == SessionSeen::Passed(false) {
                trace.len() == 2 && end == (VmSession::Finished { status: 318 })
            } else {
                &&& trace.len() >= past + 3
                &&& gated ==> trace[1] == SessionSeen::Passed(true)
                &&& session_after(gated, trace.take(past + 1)) == VmSession::InitProcess
                &&& session_after(gated, trace.take(past + 2)) == VmSession::InitMachine
                &&& trace[past + 2] == SessionSeen::Made(true) || trace[past + 2]
                    == SessionSeen::Made(false)
                &&& trace[past + 2] == SessionSeen::Made(false) ==> trace.len() == past + 3 && end
                    == (VmSession::Finished { status: 1 })
                &&& trace[past + 2] == SessionSeen::Made(true) ==> {
                    &&& trace.len() == past + 6
                    &&& session_after(gated, trace.take(past + 3)) == VmSession::Run
                    &&& trace[past + 3] matches SessionSeen::Status(status)
                    &&& session_after(gated, trace.take(past + 4)) == (VmSession::CloseScripts {
                        status,
                    })
                    &&& session_after(gated, trace.take(past + 5)) == (VmSession::Destroy {
                        status,
                    })
                    &&& end == (VmSession::Finished { status })
                }
            }
        }),
{
    let past = if gated {
        1int
    } else {
        0int
    };
    let n = trace.len() as int;
    assert(trace.take(0) == Seq::<SessionSeen>::empty());
    assert(trace.take(n) == trace);
    lemma_session_step(gated, trace, 0);
    if gated {
        lemma_session_step(gated, trace, 1);
    }
    if gated && trace[1] == SessionSeen::Passed(false) {
        if n > 2 {
            lemma_session_step(gated, trace, 2);
        }
    } else {
        lemma_session_step(gated, trace, past + 1);
        lemma_session_step(gated, trace, past + 2);
        if trace[past + 2] == SessionSeen::Made(true) {
            lemma_session_step(gated, trace, past + 3);
            lemma_session_step(gated, trace, past + 4);
            lemma_session_step(gated, trace, past + 5);
            if n > past + 6 {
                lemma_session_step(gated, trace, past + 6);
            }
        } else if n > past + 3 {
            lemma_session_step(gated, trace, past + 3);
        }
    }
}

/// Four fresh machines are asked for, one after the other, and then the one that is reused, as long
/// as all end with zero; then the probe is over.
pub proof fn law_four_fresh_machines_come_before_the_reused_one(n: nat)
    requires
        n <= 5,
    ensures
        n < 4 ==> stress_after(Seq::new(n, |i: int| 0i32)) == (LifecycleStress::Fresh {
            left: (3 - n) as usize,
        }),
        n == 4 ==> stress_after(Seq::new(n, |i: int| 0i32)) == LifecycleStress::Reuse,
        n == 5 ==> stress_after(Seq::new(n, |i: int| 0i32)) == (LifecycleStress::Finished {
            status: 0,
        }),
{
    if n <= 4 {
        lemma_zeros(Seq::new(n, |i: int| 0i32));
    } else {
        let statuses = Seq::new(n, |i: int| 0i32);
        lemma_zeros(statuses.drop_last());
    }
}

/// Once the stress probe is over, no further status changes its own.
pub proof fn law_stress_end_is_final(status: i32, later: i32)
    ensures
        (LifecycleStress::Finished { status }).next(later) == (LifecycleStress::Finished {
            status,
        }),
        LifecycleStress::Reuse.next(later) == (LifecycleStress::Finished { status: later }),
{
}

/// The status of several workers is that of the first in their order that did not end with zero; a
/// worker that could not be joined counts as one that panicked, with 319.
pub proof fn law_first_failure_comes_first(statuses: Seq<Option<i32>>, i: int)
    requires
        0 <= i < statuses.len(),
        forall|j: int| 0 <= j < i ==> #[trigger] statuses[j] == Some(0i32),
        statuses[i] != Some(0i32),
    ensures
        statuses[i] matches Some(status) ==> first_failure(statuses) == status,
        statuses[i] is None ==> first_failure(statuses) == 319,
    decreases statuses.len(),
{
    let before = statuses.drop_last();
    if i < statuses.len() - 1 {
        assert forall|j: int| 0 <= j < i implies #[trigger] before[j] == Some(0i32) by {
            assert(statuses[j] == Some(0i32));
        }
        assert(before[i] == statuses[i]);
        law_first_failure_comes_first(before, i);
    } else {
        assert forall|j: int| 0 <= j < before.len() implies #[trigger] before[j] == Some(0i32) by {
            assert(statuses[j] == Some(0i32));
        }
        lemma_zeros_have_no_failure(before);
    }
}

proof fn lemma_zeros_have_no_failure(statuses: Seq<Option<i32>>)
    requires
        forall|j: int| 0 <= j < statuses.len() ==> #[trigger] statuses[j] == Some(0i32),
    ensures
        first_failure(statuses) == 0,
    decreases statuses.len(),
{
    if statuses.len() > 0 {
        let before = statuses.drop_last();
        assert forall|j: int| 0 <= j < before.len() implies #[trigger] before[j] == Some(0i32) by {
            assert(statuses[j] == Some(0i32));
        }
        assert(statuses[statuses.len() - 1] == Some(0i32));
        lemma_zeros_have_no_failure(before);
    }
}

/// How many workers were started.
pub open spec fn started(trace: Seq<FirstVmSeen>) -> nat
    decreases trace.len(),
{
    if trace.len() == 0 {
        0
    } else {
        started(trace.drop_last()) + if trace.last() == FirstVmSeen::Spawned(true) {
            1nat
        } else {
            0nat
        }
    }
}

/// Four workers are started, one after the other, unless one of them cannot be; then those that
/// were started are joined in the order of their start, and after them the proof is over. Where
/// a worker could not be started the status is 317.
pub proof fn law_workers_are_started_and_joined_in_order(trace: Seq<FirstVmSeen>)
    requires
        first_vms_fair(trace),
    ensures
        ({
            let failed = trace.contains(FirstVmSeen::Spawned(false));
            let joined = joined_statuses(trace).len();
            match first_vms_after(trace).spec_action() {
                FirstVmAction::Spawn { worker } => {
                    !failed && worker == started(trace) && worker < 4 && joined == 0
                },
                FirstVmAction::CancelGate => failed && joined == 0,
                FirstVmAction::Join { worker } => {
                    &&& failed || started(trace) == 4
                    &&& worker == joined
                    &&& joined < started(trace)
                },
                FirstVmAction::Finish { status } => {
                    &&& joined == started(trace)
                    &&& failed || started(trace) == 4
                    &&& failed ==> status == 317
                    &&& !failed ==> status == first_failure(joined_statuses(trace))
                },
            }
        }),
{
    lemma_first_vms(trace);
    lemma_started(trace);
    if first_vms_after(trace).spec_action() is CancelGate && first_vms_after(trace).joined > 0 {
        law_gate_is_cancelled_before_joining(trace);
    }
}

proof fn lemma_started(trace: Seq<FirstVmSeen>)
    requires
        first_vms_fair(trace),
    ensures
        first_vms_after(trace).spawned == started(trace),
    decreases trace.len(),
{
    if trace.len() > 0 {
        lemma_first_vms_prefix(trace);
        lemma_first_vms(trace.drop_last());
        lemma_started(trace.drop_last());
    }
}

/// A worker that ended keeps its status and leaves the barrier alone; one that panicked has status
/// 319 and cancels it, so that it keeps no other waiting.
pub proof fn law_panicked_worker_cancels_the_barrier(run: Option<i32>)
    ensures
        run matches Some(status) ==> worker_end(run) == (status, false),
        run is None ==> worker_end(run) == (319i32, true),
{
}

} // verus!
