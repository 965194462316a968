//! The supervisor: starts services in dependency order and follows the
//! ends of their tasks.
//!
//! The supervisor needs the kernel twice per round: to spawn a task and to
//! wait for one to end. [`Supervisor`] holds every decision of the loop and
//! is driven from outside: [`Supervisor::next_action`] says what to do next,
//! and the kernel's answer goes back through [`Supervisor::record_spawn`] or
//! [`Supervisor::record_wait`].

use vstd::prelude::*;
use crate::deps::{
    DependencyService, check_dependencies, dependencies_met, lemma_dependencies_met_depend_on_running,
    same_names_and_running, with_state,
};
use crate::service::ServiceState;
use crate::syscalls::TaskId;

verus! {

/// What the driver of a [`Supervisor`] must do next.
#[derive(Debug, Clone, Copy, PartialEq, Eq, Structural)]
pub enum SupervisorAction {
    /// Spawn a task for the service at this position, then hand the
    /// kernel's answer to [`Supervisor::record_spawn`].
    Spawn(usize),
    /// Wait for any child task to end, then hand the kernel's answer and the
    /// exit status to [`Supervisor::record_wait`].
    Wait,
    /// No task runs and none can be started: the init system shuts down.
    Shutdown,
}

/// Where the supervisor stands in its round.
#[derive(Debug, Clone, Copy, PartialEq, Eq, Structural)]
pub enum SupervisorPhase {
    /// Ready for [`Supervisor::next_action`].
    Scanning,
    /// A spawn was asked for; waiting for [`Supervisor::record_spawn`].
    AwaitingSpawn,
    /// A wait was asked for; waiting for [`Supervisor::record_wait`].
    AwaitingWait,
}

/// What became of the answer of a wait.
#[derive(Debug, Clone, Copy, PartialEq, Eq, Structural)]
pub enum WaitOutcome {
    /// The task of the service at this position ended; the service is now
    /// stopped (exit status 0) or failed.
    ServiceEnded(usize),
    /// A task that no service runs ended.
    UnknownTask(TaskId),
    /// There was nothing to wait for (error code 0): yield the processor.
    Yield,
    /// The wait failed with this error code.
    WaitFailed(u64),
}

/// `s` with every startable service in positions `lo..hi` marked waiting.
pub open spec fn mark_waiting(s: Seq<DependencyService>, lo: int, hi: int) -> Seq<DependencyService> {
    Seq::new(
        s.len(),
        |k: int|
            if lo <= k < hi && s[k].service.state.is_startable() {
                with_state(s[k], ServiceState::Waiting)
            } else {
                s[k]
            },
    )
}

/// No startable service in positions `lo..hi` of `s` has its dependencies
/// met.
pub open spec fn none_ready(s: Seq<DependencyService>, lo: int, hi: int) -> bool {
    forall|j: int|
        lo <= j < hi && #[trigger] s[j].service.state.is_startable() ==> !dependencies_met(s[j], s)
}

/// A stopped or waiting service whose dependencies are met is never passed
/// over: a scan over positions that include it cannot find nothing to
/// start.
pub proof fn lemma_ready_service_not_passed_over(s: Seq<DependencyService>, lo: int, hi: int, j: int)
    requires
        lo <= j < hi,
        0 <= j < s.len(),
        s[j].service.state == ServiceState::Stopped || s[j].service.state == ServiceState::Waiting,
        dependencies_met(s[j], s),
    ensures
        !none_ready(s, lo, hi),
{
    assert(s[j].service.state.is_startable());
}

/// Marking services as waiting turns the stopped and waiting services in
/// `lo..hi` into waiting ones and leaves every other service as it was.
pub proof fn lemma_mark_waiting_states(s: Seq<DependencyService>, lo: int, hi: int, k: int)
    requires
        0 <= k < s.len(),
    ensures
        mark_waiting(s, lo, hi).len() == s.len(),
        lo <= k < hi && (s[k].service.state == ServiceState::Stopped || s[k].service.state
            == ServiceState::Waiting) ==> mark_waiting(s, lo, hi)[k] == with_state(
            s[k],
            ServiceState::Waiting,
        ),
        !(lo <= k < hi) || !(s[k].service.state == ServiceState::Stopped || s[k].service.state
            == ServiceState::Waiting) ==> mark_waiting(s, lo, hi)[k] == s[k],
{
}

/// The list has a running service exactly when some service runs a task.
pub proof fn lemma_any_running(s: Seq<DependencyService>, k: int)
    ensures
        0 <= k < s.len() && s[k].service.state is Running ==> any_running(s),
        (forall|m: int| 0 <= m < s.len() ==> !(s[m].service.state is Running)) ==> !any_running(s),
{
    if 0 <= k < s.len() && s[k].service.state is Running {
        assert(s[k].service.state.is_running());
    }
}

/// The service whose task ended is the first one that runs that task.
pub proof fn lemma_first_running(s: Seq<DependencyService>, k: int, j: int, task_id: TaskId)
    requires
        0 <= j < s.len(),
        s[j].service.state == ServiceState::Running(task_id),
        is_first_running(s, k, task_id),
    ensures
        k <= j,
        s[k].service.state == ServiceState::Running(task_id),
{
}

/// A task counts as unknown only when no service runs it.
pub proof fn lemma_none_running(s: Seq<DependencyService>, j: int, task_id: TaskId)
    requires
        0 <= j < s.len(),
        s[j].service.state == ServiceState::Running(task_id),
    ensures
        !none_running(s, task_id),
{
}

/// Some service in `s` is running.
pub open spec fn any_running(s: Seq<DependencyService>) -> bool {
    exists|k: int| 0 <= k < s.len() && #[trigger] s[k].service.state.is_running()
}

/// `k` is the first service in `s` that runs the task `task_id`.
pub open spec fn is_first_running(s: Seq<DependencyService>, k: int, task_id: TaskId) -> bool {
    &&& 0 <= k < s.len()
    &&& s[k].service.state == ServiceState::Running(task_id)
    &&& forall|m: int| 0 <= m < k ==> s[m].service.state != ServiceState::Running(task_id)
}

/// No service in `s` runs the task `task_id`.
pub open spec fn none_running(s: Seq<DependencyService>, task_id: TaskId) -> bool {
    forall|m: int| 0 <= m < s.len() ==> s[m].service.state != ServiceState::Running(task_id)
}

/// Marking services as waiting changes no name and starts or stops no
/// task.
pub proof fn lemma_mark_waiting_keeps_running(s: Seq<DependencyService>, lo: int, hi: int)
    ensures
        same_names_and_running(s, mark_waiting(s, lo, hi)),
        any_running(mark_waiting(s, lo, hi)) == any_running(s),
        forall|k: int|
            0 <= k < s.len() ==> #[trigger] mark_waiting(s, lo, hi)[k] == with_state(
                s[k],
                mark_waiting(s, lo, hi)[k].service.state,
            ),
{
    let m = mark_waiting(s, lo, hi);
    if any_running(s) {
        let k = choose|k: int| 0 <= k < s.len() && #[trigger] s[k].service.state.is_running();
        assert(m[k].service.state.is_running());
    }
    if any_running(m) {
        let k = choose|k: int| 0 <= k < m.len() && #[trigger] m[k].service.state.is_running();
        assert(s[k].service.state.is_running());
    }
}

/// Whether some service runs a task.
pub fn has_active_tasks(services: &[DependencyService]) -> (active: bool)
    ensures
        active == any_running(services@),
{
    let mut k: usize = 0;
    while k < services.len()
        invariant
            k <= services@.len(),
            forall|m: int| 0 <= m < k ==> !(#[trigger] services@[m].service.state.is_running()),
        decreases services@.len() - k,
    {
        if matches!(services[k].service.state, ServiceState::Running(_)) {
            assert(services@[k as int].service.state.is_running());
            return true;
        }
        k = k + 1;
    }
    false
}

/// Position of the first service that runs the task `task_id`, if any.
pub fn find_task(services: &[DependencyService], task_id: TaskId) -> (found: Option<usize>)
    ensures
        match found {
            Some(k) => is_first_running(services@, k as int, task_id),
            None => none_running(services@, task_id),
        },
{
    let mut k: usize = 0;
    while k < services.len()
        invariant
            k <= services@.len(),
            forall|m: int| 0 <= m < k ==> services@[m].service.state != ServiceState::Running(task_id),
        decreases services@.len() - k,
    {
        match services[k].service.state {
            ServiceState::Running(id) => {
                if id.0 == task_id.0 {
                    return Some(k);
                }
            },
            _ => {},
        }
        k = k + 1;
    }
    None
}

/// The state of the init loop over a list of services.
pub struct Supervisor {
    services: Vec<DependencyService>,
    cursor: usize,
    started_new: bool,
    phase: SupervisorPhase,
}

impl Supervisor {
    /// The services, in their current states.
    pub closed spec fn services_view(&self) -> Seq<DependencyService> {
        self.services@
    }

    /// Position in the current round from which the next scan continues.
    pub closed spec fn cursor_view(&self) -> nat {
        self.cursor as nat
    }

    /// Whether a task was started in the current round.
    pub closed spec fn started_new_view(&self) -> bool {
        self.started_new
    }

    /// Where the supervisor stands in its round.
    pub closed spec fn phase_view(&self) -> SupervisorPhase {
        self.phase
    }

    /// The supervisor's invariant: a task started in this round still runs,
    /// and a pending spawn is for a service that may be started.
    pub closed spec fn wf(&self) -> bool {
        &&& self.cursor <= self.services@.len()
        &&& self.started_new ==> any_running(self.services@)
        &&& self.phase == SupervisorPhase::AwaitingSpawn ==> {
            &&& self.cursor >= 1
            &&& self.services@[self.cursor - 1].service.state.is_startable()
        }
        &&& self.phase == SupervisorPhase::AwaitingWait ==> self.cursor == 0 && !self.started_new
    }

    /// A round in which a task was started cannot end in a shutdown: the
    /// service started in it still runs.
    pub proof fn lemma_started_round_keeps_running(&self)
        requires
            self.wf(),
            self.started_new_view(),
        ensures
            any_running(self.services_view()),
    {
    }

    /// A supervisor at the start of its first round.
    pub fn new(services: Vec<DependencyService>) -> (s: Self)
        ensures
            s.wf(),
            s.services_view() == services@,
            s.cursor_view() == 0,
            !s.started_new_view(),
            s.phase_view() == SupervisorPhase::Scanning,
    {
        Supervisor { services, cursor: 0, started_new: false, phase: SupervisorPhase::Scanning }
    }

    /// The services, in their current states.
    pub fn services(&self) -> (services: &Vec<DependencyService>)
        ensures
            services@ == self.services_view(),
    {
        &self.services
    }

    /// Where the supervisor stands in its round.
    pub fn phase(&self) -> (phase: SupervisorPhase)
        ensures
            phase == self.phase_view(),
    {
        self.phase
    }

    /// Goes on with the current round. Every stopped or waiting service,
    /// in order, whose dependencies are not met is marked waiting; the
    /// first one whose dependencies are met is handed out to be spawned.
    /// At the end of the round the supervisor waits for a task to end if
    /// some service runs, and shuts down if none does.
    pub fn next_action(&mut self) -> (action: SupervisorAction)
        requires
            old(self).wf(),
            old(self).phase_view() == SupervisorPhase::Scanning,
        ensures
            final(self).wf(),
            forall|j: int|
                old(self).cursor_view() <= j < old(self).services_view().len() && (
                old(self).services_view()[j].service.state == ServiceState::Stopped
                    || old(self).services_view()[j].service.state == ServiceState::Waiting)
                    && dependencies_met(old(self).services_view()[j], old(self).services_view())
                    ==> match action {
                    SupervisorAction::Spawn(i) => i <= j,
                    _ => false,
                },
            match action {
                SupervisorAction::Spawn(i) => {
                    &&& old(self).cursor_view() <= i < old(self).services_view().len()
                    &&& old(self).services_view()[i as int].service.state.is_startable()
                    &&& dependencies_met(old(self).services_view()[i as int], old(self).services_view())
                    &&& none_ready(old(self).services_view(), old(self).cursor_view() as int, i as int)
                    &&& final(self).services_view() == mark_waiting(
                        old(self).services_view(),
                        old(self).cursor_view() as int,
                        i as int,
                    )
                    &&& final(self).cursor_view() == i + 1
                    &&& final(self).started_new_view() == old(self).started_new_view()
                    &&& final(self).phase_view() == SupervisorPhase::AwaitingSpawn
                },
                _ => {
                    &&& none_ready(
                        old(self).services_view(),
                        old(self).cursor_view() as int,
                        old(self).services_view().len() as int,
                    )
                    &&& final(self).services_view() == mark_waiting(
                        old(self).services_view(),
                        old(self).cursor_view() as int,
                        old(self).services_view().len() as int,
                    )
                    &&& final(self).cursor_view() == 0
                    &&& !final(self).started_new_view()
                    &&& (action == SupervisorAction::Shutdown) == !any_running(final(self).services_view())
                    &&& action == SupervisorAction::Shutdown ==> !old(self).started_new_view()
                    &&& final(self).phase_view() == if action == SupervisorAction::Wait {
                        SupervisorPhase::AwaitingWait
                    } else {
                        SupervisorPhase::Scanning
                    }
                },
            },
    {
        let ghost o = self.services@;
        let ghost c = self.cursor as int;
        let n = self.services.len();
        while self.cursor < n
            invariant
                o == old(self).services@,
                c == old(self).cursor as int,
                n == o.len(),
                c <= self.cursor <= n,
                self.services@ == mark_waiting(o, c, self.cursor as int),
                none_ready(o, c, self.cursor as int),
                self.phase == SupervisorPhase::Scanning,
                self.started_new == old(self).started_new,
                self.started_new ==> any_running(o),
            decreases n - self.cursor,
        {
            let i = self.cursor;
            proof {
                assert(same_names_and_running(o, self.services@));
            }
            if matches!(self.services[i].service.state, ServiceState::Stopped | ServiceState::Waiting) {
                let ready = check_dependencies(&self.services[i], self.services.as_slice());
                proof {
                    assert(self.services@[i as int] == o[i as int]);
                    lemma_dependencies_met_depend_on_running(o[i as int], o, self.services@);
                }
                if ready {
                    self.cursor = i + 1;
                    self.phase = SupervisorPhase::AwaitingSpawn;
                    proof {
                        if self.started_new {
                            let k = choose|k: int| 0 <= k < o.len() && #[trigger] o[k].service.state.is_running();
                            assert(self.services@[k].service.state.is_running());
                        }
                    }
                    return SupervisorAction::Spawn(i);
                }
                let mut waiting = self.services[i];
                waiting.service.state = ServiceState::Waiting;
                self.services.set(i, waiting);
            }
            self.cursor = i + 1;
            assert(self.services@ =~= mark_waiting(o, c, self.cursor as int));
        }
        self.cursor = 0;
        let started = self.started_new;
        self.started_new = false;
        let active = has_active_tasks(self.services.as_slice());
        proof {
            if started {
                let k = choose|k: int| 0 <= k < o.len() && #[trigger] o[k].service.state.is_running();
                assert(self.services@[k].service.state.is_running());
            }
        }
        assert forall|j: int|
            c <= j < o.len() && (o[j].service.state == ServiceState::Stopped
                || o[j].service.state == ServiceState::Waiting) implies !dependencies_met(o[j], o) by {
            assert(o[j].service.state.is_startable());
        }
        if !active {
            SupervisorAction::Shutdown
        } else {
            self.phase = SupervisorPhase::AwaitingWait;
            SupervisorAction::Wait
        }
    }

    /// Records the kernel's answer to the spawn handed out by
    /// [`Supervisor::next_action`]: the service runs under the new task,
    /// or has failed.
    pub fn record_spawn(&mut self, result: Result<TaskId, u64>)
        requires
            old(self).wf(),
            old(self).phase_view() == SupervisorPhase::AwaitingSpawn,
        ensures
            final(self).wf(),
            old(self).cursor_view() >= 1,
            final(self).services_view() == old(self).services_view().update(
                old(self).cursor_view() - 1,
                with_state(
                    old(self).services_view()[old(self).cursor_view() - 1],
                    ServiceState::spec_after_spawn(result),
                ),
            ),
            final(self).cursor_view() == old(self).cursor_view(),
            final(self).started_new_view() == (old(self).started_new_view() || result is Ok),
            final(self).phase_view() == SupervisorPhase::Scanning,
    {
        let i = self.cursor - 1;
        let ghost o = self.services@;
        let mut spawned = self.services[i];
        spawned.service.state = ServiceState::after_spawn(result);
        self.services.set(i, spawned);
        if result.is_ok() {
            self.started_new = true;
            assert(self.services@[i as int].service.state.is_running());
        } else {
            proof {
                if self.started_new {
                    let k = choose|k: int| 0 <= k < o.len() && #[trigger] o[k].service.state.is_running();
                    assert(self.services@[k].service.state.is_running());
                }
            }
        }
        self.phase = SupervisorPhase::Scanning;
    }

    /// Records the kernel's answer to the wait asked for by
    /// [`Supervisor::next_action`]. When a task ended, the first service
    /// that runs it becomes stopped (exit status 0) or failed; a task that
    /// no service runs changes nothing. A failed wait changes nothing: error
    /// code 0 means there was nothing to wait for.
    pub fn record_wait(&mut self, result: Result<TaskId, u64>, exit_status: u64) -> (outcome: WaitOutcome)
        requires
            old(self).wf(),
            old(self).phase_view() == SupervisorPhase::AwaitingWait,
        ensures
            final(self).wf(),
            final(self).cursor_view() == 0,
            !final(self).started_new_view(),
            final(self).phase_view() == SupervisorPhase::Scanning,
            match result {
                Ok(task_id) => match outcome {
                    WaitOutcome::ServiceEnded(k) => {
                        &&& is_first_running(old(self).services_view(), k as int, task_id)
                        &&& final(self).services_view() == old(self).services_view().update(
                            k as int,
                            with_state(
                                old(self).services_view()[k as int],
                                ServiceState::spec_after_exit(exit_status),
                            ),
                        )
                    },
                    WaitOutcome::UnknownTask(id) => {
                        &&& id == task_id
                        &&& none_running(old(self).services_view(), task_id)
                        &&& final(self).services_view() == old(self).services_view()
                    },
                    _ => false,
                },
                Err(e) => {
                    &&& outcome == if e == 0 {
                        WaitOutcome::Yield
                    } else {
                        WaitOutcome::WaitFailed(e)
                    }
                    &&& final(self).services_view() == old(self).services_view()
                },
            },
    {
        self.phase = SupervisorPhase::Scanning;
        match result {
            Ok(task_id) => {
                match find_task(self.services.as_slice(), task_id) {
                    Some(k) => {
                        let mut ended = self.services[k];
                        ended.service.state = ServiceState::after_exit(exit_status);
                        self.services.set(k, ended);
                        WaitOutcome::ServiceEnded(k)
                    },
                    None => WaitOutcome::UnknownTask(task_id),
                }
            },
            Err(e) => {
                if e == 0 {
                    WaitOutcome::Yield
                } else {
                    WaitOutcome::WaitFailed(e)
                }
            },
        }
    }
}

} // verus!
