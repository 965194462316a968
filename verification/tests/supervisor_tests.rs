use sahnemd::deps::{Dependency, DependencyService};
use sahnemd::service::{RestartPolicy, Service, ServiceState};
use sahnemd::supervisor::{
    find_task, has_active_tasks, Supervisor, SupervisorAction, SupervisorPhase, WaitOutcome,
};
use sahnemd::syscalls::TaskId;

static SHELL_DEPS: [Dependency; 1] = [Dependency::Requires("filesys")];

fn service(name: &'static str, path: &'static str, deps: &'static [Dependency]) -> DependencyService {
    DependencyService { service: Service::new(name, path, &[], RestartPolicy::Never), dependencies: deps }
}

fn system() -> Vec<DependencyService> {
    vec![service("filesys", "/bin/fs_driver", &[]), service("sahne_shell", "/bin/sh", &SHELL_DEPS)]
}

fn state(s: &Supervisor, i: usize) -> ServiceState {
    s.services()[i].service.state
}

#[test]
fn filesystem_starts_before_the_shell_in_one_round() {
    let mut s = Supervisor::new(system());
    assert_eq!(s.next_action(), SupervisorAction::Spawn(0));
    assert_eq!(s.phase(), SupervisorPhase::AwaitingSpawn);
    s.record_spawn(Ok(TaskId(10)));
    assert_eq!(state(&s, 0), ServiceState::Running(TaskId(10)));
    assert_eq!(s.next_action(), SupervisorAction::Spawn(1));
    s.record_spawn(Ok(TaskId(11)));
    assert_eq!(state(&s, 1), ServiceState::Running(TaskId(11)));
    assert_eq!(s.next_action(), SupervisorAction::Wait);
    assert_eq!(s.phase(), SupervisorPhase::AwaitingWait);
}

#[test]
fn shell_waits_while_the_filesystem_fails() {
    let mut s = Supervisor::new(system());
    assert_eq!(s.next_action(), SupervisorAction::Spawn(0));
    s.record_spawn(Err(0));
    assert_eq!(state(&s, 0), ServiceState::Failed);
    // the shell cannot start, nothing runs: shut down
    assert_eq!(s.next_action(), SupervisorAction::Shutdown);
    assert_eq!(state(&s, 1), ServiceState::Waiting);
}

#[test]
fn ended_task_stops_or_fails_its_service() {
    let mut s = Supervisor::new(system());
    s.next_action();
    s.record_spawn(Ok(TaskId(10)));
    s.next_action();
    s.record_spawn(Ok(TaskId(11)));
    assert_eq!(s.next_action(), SupervisorAction::Wait);
    assert_eq!(s.record_wait(Ok(TaskId(11)), 0), WaitOutcome::ServiceEnded(1));
    assert_eq!(state(&s, 1), ServiceState::Stopped);
    // a stopped service is started again in the next round
    assert_eq!(s.next_action(), SupervisorAction::Spawn(1));
    s.record_spawn(Ok(TaskId(12)));
    assert_eq!(s.next_action(), SupervisorAction::Wait);
    assert_eq!(s.record_wait(Ok(TaskId(10)), 2), WaitOutcome::ServiceEnded(0));
    assert_eq!(state(&s, 0), ServiceState::Failed);
    assert_eq!(s.phase(), SupervisorPhase::Scanning);
}

#[test]
fn unknown_task_and_wait_errors_change_nothing() {
    let mut s = Supervisor::new(system());
    s.next_action();
    s.record_spawn(Ok(TaskId(10)));
    assert_eq!(s.next_action(), SupervisorAction::Spawn(1));
    s.record_spawn(Ok(TaskId(11)));
    assert_eq!(s.next_action(), SupervisorAction::Wait);
    assert_eq!(s.record_wait(Ok(TaskId(99)), 0), WaitOutcome::UnknownTask(TaskId(99)));
    assert_eq!(s.next_action(), SupervisorAction::Wait);
    assert_eq!(s.record_wait(Err(0), 0), WaitOutcome::Yield);
    assert_eq!(s.next_action(), SupervisorAction::Wait);
    assert_eq!(s.record_wait(Err(7), 0), WaitOutcome::WaitFailed(7));
    assert_eq!(state(&s, 0), ServiceState::Running(TaskId(10)));
    assert_eq!(state(&s, 1), ServiceState::Running(TaskId(11)));
}

#[test]
fn empty_system_shuts_down_at_once() {
    let mut s = Supervisor::new(Vec::new());
    assert_eq!(s.next_action(), SupervisorAction::Shutdown);
}

#[test]
fn all_services_ending_leads_to_shutdown_after_restarts_fail() {
    let mut s = Supervisor::new(vec![service("once", "/bin/once", &[])]);
    assert_eq!(s.next_action(), SupervisorAction::Spawn(0));
    s.record_spawn(Ok(TaskId(3)));
    assert_eq!(s.next_action(), SupervisorAction::Wait);
    assert_eq!(s.record_wait(Ok(TaskId(3)), 1), WaitOutcome::ServiceEnded(0));
    // a failed service is not started again; nothing runs
    assert_eq!(s.next_action(), SupervisorAction::Shutdown);
}

#[test]
fn active_tasks_and_task_lookup() {
    let mut all = system();
    assert!(!has_active_tasks(&all));
    all[1].service.state = ServiceState::Running(TaskId(8));
    assert!(has_active_tasks(&all));
    assert_eq!(find_task(&all, TaskId(8)), Some(1));
    assert_eq!(find_task(&all, TaskId(9)), None);
}
