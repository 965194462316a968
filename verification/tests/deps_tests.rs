use sahnemd::deps::{
    check_dependencies, find_service, finish_start, try_start_service, Dependency, DependencyService,
};
use sahnemd::service::{RestartPolicy, Service, ServiceState};
use sahnemd::syscalls::TaskId;

static SHELL_DEPS: [Dependency; 1] = [Dependency::Requires("filesys")];
static UNKNOWN_DEPS: [Dependency; 1] = [Dependency::Requires("network")];
static OTHER_DEPS: [Dependency; 2] = [Dependency::Conflicts("filesys"), Dependency::ResourceReady("disk")];

fn service(name: &'static str, path: &'static str, deps: &'static [Dependency]) -> DependencyService {
    DependencyService { service: Service::new(name, path, &[], RestartPolicy::Never), dependencies: deps }
}

fn system() -> Vec<DependencyService> {
    vec![service("filesys", "/bin/fs_driver", &[]), service("sahne_shell", "/bin/sh", &SHELL_DEPS)]
}

#[test]
fn service_without_dependencies_may_start() {
    let all = system();
    assert!(check_dependencies(&all[0], &all));
}

#[test]
fn requirement_on_a_stopped_service_is_unmet() {
    let all = system();
    assert!(!check_dependencies(&all[1], &all));
}

#[test]
fn requirement_on_a_running_service_is_met() {
    let mut all = system();
    all[0].service.state = ServiceState::Running(TaskId(2));
    assert!(check_dependencies(&all[1], &all));
}

#[test]
fn requirement_on_an_unknown_service_is_unmet() {
    let mut all = system();
    all[0].service.state = ServiceState::Running(TaskId(2));
    let svc = service("web", "/bin/web", &UNKNOWN_DEPS);
    assert!(!check_dependencies(&svc, &all));
}

#[test]
fn conflicts_and_resources_do_not_block() {
    let all = system();
    let svc = service("x", "/bin/x", &OTHER_DEPS);
    assert!(check_dependencies(&svc, &all));
}

#[test]
fn the_first_service_of_a_name_decides() {
    let mut all = system();
    let mut second = service("filesys", "/bin/fs2", &[]);
    second.service.state = ServiceState::Running(TaskId(9));
    all.push(second);
    assert!(!check_dependencies(&all[1], &all));
    assert_eq!(find_service(&all, "filesys"), Some(0));
    assert_eq!(find_service(&all, "sahne_shell"), Some(1));
    assert_eq!(find_service(&all, "nothing"), None);
}

#[test]
fn try_start_marks_ready_service_starting() {
    let all = system();
    let mut fs = all[0];
    assert!(try_start_service(&mut fs, &all));
    assert_eq!(fs.service.state, ServiceState::Starting);
    finish_start(&mut fs, Ok(TaskId(5)));
    assert_eq!(fs.service.state, ServiceState::Running(TaskId(5)));
}

#[test]
fn try_start_marks_blocked_service_waiting() {
    let all = system();
    let mut shell = all[1];
    assert!(!try_start_service(&mut shell, &all));
    assert_eq!(shell.service.state, ServiceState::Waiting);
    // a waiting service is not tried again by this function
    assert!(!try_start_service(&mut shell, &all));
    assert_eq!(shell.service.state, ServiceState::Waiting);
}

#[test]
fn failed_spawn_marks_service_failed() {
    let all = system();
    let mut fs = all[0];
    assert!(try_start_service(&mut fs, &all));
    finish_start(&mut fs, Err(0));
    assert_eq!(fs.service.state, ServiceState::Failed);
}

#[test]
fn try_start_leaves_running_service_alone() {
    let all = system();
    let mut fs = all[0];
    fs.service.state = ServiceState::Running(TaskId(3));
    assert!(!try_start_service(&mut fs, &all));
    assert_eq!(fs.service.state, ServiceState::Running(TaskId(3)));
}
