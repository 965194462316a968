use sahnemd::service::{RestartPolicy, Service, ServiceState};
use sahnemd::syscalls::TaskId;

fn sample() -> Service {
    Service::new("filesys", "/bin/fs_driver", &[], RestartPolicy::OnFailure)
}

#[test]
fn new_service_is_stopped_and_may_start_at_once() {
    let s = Service::new("sahne_shell", "/bin/sh", &["-i"], RestartPolicy::Always);
    assert_eq!(s.name, "sahne_shell");
    assert_eq!(s.path, "/bin/sh");
    assert_eq!(s.args, &["-i"]);
    assert_eq!(s.state, ServiceState::Stopped);
    assert_eq!(s.restart_policy, RestartPolicy::Always);
    assert_eq!(s.restart_count, 0);
    assert_eq!(s.next_start_time, 0);
}

#[test]
fn backoff_doubles_then_caps_at_sixteen_seconds() {
    let mut s = sample();
    let expected = [1000u64, 2000, 4000, 8000, 16000, 16000, 16000];
    for (n, delay) in expected.iter().enumerate() {
        s.set_backoff(500);
        assert_eq!(s.restart_count, (n + 1) as u32);
        assert_eq!(s.next_start_time, 500 + delay);
    }
}

#[test]
fn reset_restart_count_makes_the_next_backoff_one_second() {
    let mut s = sample();
    s.set_backoff(0);
    s.set_backoff(0);
    s.set_backoff(0);
    assert_eq!(s.next_start_time, 4000);
    s.reset_restart_count();
    assert_eq!(s.restart_count, 0);
    assert_eq!(s.next_start_time, 4000);
    s.set_backoff(10_000);
    assert_eq!(s.restart_count, 1);
    assert_eq!(s.next_start_time, 11_000);
}

#[test]
fn backoff_time_saturates() {
    let mut s = sample();
    s.set_backoff(u64::MAX - 10);
    assert_eq!(s.next_start_time, u64::MAX);
}

#[test]
fn restart_count_saturates() {
    let mut s = sample();
    s.restart_count = u32::MAX;
    s.set_backoff(7);
    assert_eq!(s.restart_count, u32::MAX);
    assert_eq!(s.next_start_time, 16_007);
}

#[test]
fn backoff_keeps_the_other_fields() {
    let mut s = sample();
    s.state = ServiceState::Failed;
    s.set_backoff(1);
    assert_eq!(s.name, "filesys");
    assert_eq!(s.path, "/bin/fs_driver");
    assert_eq!(s.state, ServiceState::Failed);
    assert_eq!(s.restart_policy, RestartPolicy::OnFailure);
}

#[test]
fn state_after_spawn_and_exit() {
    assert_eq!(ServiceState::after_spawn(Ok(TaskId(4))), ServiceState::Running(TaskId(4)));
    assert_eq!(ServiceState::after_spawn(Err(0)), ServiceState::Failed);
    assert_eq!(ServiceState::after_exit(0), ServiceState::Stopped);
    assert_eq!(ServiceState::after_exit(3), ServiceState::Failed);
}
