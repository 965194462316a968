use sahnemd::resource::{resource_result, ResourceError, ResourceHandle};
use sahnemd::syscalls::{task_result, wait_target, TaskId};

#[test]
fn resource_results() {
    assert_eq!(resource_result(9), Ok(ResourceHandle(9)));
    assert_eq!(resource_result(0), Err(ResourceError::IoError(0)));
}

#[test]
fn resource_error_messages() {
    assert_eq!(ResourceError::InvalidHandle.message(), "Geçersiz Kaynak Tanıtıcısı");
    assert_eq!(ResourceError::NotFound.message(), "Kaynak Bulunamadı");
    assert_eq!(ResourceError::PermissionDenied.message(), "Erişim Reddedildi");
    assert_eq!(ResourceError::IoError(0).message(), "I/O Hatası (0)");
    assert_eq!(ResourceError::IoError(1207).message(), "I/O Hatası (1207)");
    assert_eq!(ResourceError::IoError(u64::MAX).message(), "I/O Hatası (18446744073709551615)");
}

#[test]
fn task_results() {
    assert_eq!(task_result(12), Ok(TaskId(12)));
    assert_eq!(task_result(0), Err(0));
    assert_eq!(task_result(u64::MAX), Ok(TaskId(u64::MAX)));
}

#[test]
fn wait_targets() {
    assert_eq!(wait_target(None), 0);
    assert_eq!(wait_target(Some(TaskId(31))), 31);
}

#[test]
fn task_descriptions() {
    assert_eq!(TaskId(7).describe(), "Task(7)");
    assert_eq!(TaskId(0).describe(), "Task(0)");
    assert_eq!(TaskId(1000).describe(), "Task(1000)");
}
