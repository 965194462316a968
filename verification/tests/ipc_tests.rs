use sahnemd::ipc::{channel_result, control_message, read_u64_le, received_message, ChannelHandle, ControlMessage};
use sahnemd::syscalls::TaskId;

fn buffer(command: u64, arg: u64) -> [u8; 16] {
    let mut b = [0u8; 16];
    b[0..8].copy_from_slice(&command.to_le_bytes());
    b[8..16].copy_from_slice(&arg.to_le_bytes());
    b
}

#[test]
fn channel_results() {
    assert_eq!(channel_result(3), Ok(ChannelHandle(3)));
    assert_eq!(channel_result(0), Err(0));
}

#[test]
fn command_ids() {
    assert_eq!(control_message(1, 5), ControlMessage::Shutdown);
    assert_eq!(control_message(2, 5), ControlMessage::RestartService(TaskId(5)));
    assert_eq!(control_message(3, 5), ControlMessage::RequestStatus);
    assert_eq!(control_message(4, 6), ControlMessage::StopService(TaskId(6)));
    assert_eq!(control_message(0, 6), ControlMessage::Unknown);
    assert_eq!(control_message(5, 6), ControlMessage::Unknown);
}

#[test]
fn little_endian_reads() {
    let b = buffer(0x0102_0304_0506_0708, u64::MAX);
    assert_eq!(read_u64_le(&b, 0), 0x0102_0304_0506_0708);
    assert_eq!(read_u64_le(&b, 8), u64::MAX);
    assert_eq!(read_u64_le(&b, 4), 0xffff_ffff_0102_0304);
}

#[test]
fn received_messages() {
    assert_eq!(received_message(16, &buffer(2, 42)), Ok(ControlMessage::RestartService(TaskId(42))));
    assert_eq!(received_message(16, &buffer(4, 43)), Ok(ControlMessage::StopService(TaskId(43))));
    assert_eq!(received_message(1, &buffer(1, 0)), Ok(ControlMessage::Shutdown));
    assert_eq!(received_message(1, &buffer(77, 0)), Ok(ControlMessage::Unknown));
}

#[test]
fn receive_errors() {
    assert_eq!(received_message(0, &buffer(1, 0)), Err(0));
    let negative = (-5i64) as u64;
    assert_eq!(received_message(negative, &buffer(1, 0)), Err(negative));
    assert_eq!(received_message(1 << 63, &buffer(1, 0)), Err(1 << 63));
    assert_eq!(received_message((1 << 63) - 1, &buffer(3, 0)), Ok(ControlMessage::RequestStatus));
}
