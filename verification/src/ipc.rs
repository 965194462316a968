//! The init system's control channel: handles and control messages.

use vstd::prelude::*;
use crate::syscalls::TaskId;

verus! {

/// Size in bytes of a received control message: a little-endian command
/// id followed by a little-endian argument.
pub const RECEIVE_BUFFER_LEN: usize = 16;

/// Flag of `SYSCALL_CHANNEL_RECEIVE` that asks for a non-blocking receive.
pub const RECEIVE_NON_BLOCKING: u64 = 100;

/// Handle of an IPC channel.
#[derive(Debug, Clone, Copy, PartialEq, Eq, Structural)]
pub struct ChannelHandle(pub u64);

/// Management commands that the init system expects to receive.
#[derive(Debug, Clone, Copy, PartialEq, Eq, Structural)]
pub enum ControlMessage {
    /// Shut the system down gracefully.
    Shutdown,
    /// Restart the given task.
    RestartService(TaskId),
    /// Ask for the state of every service.
    RequestStatus,
    /// Stop the given task.
    StopService(TaskId),
    /// A command that is not recognised.
    Unknown,
}

/// The channel that a raw `SYSCALL_CHANNEL_CREATE` result stands for: a
/// positive value is the handle, any other value is the error code.
pub open spec fn spec_channel_result(raw: u64) -> Result<ChannelHandle, u64> {
    if raw > 0 {
        Ok(ChannelHandle(raw))
    } else {
        Err(raw)
    }
}

/// A positive raw result is the channel handle; zero is the error 0.
pub proof fn lemma_channel_result(raw: u64)
    ensures
        raw > 0 ==> spec_channel_result(raw) == Ok::<ChannelHandle, u64>(ChannelHandle(raw)),
        raw == 0 ==> spec_channel_result(raw) == Err::<ChannelHandle, u64>(0),
{
}

/// Interprets the raw result of `SYSCALL_CHANNEL_CREATE`.
pub fn channel_result(raw: u64) -> (res: Result<ChannelHandle, u64>)
    ensures
        res == spec_channel_result(raw),
{
    if raw > 0 {
        Ok(ChannelHandle(raw))
    } else {
        Err(raw)
    }
}

/// The command that a command id and its argument stand for.
pub open spec fn spec_control_message(command_id: u64, arg: u64) -> ControlMessage {
    if command_id == 1 {
        ControlMessage::Shutdown
    } else if command_id == 2 {
        ControlMessage::RestartService(TaskId(arg))
    } else if command_id == 3 {
        ControlMessage::RequestStatus
    } else if command_id == 4 {
        ControlMessage::StopService(TaskId(arg))
    } else {
        ControlMessage::Unknown
    }
}

/// Command 1 shuts down and 3 asks for the status whatever the argument;
/// commands 2 and 4 restart and stop the task that the argument names, for
/// every argument; every other command is unknown.
pub proof fn lemma_control_message(command_id: u64, arg: u64)
    ensures
        spec_control_message(1, arg) == ControlMessage::Shutdown,
        spec_control_message(2, arg) == ControlMessage::RestartService(TaskId(arg)),
        spec_control_message(3, arg) == ControlMessage::RequestStatus,
        spec_control_message(4, arg) == ControlMessage::StopService(TaskId(arg)),
        (command_id == 0 || command_id > 4) ==> spec_control_message(command_id, arg)
            == ControlMessage::Unknown,
{
}

/// Decodes a command id and its argument: 1 shuts down, 2 restarts the
/// task `arg`, 3 asks for the status, 4 stops the task `arg`; any other id
/// is unknown.
pub fn control_message(command_id: u64, arg: u64) -> (msg: ControlMessage)
    ensures
        msg == spec_control_message(command_id, arg),
{
    match command_id {
        1 => ControlMessage::Shutdown,
        2 => ControlMessage::RestartService(TaskId(arg)),
        3 => ControlMessage::RequestStatus,
        4 => ControlMessage::StopService(TaskId(arg)),
        _ => ControlMessage::Unknown,
    }
}

/// The number whose little-endian bytes are `bytes`.
pub open spec fn le_value(bytes: Seq<u8>) -> nat
    decreases bytes.len(),
{
    if bytes.len() == 0 {
        0
    } else {
        (bytes[0] + 256 * le_value(bytes.drop_first())) as nat
    }
}

/// Eight little-endian bytes stand for `b0 + 2^8 b1 + ... + 2^56 b7`.
pub proof fn lemma_le_value_eight(bytes: Seq<u8>)
    requires
        bytes.len() == 8,
    ensures
        le_value(bytes) == bytes[0] + 0x100 * bytes[1] + 0x1_0000 * bytes[2] + 0x100_0000 * bytes[3]
            + 0x1_0000_0000 * bytes[4] + 0x100_0000_0000 * bytes[5] + 0x1_0000_0000_0000 * bytes[6]
            + 0x100_0000_0000_0000 * bytes[7],
{
    reveal_with_fuel(le_value, 9);
    let s1 = bytes.drop_first();
    let s2 = s1.drop_first();
    let s3 = s2.drop_first();
    let s4 = s3.drop_first();
    let s5 = s4.drop_first();
    let s6 = s5.drop_first();
    let s7 = s6.drop_first();
    let s8 = s7.drop_first();
    assert(s8.len() == 0);
    assert(le_value(s7) == bytes[7]);
    assert(le_value(s6) == bytes[6] + 256 * bytes[7]);
    assert(le_value(s5) == bytes[5] + 256 * le_value(s6));
    assert(le_value(s4) == bytes[4] + 256 * le_value(s5));
    assert(le_value(s3) == bytes[3] + 256 * le_value(s4));
    assert(le_value(s2) == bytes[2] + 256 * le_value(s3));
    assert(le_value(s1) == bytes[1] + 256 * le_value(s2));
    assert(le_value(bytes) == bytes[0] + 256 * le_value(s1));
}

/// A received message is an error exactly when the raw result is 0 or is
/// negative as a signed number; 0 gives the error 0, a negative result is
/// its own error code, and otherwise the command id and its argument are
/// read little-endian from the first and second eight bytes.
pub proof fn lemma_received_message(raw: u64, buffer: Seq<u8>)
    ensures
        raw == 0 ==> spec_received_message(raw, buffer) == Err::<ControlMessage, u64>(0),
        raw >= 0x8000_0000_0000_0000 ==> spec_received_message(raw, buffer) == Err::<
            ControlMessage,
            u64,
        >(raw),
        0 < raw < 0x8000_0000_0000_0000 ==> spec_received_message(raw, buffer) == Ok::<
            ControlMessage,
            u64,
        >(
            spec_control_message(
                le_value(buffer.subrange(0, 8)) as u64,
                le_value(buffer.subrange(8, 16)) as u64,
            ),
        ),
{
}

/// `256^k`.
pub open spec fn pow256(k: nat) -> nat
    decreases k,
{
    if k == 0 {
        1
    } else {
        256 * pow256((k - 1) as nat)
    }
}

/// Reads the little-endian `u64` stored in `buffer[start..start + 8]`.
pub fn read_u64_le(buffer: &[u8; 16], start: usize) -> (value: u64)
    requires
        start + 8 <= 16,
    ensures
        value == le_value(buffer@.subrange(start as int, start + 8)),
{
    let end: usize = start + 8;
    let mut acc: u64 = 0;
    let mut i: usize = end;
    proof {
        reveal_with_fuel(pow256, 9);
        assert(buffer@.subrange(end as int, end as int) =~= Seq::<u8>::empty());
    }
    while i > start
        invariant
            end == start + 8,
            end <= 16,
            buffer@.len() == 16,
            start <= i <= end,
            acc == le_value(buffer@.subrange(i as int, end as int)),
            acc < pow256((end - i) as nat),
            pow256(7) == 0x100_0000_0000_0000,
            forall|k: nat| k <= 7 ==> #[trigger] pow256(k + 1) == 256 * pow256(k),
            forall|k: nat| k <= 7 ==> #[trigger] pow256(k) <= pow256(7),
        decreases i - start,
    {
        i = i - 1;
        proof {
            let rest = buffer@.subrange(i as int, end as int);
            assert(rest.drop_first() =~= buffer@.subrange(i + 1, end as int));
            assert(pow256((end - (i + 1)) as nat) <= pow256(7));
        }
        acc = acc * 256 + buffer[i] as u64;
    }
    acc
}

/// The message that a raw `SYSCALL_CHANNEL_RECEIVE` result and the filled
/// buffer stand for: 0 means no data (error 0), a value that is negative as
/// a signed number is an error code, any other value means the buffer holds
/// a command id (bytes 0..8) and its argument (bytes 8..16).
pub open spec fn spec_received_message(raw: u64, buffer: Seq<u8>) -> Result<ControlMessage, u64> {
    if raw == 0 {
        Err(0)
    } else if raw >= 0x8000_0000_0000_0000 {
        Err(raw)
    } else {
        Ok(
            spec_control_message(
                le_value(buffer.subrange(0, 8)) as u64,
                le_value(buffer.subrange(8, 16)) as u64,
            ),
        )
    }
}

/// Interprets the result of a non-blocking `SYSCALL_CHANNEL_RECEIVE`
/// together with the buffer that it filled.
pub fn received_message(raw: u64, buffer: &[u8; 16]) -> (res: Result<ControlMessage, u64>)
    ensures
        res == spec_received_message(raw, buffer@),
{
    if raw == 0 {
        return Err(0);
    } else if raw >= 0x8000_0000_0000_0000 {
        return Err(raw);
    }
    let command_id = read_u64_le(buffer, 0);
    let arg1 = read_u64_le(buffer, 8);
    Ok(control_message(command_id, arg1))
}

} // verus!
