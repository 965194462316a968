//! System call numbers of the Sahne64 kernel.

use vstd::prelude::*;

verus! {

pub const SYSCALL_RESOURCE_ACQUIRE: u64 = 5;
pub const SYSCALL_RESOURCE_RELEASE: u64 = 8;
pub const SYSCALL_TASK_SPAWN: u64 = 3;
pub const SYSCALL_TASK_EXIT: u64 = 4;
pub const SYSCALL_GET_TASK_ID: u64 = 9;
pub const SYSCALL_TASK_SLEEP: u64 = 10;
pub const SYSCALL_GET_SYSTEM_TIME: u64 = 16;
pub const SYSCALL_TASK_YIELD: u64 = 101;
pub const SYSCALL_TASK_WAIT: u64 = 105;
pub const SYSCALL_CHANNEL_CREATE: u64 = 106;
pub const SYSCALL_CHANNEL_RECEIVE: u64 = 109;

} // verus!
