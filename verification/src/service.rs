//! Services managed by the init system, their states and restart backoff.

use vstd::prelude::*;
use vstd::arithmetic::power2::{pow2, lemma_pow2_unfold, lemma2_to64};
use crate::syscalls::TaskId;

verus! {

/// What the supervisor does when a service's task ends.
#[derive(Debug, Clone, Copy, PartialEq, Eq, Structural)]
pub enum RestartPolicy {
    Always,
    OnFailure,
    Never,
}

/// Life-cycle state of a service.
#[derive(Debug, Clone, Copy, PartialEq, Eq, Structural)]
pub enum ServiceState {
    Stopped,
    Starting,
    Running(TaskId),
    Failed,
    Waiting,
}

impl ServiceState {
    /// A service in this state has a task that runs.
    pub open spec fn is_running(self) -> bool {
        self is Running
    }

    /// A service in this state is one the supervisor tries to start.
    pub open spec fn is_startable(self) -> bool {
        self is Stopped || self is Waiting
    }

    /// The state a service takes once its spawn request was answered.
    pub open spec fn spec_after_spawn(result: Result<TaskId, u64>) -> ServiceState {
        match result {
            Ok(task_id) => ServiceState::Running(task_id),
            Err(_) => ServiceState::Failed,
        }
    }

    /// State of a service after the kernel answered its spawn request:
    /// running under the new task, or failed.
    pub fn after_spawn(result: Result<TaskId, u64>) -> (state: ServiceState)
        ensures
            state == Self::spec_after_spawn(result),
    {
        match result {
            Ok(task_id) => ServiceState::Running(task_id),
            Err(_) => ServiceState::Failed,
        }
    }

    /// The state of a service whose task ended with `exit_status`.
    pub open spec fn spec_after_exit(exit_status: u64) -> ServiceState {
        if exit_status == 0 {
            ServiceState::Stopped
        } else {
            ServiceState::Failed
        }
    }

    /// State of a service whose task ended: stopped on a zero exit status,
    /// failed on any other.
    pub fn after_exit(exit_status: u64) -> (state: ServiceState)
        ensures
            state == Self::spec_after_exit(exit_status),
    {
        if exit_status == 0 {
            ServiceState::Stopped
        } else {
            ServiceState::Failed
        }
    }
}

/// The supervisor tries to start exactly the stopped and the waiting
/// services: a service held back by its dependencies is tried again, and a
/// starting, running or failed one is not.
pub proof fn lemma_startable_states(task_id: TaskId)
    ensures
        ServiceState::Stopped.is_startable(),
        ServiceState::Waiting.is_startable(),
        !ServiceState::Starting.is_startable(),
        !ServiceState::Running(task_id).is_startable(),
        !ServiceState::Failed.is_startable(),
        ServiceState::Running(task_id).is_running(),
        !ServiceState::Stopped.is_running(),
        !ServiceState::Waiting.is_running(),
        !ServiceState::Starting.is_running(),
        !ServiceState::Failed.is_running(),
{
}

/// A successful spawn runs the service under the task the kernel gave; any
/// spawn error fails it.
pub proof fn lemma_after_spawn(task_id: TaskId, error: u64)
    ensures
        ServiceState::spec_after_spawn(Ok(task_id)) == ServiceState::Running(task_id),
        ServiceState::spec_after_spawn(Err(error)) == ServiceState::Failed,
{
}

/// A task that ends with exit status 0 leaves its service stopped; any
/// other exit status leaves it failed.
pub proof fn lemma_after_exit(exit_status: u64)
    ensures
        (ServiceState::spec_after_exit(exit_status) == ServiceState::Stopped) <==> exit_status == 0,
        exit_status != 0 ==> ServiceState::spec_after_exit(exit_status) == ServiceState::Failed,
        ServiceState::spec_after_exit(exit_status) == ServiceState::Stopped
            || ServiceState::spec_after_exit(exit_status) == ServiceState::Failed,
{
}

/// Basic definition of a service managed by the init system.
#[derive(Debug, Clone, Copy)]
pub struct Service {
    pub name: &'static str,
    pub path: &'static str,
    pub args: &'static [&'static str],
    pub state: ServiceState,
    pub restart_policy: RestartPolicy,
    /// How many times the service has been restarted.
    pub restart_count: u32,
    /// Earliest time (milliseconds) at which the service may be started again.
    pub next_start_time: u64,
}

/// `a + b`, held at `u64::MAX` where it would exceed it.
pub open spec fn saturating_add_u64(a: u64, b: nat) -> u64 {
    if a + b > u64::MAX {
        u64::MAX
    } else {
        (a + b) as u64
    }
}

/// `a + 1`, held at `u32::MAX` where it would exceed it.
pub open spec fn saturating_inc_u32(a: u32) -> u32 {
    if a == u32::MAX {
        u32::MAX
    } else {
        (a + 1) as u32
    }
}

/// Backoff delay in milliseconds after the `restart_count`-th restart
/// (counted from 1): 1000 ms doubled with each restart, up to the fifth.
pub open spec fn backoff_delay_ms(restart_count: u32) -> nat {
    let capped: int = if restart_count < 5 { restart_count as int } else { 5 };
    1000 * pow2((capped - 1) as nat)
}

/// `2^e` for small exponents.
fn power_of_two(e: u32) -> (p: u64)
    requires
        e <= 4,
    ensures
        p == pow2(e as nat),
        p <= 16,
{
    let mut p: u64 = 1;
    let mut i: u32 = 0;
    proof {
        lemma2_to64();
    }
    while i < e
        invariant
            i <= e,
            e <= 4,
            p == pow2(i as nat),
            pow2(0) == 1 && pow2(1) == 2 && pow2(2) == 4 && pow2(3) == 8 && pow2(4) == 16,
        decreases e - i,
    {
        proof {
            lemma_pow2_unfold((i + 1) as nat);
        }
        p = p * 2;
        i = i + 1;
    }
    p
}

/// Saturating addition is plain addition until the sum passes `u64::MAX`,
/// and only then is held there.
pub proof fn lemma_saturating_add(a: u64, b: nat)
    ensures
        a + b <= u64::MAX ==> saturating_add_u64(a, b) == a + b,
        a + b > u64::MAX ==> saturating_add_u64(a, b) == u64::MAX,
        saturating_add_u64(a, b) >= a,
{
}

/// Counting a restart adds one, held at `u32::MAX`.
pub proof fn lemma_saturating_inc(a: u32)
    ensures
        a < u32::MAX ==> saturating_inc_u32(a) == a + 1,
        a == u32::MAX ==> saturating_inc_u32(a) == u32::MAX,
{
}

/// The earliest restart time is exactly `current_time` plus the backoff
/// whenever that sum fits in a `u64`.
pub proof fn lemma_backoff_time_exact(current_time: u64, restart_count: u32)
    requires
        current_time + backoff_delay_ms(restart_count) <= u64::MAX,
    ensures
        saturating_add_u64(current_time, backoff_delay_ms(restart_count)) == current_time
            + backoff_delay_ms(restart_count),
{
}

/// The backoff after the first five restarts is 1, 2, 4, 8 and 16 seconds,
/// and 16 seconds after any later one.
pub proof fn lemma_backoff_values(restart_count: u32)
    ensures
        backoff_delay_ms(1) == 1000,
        backoff_delay_ms(2) == 2000,
        backoff_delay_ms(3) == 4000,
        backoff_delay_ms(4) == 8000,
        restart_count >= 5 ==> backoff_delay_ms(restart_count) == 16000,
{
    lemma2_to64();
}

/// The backoff doubles with each restart up to the fifth: 1000, 2000,
/// 4000, 8000 and 16000 ms.
pub proof fn lemma_backoff_doubles(restart_count: u32)
    requires
        1 <= restart_count < 5,
    ensures
        backoff_delay_ms((restart_count + 1) as u32) == 2 * backoff_delay_ms(restart_count),
{
    lemma_pow2_unfold(restart_count as nat);
}

/// The backoff after any restart lies between one and sixteen seconds, and
/// is sixteen seconds from the fifth restart on.
pub proof fn lemma_backoff_bounds(restart_count: u32)
    requires
        restart_count >= 1,
    ensures
        1000 <= backoff_delay_ms(restart_count) <= 16000,
        restart_count >= 5 ==> backoff_delay_ms(restart_count) == 16000,
        restart_count == 1 ==> backoff_delay_ms(restart_count) == 1000,
{
    lemma2_to64();
}

/// The backoff never shrinks as restarts accumulate.
pub proof fn lemma_backoff_monotone(a: u32, b: u32)
    requires
        1 <= a <= b,
    ensures
        backoff_delay_ms(a) <= backoff_delay_ms(b),
{
    lemma2_to64();
}

/// After the restart counter was reset, the next backoff is one second
/// past the current time (held at `u64::MAX`).
pub proof fn lemma_backoff_after_reset(current_time: u64)
    ensures
        saturating_inc_u32(0) == 1,
        saturating_add_u64(current_time, backoff_delay_ms(saturating_inc_u32(0))) == saturating_add_u64(
            current_time,
            1000,
        ),
{
    lemma2_to64();
}

/// A backoff never moves the earliest start time before the current time.
pub proof fn lemma_backoff_not_before_now(current_time: u64, restart_count: u32)
    ensures
        saturating_add_u64(current_time, backoff_delay_ms(restart_count)) >= current_time,
{
}

impl Service {
    /// A stopped service that has not been restarted and may start at once.
    pub fn new(
        name: &'static str,
        path: &'static str,
        args: &'static [&'static str],
        restart_policy: RestartPolicy,
    ) -> (s: Self)
        ensures
            s.name == name,
            s.path == path,
            s.args == args,
            s.state == ServiceState::Stopped,
            s.restart_policy == restart_policy,
            s.restart_count == 0,
            s.next_start_time == 0,
    {
        Service {
            name,
            path,
            args,
            state: ServiceState::Stopped,
            restart_policy,
            restart_count: 0,
            next_start_time: 0,
        }
    }

    /// Resets the restart counter.
    pub fn reset_restart_count(&mut self)
        ensures
            *final(self) == (Service { restart_count: 0, ..*old(self) }),
    {
        self.restart_count = 0;
    }

    /// Sets the backoff after a failed start or run: counts one more restart
    /// and moves the earliest start time to `current_time` plus the delay
    /// for that count (1000, 2000, 4000, 8000 ms, then 16000 ms from the
    /// fifth restart on).
    pub fn set_backoff(&mut self, current_time: u64)
        ensures
            final(self).restart_count == saturating_inc_u32(old(self).restart_count),
            final(self).next_start_time == saturating_add_u64(
                current_time,
                backoff_delay_ms(final(self).restart_count),
            ),
            *final(self) == (Service {
                restart_count: final(self).restart_count,
                next_start_time: final(self).next_start_time,
                ..*old(self)
            }),
    {
        self.restart_count = self.restart_count.saturating_add(1);
        let capped: u32 = if self.restart_count < 5 { self.restart_count } else { 5 };
        let delay_ms: u64 = 1000 * power_of_two(capped - 1);
        self.next_start_time = current_time.saturating_add(delay_ms);
    }
}

} // verus!
