//! Task identifiers and the meaning of raw system call results.

pub mod sys_const;

use vstd::prelude::*;
use crate::text::{decimal_text, decimal_value, lemma_decimal_text, push_decimal};

verus! {

/// Identifier of a kernel task.
#[derive(Debug, Clone, Copy, PartialEq, Eq, Structural)]
pub struct TaskId(pub u64);

impl TaskId {
    /// How a task identifier is shown: `Task(` and the number, then `)`.
    pub open spec fn spec_describe(self) -> Seq<char> {
        "Task("@ + decimal_text(self.0 as nat) + ")"@
    }

    /// The shown identifier is `Task(`, the decimal digits of the number
    /// (which spell it back), and `)`.
    pub proof fn lemma_describe(self)
        ensures
            self.spec_describe().len() >= 7,
            self.spec_describe().subrange(0, 5) == seq!['T', 'a', 's', 'k', '('],
            self.spec_describe().last() == ')',
            decimal_value(self.spec_describe().subrange(5, self.spec_describe().len() - 1)) == self.0,
    {
        reveal_strlit("Task(");
        reveal_strlit(")");
        lemma_decimal_text(self.0 as nat);
        let d = self.spec_describe();
        assert(d.subrange(0, 5) =~= seq!['T', 'a', 's', 'k', '(']);
        assert(d.subrange(5, d.len() - 1) =~= decimal_text(self.0 as nat));
    }

    /// Shows the identifier, as in `Task(7)`.
    pub fn describe(&self) -> (text: String)
        ensures
            text@ == self.spec_describe(),
    {
        let mut text = String::from_str("Task(");
        push_decimal(&mut text, self.0);
        text.append(")");
        text
    }
}

/// The result that a task-returning system call stands for: a positive raw
/// value names a task, any other value is the error code.
pub open spec fn spec_task_result(raw: u64) -> Result<TaskId, u64> {
    if raw > 0 {
        Ok(TaskId(raw))
    } else {
        Err(raw)
    }
}

/// Interprets the raw value returned by `SYSCALL_TASK_SPAWN` or
/// `SYSCALL_TASK_WAIT`.
pub fn task_result(raw: u64) -> (res: Result<TaskId, u64>)
    ensures
        res == spec_task_result(raw),
{
    if raw > 0 {
        Ok(TaskId(raw))
    } else {
        Err(raw)
    }
}

/// A positive raw result is the task it names; zero is the error 0.
pub proof fn lemma_task_result(raw: u64)
    ensures
        raw > 0 ==> spec_task_result(raw) == Ok::<TaskId, u64>(TaskId(raw)),
        raw == 0 ==> spec_task_result(raw) == Err::<TaskId, u64>(0),
        spec_task_result(raw) is Ok <==> raw != 0,
{
}

/// The task argument of `SYSCALL_TASK_WAIT`: `0` waits for any task.
pub open spec fn spec_wait_target(task_id: Option<TaskId>) -> u64 {
    match task_id {
        Some(id) => id.0,
        None => 0,
    }
}

/// Waiting for no particular task asks for task 0; waiting for a task asks
/// for its number.
pub proof fn lemma_wait_target(task_id: TaskId)
    ensures
        spec_wait_target(None) == 0,
        spec_wait_target(Some(task_id)) == task_id.0,
{
}

/// Computes the task argument handed to `SYSCALL_TASK_WAIT`.
pub fn wait_target(task_id: Option<TaskId>) -> (target: u64)
    ensures
        target == spec_wait_target(task_id),
{
    match task_id {
        Some(id) => id.0,
        None => 0,
    }
}

} // verus!
