use vstd::prelude::*;

use crate::stack_allocator::Stack;
use crate::task_context::TaskContext;

verus! {

/// Task ID for the system idle task.
pub const TID_SYSTEMIDLE: u32 = 0;

/// Task ID for the bottom-half processing daemon.
pub const TID_BOTTOMHALFD: u32 = 1;

/// Status of a kernel task.
#[derive(Clone, Copy, Debug, PartialEq, Eq, Structural)]
pub enum TaskStatus {
    /// Task is ready to run or running.
    READY,
    /// Task is waiting and should not yet run.
    WAITING,
    /// Task is completed and ready to be destroyed.
    COMPLETED,
}

/// Priority of a kernel task.
#[derive(Clone, Copy, Debug, PartialEq, Eq, Structural)]
pub enum TaskPriority {
    /// Highest priority, meant for interrupt handlers.
    IRQ,
    /// Normal priority, meant for all other kernel tasks.
    NORMAL,
}

/// A task to be run by the kernel: a kernel thread with its own stack and
/// saved register context.
#[derive(Clone, Copy, Debug)]
pub struct Task {
    /// Unique, monotonically assigned id.
    pub id: u32,
    /// Saved register snapshot; restored when the task is resumed.
    pub context: TaskContext,
    /// Scheduling status.
    pub status: TaskStatus,
    /// Scheduling priority class.
    pub priority: TaskPriority,
    /// The stack the task runs on.
    pub stack: Stack,
}

impl Task {
    /// Create a new Task with id `id`, status `READY`, priority `NORMAL`, an
    /// all-zero context and no stack of its own.  This is the shape of the
    /// synthetic system-idle task, which runs on the boot stack.
    pub fn default(id: u32) -> (r: Task)
        ensures
            r.id == id,
            r.context == TaskContext::zeroed(),
            r.status == TaskStatus::READY,
            r.priority == TaskPriority::NORMAL,
            r.stack == (Stack { start_address: 0, size: 0 }),
    {
        Task {
            id,
            context: TaskContext::new(),
            status: TaskStatus::READY,
            priority: TaskPriority::NORMAL,
            stack: Stack { start_address: 0, size: 0 },
        }
    }

    /// Create a new task with a stack and an entry address to run.
    ///
    /// The code segment and flags registers are hardcoded with working
    /// values, the stack pointer starts at the stack's top, and the
    /// instruction pointer is set to `entry_point` — the address of the
    /// kernel's task trampoline, so that resuming the task starts executing
    /// there.
    pub fn new(id: u32, stack: Stack, entry_point: u64, priority: TaskPriority,
        status: TaskStatus) -> (r: Task)
        requires
            stack.size <= stack.start_address,
        ensures
            r.id == id,
            r.stack == stack,
            r.priority == priority,
            r.status == status,
            r.context == (TaskContext {
                cs: 8,
                rflags: 582,
                rsp: (stack.start_address - stack.size) as u64,
                rip: entry_point,
                ..TaskContext::zeroed()
            }),
    {
        let mut context = TaskContext::new();
        context.cs = 8;
        context.rflags = 582;
        context.rsp = stack.top() as u64;
        context.rip = entry_point;

        Task { id, context, status, priority, stack }
    }

    /// Replace the saved register context with `snapshot`.
    pub fn set_context(&mut self, snapshot: &TaskContext)
        ensures
            *final(self) == (Task { context: *snapshot, ..*old(self) }),
    {
        self.context = *snapshot;
    }

    /// Return an immutable reference to the saved register context.
    pub fn get_context(&self) -> (r: &TaskContext)
        ensures
            *r == self.context,
    {
        &self.context
    }

    /// Set the scheduling status.
    pub fn set_status(&mut self, status: TaskStatus)
        ensures
            *final(self) == (Task { status, ..*old(self) }),
    {
        self.status = status;
    }

    /// Return the current task status.
    pub fn get_status(&self) -> (r: TaskStatus)
        ensures
            r == self.status,
    {
        self.status
    }

    /// Return the current task priority.
    pub fn get_priority(&self) -> (r: TaskPriority)
        ensures
            r == self.priority,
    {
        self.priority
    }

    /// Return the id of the task.
    pub fn id(&self) -> (r: u32)
        ensures
            r == self.id,
    {
        self.id
    }
}

} // verus!
