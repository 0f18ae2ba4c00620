use vstd::prelude::*;

use crate::memory_manager::MemoryManager;
use crate::rtc::Clock;
use crate::stack_allocator::{find_stack, lemma_find_stack, Stack, StackAllocator};
use crate::task::{Task, TaskPriority, TaskStatus, TID_BOTTOMHALFD, TID_SYSTEMIDLE};
use crate::task_context::TaskContext;

verus! {

/// Ticks a task may run before the scheduler reconsiders who should run.
pub const THREAD_QUANTUM: usize = 10;

/// A task eligible to run in the given priority class.
pub open spec fn is_ready(t: Task, priority: TaskPriority) -> bool {
    t.priority == priority && t.status == TaskStatus::READY
}

/// Index of the first READY task of the given priority, if any: tasks are
/// serviced in the order they stand in the list.
pub open spec fn find_ready(s: Seq<Task>, priority: TaskPriority) -> Option<int>
    decreases s.len(),
{
    if s.len() == 0 {
        None
    } else if is_ready(s[0], priority) {
        Some(0int)
    } else {
        match find_ready(s.drop_first(), priority) {
            None => None,
            Some(i) => Some(i + 1),
        }
    }
}

/// `find_ready` returns the least index of a ready task of the class, and
/// `None` exactly when the class has none ready.
pub proof fn lemma_find_ready(s: Seq<Task>, priority: TaskPriority)
    ensures
        match find_ready(s, priority) {
            None => forall|j: int| 0 <= j < s.len() ==> !is_ready(s[j], priority),
            Some(i) => 0 <= i < s.len() && is_ready(s[i], priority) && forall|j: int|
                0 <= j < i ==> !is_ready(s[j], priority),
        },
    decreases s.len(),
{
    if s.len() > 0 && !is_ready(s[0], priority) {
        lemma_find_ready(s.drop_first(), priority);
        match find_ready(s.drop_first(), priority) {
            None => {
                assert forall|j: int| 0 <= j < s.len() implies !is_ready(s[j], priority) by {
                    if j > 0 {
                        assert(!is_ready(s.drop_first()[j - 1], priority));
                        assert(s.drop_first()[j - 1] == s[j]);
                    }
                }
            },
            Some(i) => {
                assert(s.drop_first()[i] == s[i + 1]);
                assert forall|j: int| 0 <= j < i + 1 implies !is_ready(s[j], priority) by {
                    if j > 0 {
                        assert(!is_ready(s.drop_first()[j - 1], priority));
                        assert(s.drop_first()[j - 1] == s[j]);
                    }
                }
            },
        }
    }
}

/// Index of the first task with the given id, if any.
pub open spec fn find_task(s: Seq<Task>, id: u32) -> Option<int>
    decreases s.len(),
{
    if s.len() == 0 {
        None
    } else if s[0].id == id {
        Some(0int)
    } else {
        match find_task(s.drop_first(), id) {
            None => None,
            Some(i) => Some(i + 1),
        }
    }
}

/// `find_task` returns the least index of a task with the id, and `None`
/// exactly when no task has it.
pub proof fn lemma_find_task(s: Seq<Task>, id: u32)
    ensures
        match find_task(s, id) {
            None => forall|j: int| 0 <= j < s.len() ==> s[j].id != id,
            Some(i) => 0 <= i < s.len() && s[i].id == id && forall|j: int|
                0 <= j < i ==> s[j].id != id,
        },
    decreases s.len(),
{
    if s.len() > 0 && s[0].id != id {
        lemma_find_task(s.drop_first(), id);
        match find_task(s.drop_first(), id) {
            None => {
                assert forall|j: int| 0 <= j < s.len() implies s[j].id != id by {
                    if j > 0 {
                        assert(s.drop_first()[j - 1] == s[j]);
                    }
                }
            },
            Some(i) => {
                assert(s.drop_first()[i] == s[i + 1]);
                assert forall|j: int| 0 <= j < i + 1 implies s[j].id != id by {
                    if j > 0 {
                        assert(s.drop_first()[j - 1] == s[j]);
                    }
                }
            },
        }
    }
}

/// `t` with its status replaced.
pub open spec fn task_with_status(t: Task, status: TaskStatus) -> Task {
    Task { status, ..t }
}

/// Two stack allocators hold the same state.
pub open spec fn stack_allocator_eq(a: StackAllocator, b: StackAllocator) -> bool {
    &&& b.allocated@ == a.allocated@
    &&& b.free@ == a.free@
    &&& b.next_page == a.next_page
}

/// Two schedulers hold the same state.
pub open spec fn scheduler_eq(a: Scheduler, b: Scheduler) -> bool {
    &&& b.inactive_tasks@ == a.inactive_tasks@
    &&& b.active_task == a.active_task
    &&& b.task_count == a.task_count
    &&& b.last_resched == a.last_resched
    &&& b.need_resched == a.need_resched
}

/// Scheduler for the kernel: manages the inactive task list, the single
/// active task, and the context-switch protocol.
///
/// The bottom-half manager and the clock are peers owned by the surrounding
/// kernel; the scheduler is handed the current time where it needs one.
pub struct Scheduler {
    /// Tasks not currently running, in service order.
    pub inactive_tasks: Vec<Task>,
    /// The task whose context the CPU is running.  Always present.
    pub active_task: Option<Task>,
    /// Ids handed out so far; the next task gets this id.
    pub task_count: u32,
    /// Time of the last reschedule.
    pub last_resched: usize,
    /// A peer asked for a reschedule at the next opportunity.
    pub need_resched: bool,
}

impl Scheduler {
    /// There is always an active task.
    pub open spec fn wf(self) -> bool {
        self.active_task is Some
    }

    /// The active task is an interrupt handler that has not yet completed:
    /// it is never preempted by a NORMAL task.
    pub open spec fn active_is_irq_ready(self) -> bool {
        self.active_task matches Some(t) && t.priority == TaskPriority::IRQ && t.status
            == TaskStatus::READY
    }

    /// Which inactive task the next `schedule` call switches to, if any:
    /// the first READY IRQ task; else, unless the active task is a running
    /// IRQ task (which runs to completion), the first READY NORMAL task.
    pub open spec fn selected(self) -> Option<int> {
        if self.inactive_tasks@.len() == 0 {
            None
        } else {
            match find_ready(self.inactive_tasks@, TaskPriority::IRQ) {
                Some(i) => Some(i),
                None => if self.active_is_irq_ready() {
                    None
                } else {
                    find_ready(self.inactive_tasks@, TaskPriority::NORMAL)
                },
            }
        }
    }

    /// A reschedule that looks for a NORMAL task finds one: the idle and
    /// daemon tasks are never removed, so a READY NORMAL task exists
    /// whenever the selection falls through to that class.
    pub open spec fn schedulable(self) -> bool {
        (self.inactive_tasks@.len() > 0 && find_ready(self.inactive_tasks@, TaskPriority::IRQ)
            is None && !self.active_is_irq_ready()) ==> find_ready(
            self.inactive_tasks@,
            TaskPriority::NORMAL,
        ) is Some
    }

    /// More than a quantum has passed since the last reschedule, or a peer
    /// asked for one.
    pub open spec fn spec_need_resched(self, now: usize) -> bool {
        self.need_resched || now - self.last_resched > THREAD_QUANTUM
    }

    /// What one `schedule` call does.  When nothing is selected, everything
    /// is left alone.  Otherwise the incoming task's saved context replaces
    /// the caller's snapshot (restored into the CPU on interrupt return),
    /// the outgoing task keeps that snapshot, and the outgoing task goes to
    /// the back of the list — unless it is COMPLETED, in which case it is
    /// dropped and its stack returns to the stack allocator's free list.
    pub open spec fn schedule_rel(
        pre: Scheduler,
        pre_ctx: TaskContext,
        pre_sa: StackAllocator,
        now: usize,
        post: Scheduler,
        post_ctx: TaskContext,
        post_sa: StackAllocator,
    ) -> bool {
        match pre.selected() {
            None => scheduler_eq(pre, post) && post_ctx == pre_ctx && stack_allocator_eq(
                pre_sa,
                post_sa,
            ),
            Some(i) => {
                let incoming = pre.inactive_tasks@[i];
                let outgoing = Task { context: pre_ctx, ..pre.active_task->Some_0 };
                &&& post.active_task == Some(incoming)
                &&& post_ctx == incoming.context
                &&& post.task_count == pre.task_count
                &&& post.last_resched == now
                &&& post.need_resched == false
                &&& if outgoing.status != TaskStatus::COMPLETED {
                    post.inactive_tasks@ == pre.inactive_tasks@.remove(i).push(outgoing)
                        && stack_allocator_eq(pre_sa, post_sa)
                } else {
                    post.inactive_tasks@ == pre.inactive_tasks@.remove(i)
                        && StackAllocator::deallocate_rel(pre_sa, post_sa, outgoing.stack)
                }
            },
        }
    }

    /// What `set_task_status` does to the task lists: the active task, or
    /// else the first inactive task with the id, gets the status; nothing
    /// else moves.
    pub open spec fn status_set_rel(
        pre: Scheduler,
        post: Scheduler,
        id: u32,
        status: TaskStatus,
    ) -> bool {
        &&& post.task_count == pre.task_count
        &&& post.last_resched == pre.last_resched
        &&& match pre.active_task {
            Some(t) => if t.id == id {
                post.active_task == Some(task_with_status(t, status)) && post.inactive_tasks@
                    == pre.inactive_tasks@
            } else {
                Scheduler::status_set_inactive(pre, post, id, status)
            },
            None => Scheduler::status_set_inactive(pre, post, id, status),
        }
    }

    /// The inactive-list part of `status_set_rel`: the first inactive task
    /// with the id gets the status.
    pub open spec fn status_set_inactive(
        pre: Scheduler,
        post: Scheduler,
        id: u32,
        status: TaskStatus,
    ) -> bool {
        &&& post.active_task == pre.active_task
        &&& match find_task(pre.inactive_tasks@, id) {
            Some(i) => post.inactive_tasks@ == pre.inactive_tasks@.update(
                i,
                task_with_status(pre.inactive_tasks@[i], status),
            ),
            None => post.inactive_tasks@ == pre.inactive_tasks@,
        }
    }

    /// Creates a new scheduler.
    ///
    /// The synthetic system-idle task becomes the active task, and the
    /// bottom-half daemon — an IRQ-priority task parked WAITING, entered at
    /// `daemon_entry` — is pre-registered on the inactive list with a fresh
    /// stack.
    pub fn new(memory_manager: &mut MemoryManager, daemon_entry: u64) -> (r: Scheduler)
        requires
            old(memory_manager).stack_allocator.wf(),
            old(memory_manager).stack_allocator.can_carve(),
        ensures
            final(memory_manager).stack_allocator.wf(),
            r.wf(),
            r.inactive_tasks@.len() == 1,
            StackAllocator::allocate_rel(
                old(memory_manager).stack_allocator,
                final(memory_manager).stack_allocator,
                r.inactive_tasks@[0].stack,
            ),
            r.inactive_tasks@[0].id == TID_BOTTOMHALFD,
            r.inactive_tasks@[0].priority == TaskPriority::IRQ,
            r.inactive_tasks@[0].status == TaskStatus::WAITING,
            // The daemon's saved context is live state — `schedule` restores
            // it into the CPU frame — so it is pinned in full: entered at
            // `daemon_entry` on its own stack, with the kernel code segment
            // and flags.
            r.inactive_tasks@[0].context == (TaskContext {
                cs: 8,
                rflags: 582,
                rsp: (r.inactive_tasks@[0].stack.start_address
                    - r.inactive_tasks@[0].stack.size) as u64,
                rip: daemon_entry,
                ..TaskContext::zeroed()
            }),
            // The active task is exactly the synthetic system-idle task.
            r.active_task == Some(
                (Task {
                    id: TID_SYSTEMIDLE,
                    context: TaskContext::zeroed(),
                    status: TaskStatus::READY,
                    priority: TaskPriority::NORMAL,
                    stack: (Stack { start_address: 0, size: 0 }),
                }),
            ),
            r.task_count == 2,
            r.last_resched == 0,
            r.need_resched == false,
    {
        let mut inactive_tasks: Vec<Task> = Vec::new();

        // Create the kernel bottom-half IRQ processing thread.
        let stack = memory_manager.allocate_stack();
        inactive_tasks.push(
            Task::new(
                TID_BOTTOMHALFD,
                stack,
                daemon_entry,
                TaskPriority::IRQ,
                TaskStatus::WAITING,
            ),
        );

        Scheduler {
            inactive_tasks,
            active_task: Some(Task::default(TID_SYSTEMIDLE)),
            task_count: 2,
            last_resched: 0,
            need_resched: false,
        }
    }

    /// Create a new task to be scheduled: a READY, NORMAL-priority task on a
    /// fresh stack, entered at `entry_point`, appended to the back of the
    /// inactive list.
    pub fn new_task(&mut self, memory_manager: &mut MemoryManager, entry_point: u64)
        requires
            old(memory_manager).stack_allocator.wf(),
            old(memory_manager).stack_allocator.can_carve(),
            old(self).task_count < u32::MAX,
        ensures
            final(memory_manager).stack_allocator.wf(),
            final(self).inactive_tasks@.len() == old(self).inactive_tasks@.len() + 1,
            final(self).inactive_tasks@.drop_last() == old(self).inactive_tasks@,
            ({
                let t = final(self).inactive_tasks@.last();
                &&& t.id == old(self).task_count
                &&& t.priority == TaskPriority::NORMAL
                &&& t.status == TaskStatus::READY
                // The saved context is pinned in full: the task resumes at
                // `entry_point` on its own stack, with the kernel code
                // segment and flags.
                &&& t.context == (TaskContext {
                    cs: 8,
                    rflags: 582,
                    rsp: (t.stack.start_address - t.stack.size) as u64,
                    rip: entry_point,
                    ..TaskContext::zeroed()
                })
                &&& StackAllocator::allocate_rel(
                    old(memory_manager).stack_allocator,
                    final(memory_manager).stack_allocator,
                    t.stack,
                )
            }),
            final(self).active_task == old(self).active_task,
            final(self).task_count == old(self).task_count + 1,
            final(self).last_resched == old(self).last_resched,
            final(self).need_resched == old(self).need_resched,
    {
        let stack = memory_manager.allocate_stack();

        self.inactive_tasks.push(
            Task::new(
                self.task_count,
                stack,
                entry_point,
                TaskPriority::NORMAL,
                TaskStatus::READY,
            ),
        );

        self.task_count = self.task_count + 1;
    }

    /// Find, remove and return the first READY task of the given priority.
    fn next_task(&mut self, priority: TaskPriority) -> (r: Option<Task>)
        ensures
            final(self).active_task == old(self).active_task,
            final(self).task_count == old(self).task_count,
            final(self).last_resched == old(self).last_resched,
            final(self).need_resched == old(self).need_resched,
            match find_ready(old(self).inactive_tasks@, priority) {
                None => r is None && final(self).inactive_tasks@ == old(self).inactive_tasks@,
                Some(i) => r == Some(old(self).inactive_tasks@[i]) && final(self).inactive_tasks@
                    == old(self).inactive_tasks@.remove(i),
            },
    {
        proof {
            lemma_find_ready(self.inactive_tasks@, priority);
        }
        let n = self.inactive_tasks.len();
        let mut i: usize = 0;
        while i < n
            invariant
                0 <= i <= n,
                n == self.inactive_tasks@.len(),
                self.inactive_tasks@ == old(self).inactive_tasks@,
                self.active_task == old(self).active_task,
                self.task_count == old(self).task_count,
                self.last_resched == old(self).last_resched,
                self.need_resched == old(self).need_resched,
                forall|j: int| 0 <= j < i ==> !is_ready(self.inactive_tasks@[j], priority),
            decreases n - i,
        {
            let t = self.inactive_tasks[i];
            if t.get_priority() == priority && t.get_status() == TaskStatus::READY {
                proof {
                    lemma_find_ready(self.inactive_tasks@, priority);
                }
                let found = self.inactive_tasks.remove(i);
                return Some(found);
            }
            i = i + 1;
        }
        proof {
            lemma_find_ready(self.inactive_tasks@, priority);
        }
        None
    }

    /// Schedule the next task.
    ///
    /// Chooses the next task by strict priority order — a READY IRQ task
    /// first; a running IRQ task is never preempted by a NORMAL one — and
    /// swaps its saved context with the caller's snapshot of the active
    /// context.  The outgoing task goes to the back of the inactive list,
    /// except a COMPLETED one, which is dropped and its stack returned to
    /// the free list.  With no inactive task ready, this is a no-op.
    pub fn schedule(
        &mut self,
        active_ctx: &mut TaskContext,
        memory_manager: &mut MemoryManager,
        now: usize,
    )
        requires
            old(self).wf(),
            old(self).schedulable(),
            old(memory_manager).stack_allocator.wf(),
            old(self).selected() is Some && old(self).active_task->Some_0.status
                == TaskStatus::COMPLETED ==> find_stack(
                old(memory_manager).stack_allocator.allocated@,
                old(self).active_task->Some_0.stack,
            ) is Some,
        ensures
            final(self).wf(),
            final(memory_manager).stack_allocator.wf(),
            Scheduler::schedule_rel(
                *old(self),
                *old(active_ctx),
                old(memory_manager).stack_allocator,
                now,
                *final(self),
                *final(active_ctx),
                final(memory_manager).stack_allocator,
            ),
    {
        // Return early if there is nothing to switch to.
        if self.inactive_tasks.len() == 0 {
            return ;
        }
        // Look for ready high-priority tasks first; if none exist, fall back
        // to the NORMAL class, through which there is always a way forward.
        let from_irq = self.next_task(TaskPriority::IRQ);
        let new_task = match from_irq {
            Some(t) => t,
            None => {
                let blocked = match &self.active_task {
                    Some(t) => t.get_priority() == TaskPriority::IRQ && t.get_status()
                        == TaskStatus::READY,
                    None => false,
                };
                if blocked {
                    // The active task is an interrupt handler that has not
                    // yet completed: let it run to completion.
                    return ;
                }
                match self.next_task(TaskPriority::NORMAL) {
                    Some(t) => t,
                    None => {
                        proof {
                            assert(false);
                        }
                        return ;
                    },
                }
            },
        };
        let mut old_task = match self.active_task {
            Some(t) => t,
            None => {
                proof {
                    assert(false);
                }
                return ;
            },
        };

        // Swap the contexts: save the caller's snapshot into the outgoing
        // task, and hand the incoming task's saved context to the caller.
        old_task.set_context(active_ctx);
        *active_ctx = *new_task.get_context();

        // Store the outgoing task back into the inactive list unless it is
        // finished; dropping a COMPLETED task here is what cleans it up.
        self.active_task = Some(new_task);
        if old_task.get_status() != TaskStatus::COMPLETED {
            self.inactive_tasks.push(old_task);
        } else {
            memory_manager.deallocate_stack(&old_task.stack);
        }

        self.update_last_resched(now);
    }

    /// Advance the clock by one tick, then reschedule if a reschedule is
    /// due.
    pub fn tick(
        &mut self,
        clock: &mut Clock,
        active_ctx: &mut TaskContext,
        memory_manager: &mut MemoryManager,
    )
        requires
            old(clock).milliseconds < usize::MAX,
            old(clock).milliseconds + 1 >= old(self).last_resched,
            old(self).wf(),
            old(self).schedulable(),
            old(memory_manager).stack_allocator.wf(),
            old(self).selected() is Some && old(self).active_task->Some_0.status
                == TaskStatus::COMPLETED ==> find_stack(
                old(memory_manager).stack_allocator.allocated@,
                old(self).active_task->Some_0.stack,
            ) is Some,
        ensures
            final(self).wf(),
            final(memory_manager).stack_allocator.wf(),
            final(clock).milliseconds == old(clock).milliseconds + 1,
            if old(self).spec_need_resched((old(clock).milliseconds + 1) as usize) {
                Scheduler::schedule_rel(
                    *old(self),
                    *old(active_ctx),
                    old(memory_manager).stack_allocator,
                    (old(clock).milliseconds + 1) as usize,
                    *final(self),
                    *final(active_ctx),
                    final(memory_manager).stack_allocator,
                )
            } else {
                scheduler_eq(*old(self), *final(self)) && *final(active_ctx) == *old(active_ctx)
                    && stack_allocator_eq(
                    old(memory_manager).stack_allocator,
                    final(memory_manager).stack_allocator,
                )
            },
    {
        let now = clock.tick();
        if self.need_resched(now) {
            self.schedule(active_ctx, memory_manager, now);
        }
    }

    /// Returns true if a reschedule is due: a peer asked for one, or the
    /// last one was over `THREAD_QUANTUM` ticks ago.
    pub fn need_resched(&self, now: usize) -> (r: bool)
        requires
            now >= self.last_resched,
        ensures
            r == self.spec_need_resched(now),
    {
        if self.need_resched {
            return true;
        }
        (now - self.last_resched) > THREAD_QUANTUM
    }

    /// Set the status of the task with id `id`: the active task, or else
    /// the first inactive task with that id; a no-op for an unknown id.
    pub fn set_task_status(&mut self, id: u32, status: TaskStatus)
        ensures
            Scheduler::status_set_rel(*old(self), *final(self), id, status),
            final(self).need_resched == old(self).need_resched,
    {
        proof {
            lemma_find_task(self.inactive_tasks@, id);
        }
        let active_matches = match &self.active_task {
            Some(t) => t.id() == id,
            None => false,
        };
        if active_matches {
            let mut t = match self.active_task {
                Some(t) => t,
                None => {
                    proof {
                        assert(false);
                    }
                    return ;
                },
            };
            t.set_status(status);
            self.active_task = Some(t);
            return ;
        }
        let n = self.inactive_tasks.len();
        let mut i: usize = 0;
        while i < n
            invariant
                0 <= i <= n,
                n == self.inactive_tasks@.len(),
                self.inactive_tasks@ == old(self).inactive_tasks@,
                self.active_task == old(self).active_task,
                self.task_count == old(self).task_count,
                self.last_resched == old(self).last_resched,
                self.need_resched == old(self).need_resched,
                match old(self).active_task {
                    Some(t) => t.id != id,
                    None => true,
                },
                forall|j: int| 0 <= j < i ==> self.inactive_tasks@[j].id != id,
            decreases n - i,
        {
            let t = self.inactive_tasks[i];
            if t.id() == id {
                proof {
                    lemma_find_task(self.inactive_tasks@, id);
                    match find_task(self.inactive_tasks@, id) {
                        Some(fi) => {
                            if fi < i {
                                assert(self.inactive_tasks@[fi].id != id);
                            }
                            assert(fi == i);
                        },
                        None => {
                            assert(self.inactive_tasks@[i as int].id != id);
                        },
                    }
                }
                let mut updated = t;
                updated.set_status(status);
                self.inactive_tasks[i] = updated;
                return ;
            }
            i = i + 1;
        }
        proof {
            lemma_find_task(self.inactive_tasks@, id);
        }
    }

    /// Set the internal `need_resched` flag to true.
    pub fn set_need_resched(&mut self)
        ensures
            *final(self) == (Scheduler { need_resched: true, ..*old(self) }),
    {
        self.need_resched = true;
    }

    /// Update `last_resched` to now and reset the `need_resched` flag.
    fn update_last_resched(&mut self, now: usize)
        ensures
            *final(self) == (Scheduler { last_resched: now, need_resched: false, ..*old(self) }),
    {
        self.last_resched = now;
        self.need_resched = false;
    }
}

/// Scheduler priority: whenever any READY IRQ-priority task sits on the
/// inactive list — whatever READY NORMAL tasks sit beside it — `schedule`
/// selects an IRQ task, namely the first READY one.
pub proof fn lemma_priority_selection(s: Scheduler, i: int)
    requires
        0 <= i < s.inactive_tasks@.len(),
        is_ready(s.inactive_tasks@[i], TaskPriority::IRQ),
    ensures
        s.selected() == find_ready(s.inactive_tasks@, TaskPriority::IRQ),
        s.selected() is Some,
        is_ready(s.inactive_tasks@[s.selected()->Some_0], TaskPriority::IRQ),
{
    lemma_find_ready(s.inactive_tasks@, TaskPriority::IRQ);
}

/// Scheduler round-robin fairness: when every inactive task is READY and
/// NORMAL and the active task is a READY NORMAL task that ran to quantum
/// expiry, `schedule` moves the head of the list onto the CPU and appends
/// the outgoing task at the back.  Repeated `schedule` calls therefore
/// visit tasks queued in some order in that same order, round-robin, as
/// long as each stays READY.
pub proof fn lemma_fifo_fairness(
    pre: Scheduler,
    pre_ctx: TaskContext,
    pre_sa: StackAllocator,
    now: usize,
    post: Scheduler,
    post_ctx: TaskContext,
    post_sa: StackAllocator,
)
    requires
        pre.wf(),
        pre.inactive_tasks@.len() > 0,
        forall|j: int|
            0 <= j < pre.inactive_tasks@.len() ==> is_ready(
                #[trigger] pre.inactive_tasks@[j],
                TaskPriority::NORMAL,
            ),
        pre.active_task->Some_0.priority == TaskPriority::NORMAL,
        pre.active_task->Some_0.status == TaskStatus::READY,
        Scheduler::schedule_rel(pre, pre_ctx, pre_sa, now, post, post_ctx, post_sa),
    ensures
        post.active_task == Some(pre.inactive_tasks@[0]),
        post_ctx == pre.inactive_tasks@[0].context,
        post.inactive_tasks@ == pre.inactive_tasks@.drop_first().push(
            (Task { context: pre_ctx, ..pre.active_task->Some_0 }),
        ),
        // The premises re-establish themselves, so repeated calls keep
        // rotating: the queue is all READY NORMAL tasks of the same length,
        // and so is the new active task.
        post.wf(),
        post.inactive_tasks@.len() == pre.inactive_tasks@.len(),
        forall|j: int|
            0 <= j < post.inactive_tasks@.len() ==> is_ready(
                #[trigger] post.inactive_tasks@[j],
                TaskPriority::NORMAL,
            ),
        post.active_task->Some_0.priority == TaskPriority::NORMAL,
        post.active_task->Some_0.status == TaskStatus::READY,
{
    lemma_find_ready(pre.inactive_tasks@, TaskPriority::IRQ);
    if find_ready(pre.inactive_tasks@, TaskPriority::IRQ) is Some {
        let k = find_ready(pre.inactive_tasks@, TaskPriority::IRQ)->Some_0;
        assert(is_ready(pre.inactive_tasks@[k], TaskPriority::NORMAL));
        assert(false);
    }
    assert(is_ready(pre.inactive_tasks@[0], TaskPriority::NORMAL));
    assert(find_ready(pre.inactive_tasks@, TaskPriority::NORMAL) == Some(0int));
    assert(pre.selected() == Some(0int));
    assert(pre.inactive_tasks@.remove(0) =~= pre.inactive_tasks@.drop_first());
}

/// Task cleanup: a task whose status is COMPLETED at the moment it is
/// swapped out is never re-added to the inactive list, and its stack goes
/// back on the free list — so the next stack allocation is served from the
/// free list without carving fresh pages.
pub proof fn lemma_completed_task_cleanup(
    pre: Scheduler,
    pre_ctx: TaskContext,
    pre_sa: StackAllocator,
    now: usize,
    post: Scheduler,
    post_ctx: TaskContext,
    post_sa: StackAllocator,
)
    requires
        pre.wf(),
        pre.selected() is Some,
        pre.active_task->Some_0.status == TaskStatus::COMPLETED,
        Scheduler::schedule_rel(pre, pre_ctx, pre_sa, now, post, post_ctx, post_sa),
    ensures
        post.inactive_tasks@ == pre.inactive_tasks@.remove(pre.selected()->Some_0),
        post.inactive_tasks@.len() == pre.inactive_tasks@.len() - 1,
        post_sa.free@.len() == pre_sa.free@.len() + 1,
        ({
            let freed = post_sa.free@.last();
            freed.start_address == pre.active_task->Some_0.stack.start_address && freed.size
                == pre.active_task->Some_0.stack.size
        }),
        forall|next: StackAllocator, r: Stack|
            #[trigger] StackAllocator::allocate_rel(post_sa, next, r) ==> next.next_page
                == post_sa.next_page,
{
    let i = pre.selected()->Some_0;
    let outgoing = Task { context: pre_ctx, ..pre.active_task->Some_0 };
    assert(outgoing.status == TaskStatus::COMPLETED);
    lemma_find_stack(pre_sa.allocated@, outgoing.stack);
    if find_ready(pre.inactive_tasks@, TaskPriority::IRQ) is Some {
        lemma_find_ready(pre.inactive_tasks@, TaskPriority::IRQ);
    } else {
        lemma_find_ready(pre.inactive_tasks@, TaskPriority::NORMAL);
    }
}

} // verus!
