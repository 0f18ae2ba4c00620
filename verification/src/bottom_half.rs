use vstd::prelude::*;

use crate::scheduler::{scheduler_eq, Scheduler};
use crate::task::{TaskStatus, TID_BOTTOMHALFD};

verus! {

/// A piece of work an interrupt handler defers: the top half queues it, and
/// the bottom-half daemon task runs it later, outside interrupt context.
pub trait BottomHalf {
    /// Execute the work for this bottom half.
    fn execute(&mut self);
}

/// A first-in-first-out queue of `BottomHalf` work items.
pub struct BottomHalfQueue<T: BottomHalf> {
    /// Queued items, oldest first.
    pub queue: Vec<T>,
}

impl<T: BottomHalf> BottomHalfQueue<T> {
    /// Construct a new, empty `BottomHalfQueue`.
    pub fn new() -> (r: BottomHalfQueue<T>)
        ensures
            r.queue@.len() == 0,
    {
        BottomHalfQueue { queue: Vec::new() }
    }

    /// Returns the length of the queue.
    pub fn len(&self) -> (r: usize)
        ensures
            r == self.queue@.len(),
    {
        self.queue.len()
    }

    /// Push a `BottomHalf` onto the back of the queue.
    pub fn push(&mut self, bh: T)
        ensures
            final(self).queue@ == old(self).queue@.push(bh),
    {
        self.queue.push(bh);
    }

    /// Pop a `BottomHalf` from the front of the queue.
    ///
    /// If the queue is empty this will return `None`.
    pub fn pop(&mut self) -> (r: Option<T>)
        ensures
            old(self).queue@.len() == 0 ==> r is None && final(self).queue@ == old(self).queue@,
            old(self).queue@.len() > 0 ==> r == Some(old(self).queue@[0]) && final(self).queue@
                == old(self).queue@.drop_first(),
    {
        if self.queue.len() == 0 {
            None
        } else {
            let bh = self.queue.remove(0);
            proof {
                assert(self.queue@ =~= old(self).queue@.drop_first());
            }
            Some(bh)
        }
    }
}

/// Manager of the bottom-half queue.
///
/// Interrupt handlers queue deferred work here; the dedicated bottom-half
/// daemon task drains it.  The surrounding kernel guards the manager with
/// its lock and hands in the scheduler so that queueing the first item can
/// wake the daemon.
pub struct BottomHalfManager<T: BottomHalf> {
    /// The queue of pending work.
    pub queue: BottomHalfQueue<T>,
}

impl<T: BottomHalf> BottomHalfManager<T> {
    /// Construct a new `BottomHalfManager` with an empty queue.
    pub fn new() -> (r: BottomHalfManager<T>)
        ensures
            r.queue.queue@.len() == 0,
    {
        BottomHalfManager { queue: BottomHalfQueue::new() }
    }

    /// Push a `BottomHalf` onto the back of the queue.
    ///
    /// If this is the first pending item, the bottom-half daemon task is
    /// marked READY and the scheduler is asked to reschedule at its next
    /// opportunity: the wake-up signal.
    pub fn add_bh(&mut self, bh: T, scheduler: &mut Scheduler)
        ensures
            final(self).queue.queue@ == old(self).queue.queue@.push(bh),
            old(self).queue.queue@.len() == 0 ==> Scheduler::status_set_rel(
                *old(scheduler),
                *final(scheduler),
                TID_BOTTOMHALFD,
                TaskStatus::READY,
            ) && final(scheduler).need_resched == true,
            old(self).queue.queue@.len() > 0 ==> scheduler_eq(*old(scheduler), *final(scheduler)),
    {
        self.queue.push(bh);
        let len = self.queue.len();

        // If this is the first task added then tell the scheduler to run
        // the bottom-half thread next time it gets the chance.
        if len == 1 {
            scheduler.set_task_status(TID_BOTTOMHALFD, TaskStatus::READY);
            scheduler.set_need_resched();
        }
    }

    /// Execute all currently queued `BottomHalf` tasks, oldest first, until
    /// the queue is empty.
    pub fn execute_all(&mut self)
        ensures
            final(self).queue.queue@.len() == 0,
    {
        loop
            invariant_except_break
                true,
            ensures
                self.queue.queue@.len() == 0,
            decreases self.queue.queue@.len(),
        {
            match self.queue.pop() {
                Some(mut bh) => bh.execute(),
                None => {
                    break ;
                },
            }
        }
    }
}

} // verus!
