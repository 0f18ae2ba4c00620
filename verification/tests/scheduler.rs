use std::cell::RefCell;
use std::rc::Rc;

use opsys::bottom_half::{BottomHalf, BottomHalfManager, BottomHalfQueue};
use opsys::memory_manager::MemoryManager;
use opsys::page::Page;
use opsys::rtc::Clock;
use opsys::scheduler::Scheduler;
use opsys::stack_allocator::StackAllocator;
use opsys::task::{Task, TaskPriority, TaskStatus, TID_BOTTOMHALFD, TID_SYSTEMIDLE};
use opsys::task_context::TaskContext;
use opsys::timer::Timer;

fn fresh_memory_manager() -> MemoryManager {
    MemoryManager::new(StackAllocator::new(Page { number: 1 }))
}

fn active_id(scheduler: &Scheduler) -> u32 {
    scheduler.active_task.unwrap().id
}

#[test]
fn scheduler_starts_with_idle_and_daemon() {
    let mut mm = fresh_memory_manager();
    let scheduler = Scheduler::new(&mut mm, 0x1000);

    assert_eq!(active_id(&scheduler), TID_SYSTEMIDLE);
    assert_eq!(scheduler.inactive_tasks.len(), 1);
    let daemon = &scheduler.inactive_tasks[0];
    assert_eq!(daemon.id, TID_BOTTOMHALFD);
    assert_eq!(daemon.priority, TaskPriority::IRQ);
    assert_eq!(daemon.status, TaskStatus::WAITING);
    assert_eq!(daemon.context.rip, 0x1000);
    assert_eq!(daemon.context.cs, 8);
    assert_eq!(daemon.context.rflags, 582);
}

// An IRQ-priority READY task always wins over READY NORMAL tasks.
#[test]
fn irq_task_selected_first() {
    let mut mm = fresh_memory_manager();
    let mut scheduler = Scheduler::new(&mut mm, 0x1000);
    scheduler.new_task(&mut mm, 0x2000);

    // Wake the IRQ-priority daemon; the NORMAL task is READY already.
    scheduler.set_task_status(TID_BOTTOMHALFD, TaskStatus::READY);

    let mut ctx = TaskContext::new();
    scheduler.schedule(&mut ctx, &mut mm, 1);

    assert_eq!(active_id(&scheduler), TID_BOTTOMHALFD);
    assert_eq!(ctx.rip, 0x1000);
    // The NORMAL task is still queued.
    assert!(scheduler.inactive_tasks.iter().any(|t| t.id == 2));
}

// A running IRQ task is not preempted by NORMAL tasks.
#[test]
fn running_irq_task_is_not_preempted() {
    let mut mm = fresh_memory_manager();
    let mut scheduler = Scheduler::new(&mut mm, 0x1000);
    scheduler.new_task(&mut mm, 0x2000);
    scheduler.set_task_status(TID_BOTTOMHALFD, TaskStatus::READY);

    let mut ctx = TaskContext::new();
    scheduler.schedule(&mut ctx, &mut mm, 1);
    assert_eq!(active_id(&scheduler), TID_BOTTOMHALFD);

    // The daemon is still READY and no other IRQ task exists: it keeps the
    // CPU.
    let before = ctx;
    scheduler.schedule(&mut ctx, &mut mm, 2);
    assert_eq!(active_id(&scheduler), TID_BOTTOMHALFD);
    assert_eq!(ctx, before);
}

// Three NORMAL tasks queued in order are visited round-robin in that order.
#[test]
fn normal_tasks_run_round_robin() {
    let mut mm = fresh_memory_manager();
    let mut scheduler = Scheduler::new(&mut mm, 0x1000);
    scheduler.new_task(&mut mm, 0x2000); // id 2
    scheduler.new_task(&mut mm, 0x3000); // id 3
    scheduler.new_task(&mut mm, 0x4000); // id 4

    let mut ctx = TaskContext::new();
    let mut order = Vec::new();
    for now in 1..=5 {
        scheduler.schedule(&mut ctx, &mut mm, now);
        order.push(active_id(&scheduler));
    }
    assert_eq!(order, vec![2, 3, 4, TID_SYSTEMIDLE, 2]);
}

// A COMPLETED task is dropped on swap-out and its stack becomes available.
#[test]
fn completed_task_is_cleaned_up() {
    let mut mm = fresh_memory_manager();
    let mut scheduler = Scheduler::new(&mut mm, 0x1000);
    scheduler.new_task(&mut mm, 0x2000); // id 2

    let mut ctx = TaskContext::new();
    scheduler.schedule(&mut ctx, &mut mm, 1);
    assert_eq!(active_id(&scheduler), 2);
    let stack = scheduler.active_task.unwrap().stack;

    scheduler.set_task_status(2, TaskStatus::COMPLETED);
    scheduler.schedule(&mut ctx, &mut mm, 2);

    // Not re-added to the inactive list.
    assert_eq!(active_id(&scheduler), TID_SYSTEMIDLE);
    assert!(!scheduler.inactive_tasks.iter().any(|t| t.id == 2));

    // Its stack sits on the free list, so the next allocation recycles it
    // without carving fresh pages.
    assert_eq!(mm.stack_allocator.free.len(), 1);
    let next_page_before = mm.stack_allocator.next_page;
    let recycled = mm.allocate_stack();
    assert_eq!(recycled.start_address, stack.start_address);
    assert_eq!(recycled.size, stack.size);
    assert_eq!(mm.stack_allocator.next_page, next_page_before);
}

// With an empty inactive list, schedule is a silent no-op.
#[test]
fn schedule_with_no_inactive_tasks_is_a_noop() {
    let mut scheduler = Scheduler {
        inactive_tasks: Vec::new(),
        active_task: Some(Task::default(TID_SYSTEMIDLE)),
        task_count: 1,
        last_resched: 0,
        need_resched: false,
    };
    let mut mm = fresh_memory_manager();
    let mut ctx = TaskContext::new();
    scheduler.schedule(&mut ctx, &mut mm, 5);
    assert_eq!(active_id(&scheduler), TID_SYSTEMIDLE);
    assert_eq!(ctx, TaskContext::new());
}

// The context-switch protocol: the outgoing task keeps the caller's
// snapshot, the caller gets the incoming task's saved context.
#[test]
fn schedule_swaps_contexts() {
    let mut mm = fresh_memory_manager();
    let mut scheduler = Scheduler::new(&mut mm, 0x1000);
    scheduler.new_task(&mut mm, 0x2000);

    let mut ctx = TaskContext::new();
    ctx.rax = 77;
    ctx.rip = 0xdead;
    scheduler.schedule(&mut ctx, &mut mm, 1);

    assert_eq!(ctx.rip, 0x2000);
    let idle = scheduler
        .inactive_tasks
        .iter()
        .find(|t| t.id == TID_SYSTEMIDLE)
        .unwrap();
    assert_eq!(idle.context.rax, 77);
    assert_eq!(idle.context.rip, 0xdead);
}

#[test]
fn need_resched_after_quantum_or_request() {
    let mut mm = fresh_memory_manager();
    let mut scheduler = Scheduler::new(&mut mm, 0x1000);

    assert!(!scheduler.need_resched(5));
    assert!(!scheduler.need_resched(10));
    assert!(scheduler.need_resched(11));

    scheduler.set_need_resched();
    assert!(scheduler.need_resched(0));
}

#[test]
fn tick_reschedules_after_quantum() {
    let mut mm = fresh_memory_manager();
    let mut scheduler = Scheduler::new(&mut mm, 0x1000);
    scheduler.new_task(&mut mm, 0x2000);
    let mut clock = Clock::new();
    let mut ctx = TaskContext::new();

    // Ten ticks within the quantum: nothing moves.
    for _ in 0..10 {
        scheduler.tick(&mut clock, &mut ctx, &mut mm);
        assert_eq!(active_id(&scheduler), TID_SYSTEMIDLE);
    }

    // The eleventh tick crosses the quantum and swaps tasks in.
    scheduler.tick(&mut clock, &mut ctx, &mut mm);
    assert_eq!(active_id(&scheduler), 2);
    assert_eq!(clock.now(), 11);
    assert_eq!(scheduler.last_resched, 11);
}

struct CountingBottomHalf {
    counter: Rc<RefCell<u32>>,
}

impl BottomHalf for CountingBottomHalf {
    fn execute(&mut self) {
        *self.counter.borrow_mut() += 1;
    }
}

// Queueing the first bottom half wakes the daemon and requests a resched.
#[test]
fn first_bottom_half_wakes_daemon() {
    let mut mm = fresh_memory_manager();
    let mut scheduler = Scheduler::new(&mut mm, 0x1000);
    let mut manager: BottomHalfManager<CountingBottomHalf> = BottomHalfManager::new();
    let counter = Rc::new(RefCell::new(0));

    manager.add_bh(
        CountingBottomHalf { counter: Rc::clone(&counter) },
        &mut scheduler,
    );
    assert_eq!(scheduler.inactive_tasks[0].status, TaskStatus::READY);
    assert!(scheduler.need_resched);

    // A second pending item changes nothing about the scheduler.
    scheduler.set_task_status(TID_BOTTOMHALFD, TaskStatus::WAITING);
    manager.add_bh(
        CountingBottomHalf { counter: Rc::clone(&counter) },
        &mut scheduler,
    );
    assert_eq!(scheduler.inactive_tasks[0].status, TaskStatus::WAITING);

    manager.execute_all();
    assert_eq!(*counter.borrow(), 2);
    assert_eq!(manager.queue.len(), 0);
}

// The queue hands items back first in, first out.
#[test]
fn bottom_half_queue_is_fifo() {
    let mut queue: BottomHalfQueue<CountingBottomHalf> = BottomHalfQueue::new();
    assert_eq!(queue.len(), 0);
    assert!(queue.pop().is_none());

    let c1 = Rc::new(RefCell::new(0));
    let c2 = Rc::new(RefCell::new(0));
    queue.push(CountingBottomHalf { counter: Rc::clone(&c1) });
    queue.push(CountingBottomHalf { counter: Rc::clone(&c2) });
    assert_eq!(queue.len(), 2);

    let mut first = queue.pop().unwrap();
    first.execute();
    assert_eq!(*c1.borrow(), 1);
    assert_eq!(*c2.borrow(), 0);

    let mut second = queue.pop().unwrap();
    second.execute();
    assert_eq!(*c2.borrow(), 1);
    assert!(queue.pop().is_none());
}

#[test]
fn clock_counts_ticks() {
    let mut clock = Clock::new();
    assert_eq!(clock.now(), 0);
    assert_eq!(clock.tick(), 1);
    assert_eq!(clock.tick(), 2);
    assert_eq!(clock.now(), 2);
}

#[test]
fn timer_fires_once_at_zero() {
    let mut timer = Timer::new(0xfeed, 2);
    assert!(!timer.tick());
    assert!(timer.tick());
    assert_eq!(timer.function, 0xfeed);
    assert!(!timer.tick());
}
