//! A verified model of an experimental operating-system kernel core: a family
//! of heap allocators (a block-chain first-fit allocator with splitting and
//! eager coalescing, and a bump allocator), a preemptive priority task
//! scheduler with context-switch bookkeeping, a stack allocator, a
//! bottom-half deferred-work queue, and the pure state of the surrounding
//! drivers.  Hardware access (port input/output, page-table writes, video
//! memory) lives outside this crate; every function here works on plain
//! values and is verified.

pub mod allocator;
pub mod block;
pub mod bottom_half;
pub mod bump;
pub mod exception;
pub mod idt;
pub mod keyboard;
pub mod memory_manager;
pub mod page;
pub mod pic;
pub mod port;
pub mod rtc;
pub mod scheduler;
pub mod stack_allocator;
pub mod task;
pub mod task_context;
pub mod timer;
pub mod vga;
