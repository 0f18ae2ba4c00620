use vstd::prelude::*;

verus! {

/// Context of a kernel task: a fixed snapshot of every register the CPU
/// needs to resume the task exactly where it left off.  The interrupt layer
/// fills one of these from the trap frame on entry and restores it on exit;
/// the scheduler swaps their contents to switch tasks.
#[derive(Clone, Copy, Debug, PartialEq, Eq, Structural)]
pub struct TaskContext {
    /// GP Register RAX
    pub rax: u64,
    /// GP Register RBX
    pub rbx: u64,
    /// GP Register RCX
    pub rcx: u64,
    /// GP Register RDX
    pub rdx: u64,
    /// GP Register RDI
    pub rdi: u64,
    /// GP Register RSI
    pub rsi: u64,
    /// GP Register R8
    pub r8: u64,
    /// GP Register R9
    pub r9: u64,
    /// GP Register R10
    pub r10: u64,
    /// GP Register R11
    pub r11: u64,
    /// GP Register R12
    pub r12: u64,
    /// GP Register R13
    pub r13: u64,
    /// GP Register R14
    pub r14: u64,
    /// GP Register R15
    pub r15: u64,
    /// Base pointer
    pub rbp: u64,
    /// Instruction pointer
    pub rip: u64,
    /// Code segment
    pub cs: u64,
    /// Flags register
    pub rflags: u64,
    /// Stack pointer
    pub rsp: u64,
    /// Stack segment
    pub ss: u64,
}

impl TaskContext {
    /// The all-zero context.
    pub open spec fn zeroed() -> TaskContext {
        TaskContext {
            rax: 0,
            rbx: 0,
            rcx: 0,
            rdx: 0,
            rdi: 0,
            rsi: 0,
            r8: 0,
            r9: 0,
            r10: 0,
            r11: 0,
            r12: 0,
            r13: 0,
            r14: 0,
            r15: 0,
            rbp: 0,
            rip: 0,
            cs: 0,
            rflags: 0,
            rsp: 0,
            ss: 0,
        }
    }

    /// Create a new `TaskContext` with every field set to zero.
    pub fn new() -> (r: TaskContext)
        ensures
            r == TaskContext::zeroed(),
    {
        TaskContext {
            rax: 0,
            rbx: 0,
            rcx: 0,
            rdx: 0,
            rdi: 0,
            rsi: 0,
            r8: 0,
            r9: 0,
            r10: 0,
            r11: 0,
            r12: 0,
            r13: 0,
            r14: 0,
            r15: 0,
            rbp: 0,
            rip: 0,
            cs: 0,
            rflags: 0,
            rsp: 0,
            ss: 0,
        }
    }
}

} // verus!
