use vstd::prelude::*;

verus! {

/// The register snapshot the CPU leaves on the stack for an exception
/// without an error code.
#[derive(Debug)]
pub struct Exception {
    /// Address of the faulting instruction.
    pub instruction_pointer: u64,
    /// Code segment at the moment of the fault.
    pub code_segment: u64,
    /// Flags register at the moment of the fault.
    pub cpu_flags: u64,
    /// Stack pointer at the moment of the fault.
    pub stack_pointer: u64,
    /// Stack segment at the moment of the fault.
    pub stack_segment: u64,
}

/// The register snapshot for an exception that also pushes an error code.
#[derive(Debug)]
pub struct ExceptionWithError {
    /// The error code the CPU pushed.
    pub error_code: u64,
    /// The rest of the snapshot.
    pub exception: Exception,
}

} // verus!
