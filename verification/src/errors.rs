//! The error taxonomy of a register-dump run.
//!
//! Every kernel call reports a numeric status code; `KERN_SUCCESS` is the
//! only success value. Each stage of the run has its own error type, so a
//! caller can tell exactly which stage failed and with which code.

use vstd::prelude::*;

verus! {

/// The kernel status code that every mach call returns on success.
pub const KERN_SUCCESS: i32 = 0;

/// The generic kernel failure code; the task-handle call answers with it
/// when the caller lacks the privilege to introspect the target.
pub const KERN_FAILURE: i32 = 5;

/// The process identifier read at the input boundary was malformed: a
/// non-digit stood before the line terminator, or the digits name a value
/// too large for a process identifier.
#[derive(Copy, Clone, Debug, PartialEq, Eq)]
pub struct InputError;

/// Why no privileged handle for the target process could be obtained.
#[derive(Copy, Clone, Debug, PartialEq, Eq)]
pub enum AcquisitionError {
    /// No process with the given identifier exists.
    NotFound,
    /// The process exists, but the caller lacks the privilege to obtain a
    /// task-level handle for it.
    PermissionDenied,
    /// Any other non-success kernel status.
    KernelError(i32),
}

/// Why the target process could not be suspended.
#[derive(Copy, Clone, Debug, PartialEq, Eq)]
pub enum SuspendError {
    /// The suspend call answered with this non-success status.
    SuspendFailed(i32),
}

/// Why the suspended process's threads could not be listed.
#[derive(Copy, Clone, Debug, PartialEq, Eq)]
pub enum EnumerationError {
    /// The thread-list call answered with this non-success status.
    KernelError(i32),
}

/// Why one thread's register state could not be captured. Per-thread
/// failures are independent: one thread's failure does not stop the
/// capture of the remaining threads.
#[derive(Copy, Clone, Debug, PartialEq, Eq)]
pub enum CaptureError {
    /// The get-state call answered with this non-success status.
    KernelError(i32),
    /// The get-state call succeeded but reported more machine words than
    /// the capacity that was sent: a decoding error, not silently ignored.
    BadWordCount { sent: u32, got: u32 },
}

/// Why the target process could not be resumed. A failed resume leaves the
/// target permanently suspended; it is surfaced as a terminal warning but
/// does not invalidate snapshots already captured.
#[derive(Copy, Clone, Debug, PartialEq, Eq)]
pub enum ResumeError {
    /// The resume call answered with this non-success status.
    ResumeFailed(i32),
}

/// Why the kernel memory authority could not allocate a region.
#[derive(Copy, Clone, Debug, PartialEq, Eq)]
pub enum AllocationError {
    /// The virtual-memory allocation call answered with this status.
    KernelError(i32),
}

/// Why the kernel memory authority could not release a region. A failed
/// deallocation means the address or size was wrong and the caller's
/// address space is at risk: it is treated as fatal, never ignored.
#[derive(Copy, Clone, Debug, PartialEq, Eq)]
pub enum DeallocationError {
    /// The virtual-memory deallocation call answered with this status.
    KernelError(i32),
}

/// Classifies a failed task-handle acquisition. The kernel answers a
/// refused acquisition with the generic `KERN_FAILURE` whether or not the
/// target exists, so the caller reports separately whether a process with
/// the given identifier exists (a fact it can learn without any privilege).
pub fn acquisition_failure(code: i32, target_exists: bool) -> (r: AcquisitionError)
    requires
        code != KERN_SUCCESS,
    ensures
        !target_exists ==> r == AcquisitionError::NotFound,
        target_exists && code == KERN_FAILURE ==> r == AcquisitionError::PermissionDenied,
        target_exists && code != KERN_FAILURE ==> r == AcquisitionError::KernelError(code),
{
    if !target_exists {
        AcquisitionError::NotFound
    } else if code == KERN_FAILURE {
        AcquisitionError::PermissionDenied
    } else {
        AcquisitionError::KernelError(code)
    }
}

} // verus!
