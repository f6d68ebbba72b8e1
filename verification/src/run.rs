//! The lifecycle of one register-dump run, as a verified state machine.
//!
//! Every kernel primitive (acquire a task handle, suspend, list threads,
//! capture one thread's registers, resume, release the kernel-owned
//! thread-handle buffer) is a blocking foreign call that an unverified
//! driver performs. The machine owns every decision: it says which call
//! comes next (`next_action`), and the driver answers with what the kernel
//! returned (`feed`). The machine's invariant carries the discipline the
//! workflow demands: a successfully suspended process is resumed exactly
//! once on every path, the thread-handle buffer is released exactly once
//! with the byte size it was allocated with, and one thread's capture
//! failure never stops the capture of the remaining threads.

use vstd::prelude::*;

use crate::errors::AcquisitionError;
use crate::errors::CaptureError;
use crate::errors::EnumerationError;
use crate::errors::InputError;
use crate::errors::ResumeError;
use crate::errors::SuspendError;
use crate::input::all_digits;
use crate::input::digits_value;
use crate::input::line_prefix;
use crate::input::parse_pid;
use crate::regs::arm_thread_state64_t;
use crate::regs::x86_thread_state64_t;

verus! {

/// Each thread handle is one kernel port name of this many bytes; the
/// enumeration buffer's byte size is the thread count times this.
pub const THREAD_HANDLE_BYTES: u64 = 4;

/// An opaque kernel capability for a target process's execution context.
/// The raw value is a port name to be handed back to kernel calls, never a
/// number to compute on.
#[derive(Copy, Clone, Debug, PartialEq, Eq)]
pub struct ProcessHandle {
    pub raw: u32,
}

/// An opaque kernel capability for one thread of a suspended process,
/// valid while the owning process stays suspended and the enumeration
/// buffer is alive.
#[derive(Copy, Clone, Debug, PartialEq, Eq)]
pub struct ThreadHandle {
    pub raw: u32,
}

/// A captured register state, tagged with the architecture family whose
/// kernel layout it was decoded from.
#[derive(Copy, Clone, Debug, PartialEq, Eq)]
pub enum RegisterSnapshot {
    X86(x86_thread_state64_t),
    Arm(arm_thread_state64_t),
}

impl RegisterSnapshot {
    /// The capacity, in 4-byte machine words, that was sent into the
    /// capture call for this layout.
    pub open spec fn spec_word_capacity(self) -> u32 {
        match self {
            RegisterSnapshot::X86(_) => 42,
            RegisterSnapshot::Arm(_) => 68,
        }
    }

    /// The capacity, in 4-byte machine words, that was sent into the
    /// capture call for this layout.
    pub fn word_capacity(&self) -> (r: u32)
        ensures
            r == self.spec_word_capacity(),
    {
        match self {
            RegisterSnapshot::X86(_) => 42,
            RegisterSnapshot::Arm(_) => 68,
        }
    }
}

/// The kernel-owned thread-handle buffer: the address the kernel chose and
/// the number of handles it holds. It must be released exactly once,
/// through the kernel's own deallocation path, with a byte size of
/// `count * THREAD_HANDLE_BYTES`.
#[derive(Copy, Clone, Debug, PartialEq, Eq)]
pub struct BufferRecord {
    pub addr: u64,
    pub count: usize,
}

/// One thread whose register capture did not produce a snapshot.
#[derive(Copy, Clone, Debug, PartialEq, Eq)]
pub struct CaptureFailure {
    pub index: usize,
    pub error: CaptureError,
}

/// Why a run ended without a report.
#[derive(Copy, Clone, Debug, PartialEq, Eq)]
pub enum RunError {
    /// No task handle was obtained; nothing was suspended.
    Acquisition { error: AcquisitionError },
    /// The suspend call failed; the target was left untouched.
    Suspend { error: SuspendError },
    /// Thread enumeration failed after a successful suspend; the process
    /// was still resumed, and a failed resume is recorded beside the error.
    Enumeration { error: EnumerationError, resume_failure: Option<ResumeError> },
}

/// What a completed run reports: how many threads the kernel listed, the
/// snapshots captured, the per-thread failures, and whether the final
/// resume failed (a terminal warning that does not invalidate the
/// snapshots).
#[derive(Clone, Debug, PartialEq)]
pub struct RunReport {
    pub thread_count: usize,
    pub snapshots: Vec<RegisterSnapshot>,
    pub failures: Vec<CaptureFailure>,
    pub resume_failure: Option<ResumeError>,
}

/// Where the run stands: each non-terminal phase has exactly one pending
/// kernel action.
#[derive(Copy, Clone, Debug, PartialEq, Eq)]
pub enum Phase {
    /// Waiting for the task handle of the target process.
    AwaitAcquire,
    /// Waiting for the suspend call on the acquired task.
    AwaitSuspend { task: ProcessHandle },
    /// The task is suspended; waiting for the thread list.
    AwaitThreads { task: ProcessHandle },
    /// Capturing registers, one thread per step; `next` is the index of
    /// the thread whose capture is pending.
    AwaitCapture { task: ProcessHandle, next: usize },
    /// All per-thread work is over (or enumeration failed); waiting for
    /// the unconditional resume.
    AwaitResume { task: ProcessHandle, enumeration_failure: Option<i32> },
    /// Resumed; waiting for the thread-handle buffer to be released.
    AwaitRelease,
    /// The run completed and a report is available.
    Done,
    /// The run ended early; the error says at which stage.
    Failed,
}

/// The kernel calls the driver is asked to perform, one per non-terminal
/// phase.
#[derive(Copy, Clone, Debug, PartialEq, Eq)]
pub enum Action {
    /// Obtain a task handle for this process identifier.
    Acquire { pid: i32 },
    /// Suspend the task.
    Suspend { task: ProcessHandle },
    /// Ask the kernel for the task's live thread list.
    ListThreads { task: ProcessHandle },
    /// Capture this thread's register state.
    Capture { thread: ThreadHandle },
    /// Resume the task.
    Resume { task: ProcessHandle },
    /// Release the kernel-owned thread-handle buffer through the kernel's
    /// deallocation path, with the byte size it was allocated with.
    Release { addr: u64, byte_size: u64 },
    /// The run is over; no further kernel call may be made for it.
    Stop,
}

/// What the kernel answered to the pending action.
pub enum Event {
    /// The task handle was obtained.
    AcquireOk { task: ProcessHandle },
    /// No task handle; the classified reason.
    AcquireFailed { error: AcquisitionError },
    /// The task is now suspended.
    SuspendOk,
    /// The suspend call answered with this non-success status.
    SuspendFailed { code: i32 },
    /// The kernel listed these threads; `addr` is the address of the
    /// kernel-allocated buffer the handles arrived in.
    ThreadsOk { threads: Vec<ThreadHandle>, addr: u64 },
    /// The thread-list call answered with this non-success status.
    ThreadsFailed { code: i32 },
    /// The capture call succeeded; `reported_words` is the word count the
    /// kernel wrote back (an oversize value is a decoding error).
    CaptureOk { snapshot: RegisterSnapshot, reported_words: u32 },
    /// The capture call answered with this non-success status.
    CaptureFailed { code: i32 },
    /// The task is running again.
    ResumeOk,
    /// The resume call answered with this non-success status; the target
    /// stays suspended, which the report surfaces as a terminal warning.
    ResumeFailed { code: i32 },
    /// The thread-handle buffer was released. A failed release is a fatal
    /// address-space fault the driver must abort on, so it has no event.
    Released,
}

/// One register-dump run. The driver alternates `next_action` and `feed`
/// until `is_finished`, then takes the `outcome`.
pub struct Run {
    /// The target process identifier, as parsed at the input boundary.
    pub pid: i32,
    /// Where the run stands.
    pub phase: Phase,
    /// The thread handles the kernel listed.
    pub threads: Vec<ThreadHandle>,
    /// The snapshots captured so far, in thread order.
    pub snapshots: Vec<RegisterSnapshot>,
    /// The per-thread capture failures so far, in thread order.
    pub failures: Vec<CaptureFailure>,
    /// The kernel-owned buffer the thread handles arrived in.
    pub buffer: Option<BufferRecord>,
    /// The status code of a failed resume, if the resume call failed.
    pub resume_failure: Option<ResumeError>,
    /// Why the run failed, when it did.
    pub error: Option<RunError>,
    /// Whether the suspend call succeeded; from then on the run owes the
    /// target exactly one resume.
    pub suspend_succeeded: bool,
    /// How many resume calls were performed for this run.
    pub resumes: u32,
    /// How many buffer releases were performed for this run.
    pub releases: u32,
    /// The byte size handed to the release that was performed.
    pub released_bytes: u64,
}

impl Run {
    /// Nothing with a side effect has happened yet.
    pub open spec fn untouched(self) -> bool {
        &&& !self.suspend_succeeded
        &&& self.resumes == 0
        &&& self.releases == 0
        &&& self.threads@.len() == 0
        &&& self.snapshots@.len() == 0
        &&& self.failures@.len() == 0
        &&& self.buffer is None
        &&& self.resume_failure is None
        &&& self.error is None
    }

    /// Every listed thread was iterated: each produced a snapshot or a
    /// recorded failure.
    pub open spec fn capture_done(self) -> bool {
        self.snapshots@.len() + self.failures@.len() == self.threads@.len()
    }

    /// The machine's invariant: what must hold of the bookkeeping in each
    /// phase. Established by `new` and preserved by `feed`.
    pub open spec fn inv(self) -> bool {
        &&& self.threads@.len() <= u32::MAX
        &&& self.resumes <= 1
        &&& self.releases <= 1
        &&& match self.phase {
            Phase::AwaitAcquire => self.untouched(),
            Phase::AwaitSuspend { .. } => self.untouched(),
            Phase::AwaitThreads { .. } => {
                &&& self.suspend_succeeded
                &&& self.resumes == 0
                &&& self.releases == 0
                &&& self.threads@.len() == 0
                &&& self.snapshots@.len() == 0
                &&& self.failures@.len() == 0
                &&& self.buffer is None
                &&& self.resume_failure is None
                &&& self.error is None
            },
            Phase::AwaitCapture { next, .. } => {
                &&& self.suspend_succeeded
                &&& self.resumes == 0
                &&& self.releases == 0
                &&& next < self.threads@.len()
                &&& self.snapshots@.len() + self.failures@.len() == next
                &&& self.buffer matches Some(b) && b.count == self.threads@.len()
                &&& self.resume_failure is None
                &&& self.error is None
            },
            Phase::AwaitResume { enumeration_failure, .. } => {
                &&& self.suspend_succeeded
                &&& self.resumes == 0
                &&& self.releases == 0
                &&& self.resume_failure is None
                &&& self.error is None
                &&& match enumeration_failure {
                    Some(_) => self.threads@.len() == 0 && self.snapshots@.len() == 0
                        && self.failures@.len() == 0 && self.buffer is None,
                    None => self.capture_done() && (self.buffer matches Some(b) && b.count
                        == self.threads@.len()),
                }
            },
            Phase::AwaitRelease => {
                &&& self.suspend_succeeded
                &&& self.resumes == 1
                &&& self.releases == 0
                &&& self.capture_done()
                &&& self.buffer matches Some(b) && b.count == self.threads@.len()
                &&& self.error is None
            },
            Phase::Done => {
                &&& self.suspend_succeeded
                &&& self.resumes == 1
                &&& self.releases == 1
                &&& self.capture_done()
                &&& self.buffer matches Some(b) && b.count == self.threads@.len()
                &&& self.released_bytes == self.threads@.len() * THREAD_HANDLE_BYTES
                &&& self.error is None
            },
            Phase::Failed => {
                &&& self.error matches Some(e)
                &&& match e {
                    RunError::Acquisition { .. } => {
                        &&& !self.suspend_succeeded
                        &&& self.resumes == 0
                        &&& self.releases == 0
                        &&& self.resume_failure is None
                    },
                    RunError::Suspend { .. } => {
                        &&& !self.suspend_succeeded
                        &&& self.resumes == 0
                        &&& self.releases == 0
                        &&& self.resume_failure is None
                    },
                    RunError::Enumeration { resume_failure, .. } => {
                        &&& self.suspend_succeeded
                        &&& self.resumes == 1
                        &&& self.releases == 0
                        &&& self.buffer is None
                        &&& self.resume_failure == resume_failure
                    },
                }
            },
        }
    }

    /// The run has reached `Done` or `Failed`.
    pub open spec fn is_terminal(self) -> bool {
        self.phase is Done || self.phase is Failed
    }

    /// The kernel call pending in the current phase.
    pub open spec fn spec_next_action(self) -> Action {
        match self.phase {
            Phase::AwaitAcquire => Action::Acquire { pid: self.pid },
            Phase::AwaitSuspend { task } => Action::Suspend { task },
            Phase::AwaitThreads { task } => Action::ListThreads { task },
            Phase::AwaitCapture { task: _, next } => Action::Capture {
                thread: self.threads@[next as int],
            },
            Phase::AwaitResume { task, .. } => Action::Resume { task },
            Phase::AwaitRelease => match self.buffer {
                Some(b) => Action::Release {
                    addr: b.addr,
                    byte_size: (b.count * THREAD_HANDLE_BYTES) as u64,
                },
                None => Action::Stop,
            },
            Phase::Done => Action::Stop,
            Phase::Failed => Action::Stop,
        }
    }

    /// Which events answer the pending action.
    pub open spec fn expects(self, e: Event) -> bool {
        match self.phase {
            Phase::AwaitAcquire => e is AcquireOk || e is AcquireFailed,
            Phase::AwaitSuspend { .. } => e is SuspendOk || e is SuspendFailed,
            Phase::AwaitThreads { .. } => (e matches Event::ThreadsOk { threads, .. }
                && threads@.len() <= u32::MAX) || e is ThreadsFailed,
            Phase::AwaitCapture { .. } => e is CaptureOk || e is CaptureFailed,
            Phase::AwaitResume { .. } => e is ResumeOk || e is ResumeFailed,
            Phase::AwaitRelease => e is Released,
            Phase::Done => false,
            Phase::Failed => false,
        }
    }

    /// A run that has parsed its target and performed nothing yet.
    pub fn new(pid: i32) -> (r: Run)
        ensures
            r.inv(),
            r.phase == Phase::AwaitAcquire,
            r.pid == pid,
            r.untouched(),
    {
        Run {
            pid,
            phase: Phase::AwaitAcquire,
            threads: Vec::new(),
            snapshots: Vec::new(),
            failures: Vec::new(),
            buffer: None,
            resume_failure: None,
            error: None,
            suspend_succeeded: false,
            resumes: 0,
            releases: 0,
            released_bytes: 0,
        }
    }

    /// The kernel call the driver must perform next (`Stop` once the run
    /// is terminal).
    pub fn next_action(&self) -> (a: Action)
        requires
            self.inv(),
        ensures
            a == self.spec_next_action(),
    {
        match self.phase {
            Phase::AwaitAcquire => Action::Acquire { pid: self.pid },
            Phase::AwaitSuspend { task } => Action::Suspend { task },
            Phase::AwaitThreads { task } => Action::ListThreads { task },
            Phase::AwaitCapture { task: _, next } => Action::Capture {
                thread: self.threads[next],
            },
            Phase::AwaitResume { task, enumeration_failure: _ } => Action::Resume { task },
            Phase::AwaitRelease => match self.buffer {
                Some(b) => Action::Release {
                    addr: b.addr,
                    byte_size: (b.count as u64) * THREAD_HANDLE_BYTES,
                },
                None => {
                    assert(false);
                    Action::Stop
                },
            },
            Phase::Done => Action::Stop,
            Phase::Failed => Action::Stop,
        }
    }

    /// The run accepts no further event.
    pub fn is_finished(&self) -> (r: bool)
        ensures
            r == self.is_terminal(),
    {
        match self.phase {
            Phase::Done => true,
            Phase::Failed => true,
            _ => false,
        }
    }
}

/// The fields a step never touches.
pub open spec fn counters_unchanged(pre: Run, post: Run) -> bool {
    &&& post.pid == pre.pid
    &&& post.suspend_succeeded == pre.suspend_succeeded
    &&& post.resumes == pre.resumes
    &&& post.releases == pre.releases
    &&& post.released_bytes == pre.released_bytes
}

/// The record fields (threads, snapshots, failures, buffer, warnings,
/// error) all kept as they were.
pub open spec fn records_unchanged(pre: Run, post: Run) -> bool {
    &&& post.threads == pre.threads
    &&& post.snapshots == pre.snapshots
    &&& post.failures == pre.failures
    &&& post.buffer == pre.buffer
    &&& post.resume_failure == pre.resume_failure
    &&& post.error == pre.error
}

/// The record fields other than the error kept as they were.
pub open spec fn records_unchanged_but_error(pre: Run, post: Run) -> bool {
    &&& post.threads == pre.threads
    &&& post.snapshots == pre.snapshots
    &&& post.failures == pre.failures
    &&& post.buffer == pre.buffer
    &&& post.resume_failure == pre.resume_failure
}

/// The exact transition relation of the machine: what `feed` does to the
/// run for each phase and each event that answers it.
pub open spec fn step_spec(pre: Run, e: Event, post: Run) -> bool {
    match pre.phase {
        Phase::AwaitAcquire => match e {
            Event::AcquireOk { task } => {
                &&& post.phase == Phase::AwaitSuspend { task }
                &&& counters_unchanged(pre, post)
                &&& records_unchanged(pre, post)
            },
            Event::AcquireFailed { error } => {
                &&& post.phase == Phase::Failed
                &&& post.error == Some(RunError::Acquisition { error })
                &&& counters_unchanged(pre, post)
                &&& records_unchanged_but_error(pre, post)
            },
            _ => false,
        },
        Phase::AwaitSuspend { task } => match e {
            Event::SuspendOk => {
                &&& post.phase == Phase::AwaitThreads { task }
                &&& post.suspend_succeeded
                &&& post.pid == pre.pid
                &&& post.resumes == pre.resumes
                &&& post.releases == pre.releases
                &&& post.released_bytes == pre.released_bytes
                &&& records_unchanged(pre, post)
            },
            Event::SuspendFailed { code } => {
                &&& post.phase == Phase::Failed
                &&& post.error == Some(
                    RunError::Suspend { error: SuspendError::SuspendFailed(code) },
                )
                &&& counters_unchanged(pre, post)
                &&& records_unchanged_but_error(pre, post)
            },
            _ => false,
        },
        Phase::AwaitThreads { task } => match e {
            Event::ThreadsOk { threads, addr } => {
                &&& post.phase == (if threads@.len() == 0 {
                    Phase::AwaitResume { task, enumeration_failure: None }
                } else {
                    Phase::AwaitCapture { task, next: 0 }
                })
                &&& post.threads == threads
                &&& post.buffer matches Some(b) && b.addr == addr && b.count == threads@.len()
                &&& post.snapshots == pre.snapshots
                &&& post.failures == pre.failures
                &&& post.resume_failure == pre.resume_failure
                &&& post.error == pre.error
                &&& counters_unchanged(pre, post)
            },
            Event::ThreadsFailed { code } => {
                &&& post.phase == Phase::AwaitResume { task, enumeration_failure: Some(code) }
                &&& counters_unchanged(pre, post)
                &&& records_unchanged(pre, post)
            },
            _ => false,
        },
        Phase::AwaitCapture { task, next } => {
            let advanced = if next + 1 == pre.threads@.len() {
                Phase::AwaitResume { task, enumeration_failure: None }
            } else {
                Phase::AwaitCapture { task, next: (next + 1) as usize }
            };
            match e {
                Event::CaptureOk { snapshot, reported_words } => {
                    &&& post.phase == advanced
                    &&& if reported_words <= snapshot.spec_word_capacity() {
                        &&& post.snapshots@ == pre.snapshots@.push(snapshot)
                        &&& post.failures == pre.failures
                    } else {
                        &&& post.snapshots == pre.snapshots
                        &&& post.failures@ == pre.failures@.push(
                            CaptureFailure {
                                index: next,
                                error: CaptureError::BadWordCount {
                                    sent: snapshot.spec_word_capacity(),
                                    got: reported_words,
                                },
                            },
                        )
                    }
                    &&& post.threads == pre.threads
                    &&& post.buffer == pre.buffer
                    &&& post.resume_failure == pre.resume_failure
                    &&& post.error == pre.error
                    &&& counters_unchanged(pre, post)
                },
                Event::CaptureFailed { code } => {
                    &&& post.phase == advanced
                    &&& post.snapshots == pre.snapshots
                    &&& post.failures@ == pre.failures@.push(
                        CaptureFailure { index: next, error: CaptureError::KernelError(code) },
                    )
                    &&& post.threads == pre.threads
                    &&& post.buffer == pre.buffer
                    &&& post.resume_failure == pre.resume_failure
                    &&& post.error == pre.error
                    &&& counters_unchanged(pre, post)
                },
                _ => false,
            }
        },
        Phase::AwaitResume { task: _, enumeration_failure } => match e {
            Event::ResumeOk => {
                &&& post.resumes == 1
                &&& post.resume_failure is None
                &&& (match enumeration_failure {
                    Some(code) => post.phase == Phase::Failed && post.error == Some(
                        RunError::Enumeration {
                            error: EnumerationError::KernelError(code),
                            resume_failure: None,
                        },
                    ),
                    None => post.phase == Phase::AwaitRelease && post.error == pre.error,
                })
                &&& post.threads == pre.threads
                &&& post.snapshots == pre.snapshots
                &&& post.failures == pre.failures
                &&& post.buffer == pre.buffer
                &&& post.pid == pre.pid
                &&& post.suspend_succeeded == pre.suspend_succeeded
                &&& post.releases == pre.releases
                &&& post.released_bytes == pre.released_bytes
            },
            Event::ResumeFailed { code } => {
                &&& post.resumes == 1
                &&& post.resume_failure == Some(ResumeError::ResumeFailed(code))
                &&& (match enumeration_failure {
                    Some(ec) => post.phase == Phase::Failed && post.error == Some(
                        RunError::Enumeration {
                            error: EnumerationError::KernelError(ec),
                            resume_failure: Some(ResumeError::ResumeFailed(code)),
                        },
                    ),
                    None => post.phase == Phase::AwaitRelease && post.error == pre.error,
                })
                &&& post.threads == pre.threads
                &&& post.snapshots == pre.snapshots
                &&& post.failures == pre.failures
                &&& post.buffer == pre.buffer
                &&& post.pid == pre.pid
                &&& post.suspend_succeeded == pre.suspend_succeeded
                &&& post.releases == pre.releases
                &&& post.released_bytes == pre.released_bytes
            },
            _ => false,
        },
        Phase::AwaitRelease => match e {
            Event::Released => {
                &&& post.phase == Phase::Done
                &&& post.releases == 1
                &&& pre.buffer matches Some(b) && post.released_bytes == b.count
                    * THREAD_HANDLE_BYTES
                &&& post.threads == pre.threads
                &&& post.snapshots == pre.snapshots
                &&& post.failures == pre.failures
                &&& post.buffer == pre.buffer
                &&& post.resume_failure == pre.resume_failure
                &&& post.error == pre.error
                &&& post.pid == pre.pid
                &&& post.suspend_succeeded == pre.suspend_succeeded
                &&& post.resumes == pre.resumes
            },
            _ => false,
        },
        Phase::Done => false,
        Phase::Failed => false,
    }
}

impl Run {
    /// Answers the pending action with what the kernel returned, moving
    /// the run one step. The step taken is exactly `step_spec`, and the
    /// invariant is preserved.
    pub fn feed(&mut self, e: Event)
        requires
            old(self).inv(),
            old(self).expects(e),
        ensures
            final(self).inv(),
            step_spec(*old(self), e, *final(self)),
    {
        match self.phase {
            Phase::AwaitAcquire => match e {
                Event::AcquireOk { task } => {
                    self.phase = Phase::AwaitSuspend { task };
                },
                Event::AcquireFailed { error } => {
                    self.error = Some(RunError::Acquisition { error });
                    self.phase = Phase::Failed;
                },
                _ => {
                    proof {
                        assert(false);
                    }
                },
            },
            Phase::AwaitSuspend { task } => match e {
                Event::SuspendOk => {
                    self.suspend_succeeded = true;
                    self.phase = Phase::AwaitThreads { task };
                },
                Event::SuspendFailed { code } => {
                    self.error = Some(RunError::Suspend { error: SuspendError::SuspendFailed(code) });
                    self.phase = Phase::Failed;
                },
                _ => {
                    proof {
                        assert(false);
                    }
                },
            },
            Phase::AwaitThreads { task } => match e {
                Event::ThreadsOk { threads, addr } => {
                    let count = threads.len();
                    self.threads = threads;
                    self.buffer = Some(BufferRecord { addr, count });
                    if count == 0 {
                        self.phase = Phase::AwaitResume { task, enumeration_failure: None };
                    } else {
                        self.phase = Phase::AwaitCapture { task, next: 0 };
                    }
                },
                Event::ThreadsFailed { code } => {
                    self.phase = Phase::AwaitResume { task, enumeration_failure: Some(code) };
                },
                _ => {
                    proof {
                        assert(false);
                    }
                },
            },
            Phase::AwaitCapture { task, next } => {
                match e {
                    Event::CaptureOk { snapshot, reported_words } => {
                        let capacity = snapshot.word_capacity();
                        if reported_words <= capacity {
                            self.snapshots.push(snapshot);
                        } else {
                            self.failures.push(
                                CaptureFailure {
                                    index: next,
                                    error: CaptureError::BadWordCount {
                                        sent: capacity,
                                        got: reported_words,
                                    },
                                },
                            );
                        }
                    },
                    Event::CaptureFailed { code } => {
                        self.failures.push(
                            CaptureFailure { index: next, error: CaptureError::KernelError(code) },
                        );
                    },
                    _ => {
                        proof {
                            assert(false);
                        }
                    },
                }
                let n2 = next + 1;
                if n2 == self.threads.len() {
                    self.phase = Phase::AwaitResume { task, enumeration_failure: None };
                } else {
                    self.phase = Phase::AwaitCapture { task, next: n2 };
                }
            },
            Phase::AwaitResume { task: _, enumeration_failure } => match e {
                Event::ResumeOk => {
                    self.resumes = 1;
                    match enumeration_failure {
                        Some(code) => {
                            self.error = Some(
                                RunError::Enumeration {
                                    error: EnumerationError::KernelError(code),
                                    resume_failure: None,
                                },
                            );
                            self.phase = Phase::Failed;
                        },
                        None => {
                            self.phase = Phase::AwaitRelease;
                        },
                    }
                },
                Event::ResumeFailed { code } => {
                    self.resumes = 1;
                    self.resume_failure = Some(ResumeError::ResumeFailed(code));
                    match enumeration_failure {
                        Some(ec) => {
                            self.error = Some(
                                RunError::Enumeration {
                                    error: EnumerationError::KernelError(ec),
                                    resume_failure: Some(ResumeError::ResumeFailed(code)),
                                },
                            );
                            self.phase = Phase::Failed;
                        },
                        None => {
                            self.phase = Phase::AwaitRelease;
                        },
                    }
                },
                _ => {
                    proof {
                        assert(false);
                    }
                },
            },
            Phase::AwaitRelease => match e {
                Event::Released => {
                    match self.buffer {
                        Some(b) => {
                            self.released_bytes = (b.count as u64) * THREAD_HANDLE_BYTES;
                        },
                        None => {
                            proof {
                                assert(false);
                            }
                        },
                    }
                    self.releases = 1;
                    self.phase = Phase::Done;
                },
                _ => {
                    proof {
                        assert(false);
                    }
                },
            },
            Phase::Done => {
                proof {
                    assert(false);
                }
            },
            Phase::Failed => {
                proof {
                    assert(false);
                }
            },
        }
    }

    /// The result of a terminal run: the report of a completed one, or why
    /// it ended early.
    pub fn outcome(self) -> (r: Result<RunReport, RunError>)
        requires
            self.inv(),
            self.is_terminal(),
        ensures
            self.phase is Done ==> (r matches Ok(rep) && rep.thread_count == self.threads@.len()
                && rep.snapshots == self.snapshots && rep.failures == self.failures
                && rep.resume_failure == self.resume_failure),
            self.phase is Failed ==> (r matches Err(err) && self.error == Some(err)),
    {
        match self.phase {
            Phase::Done => Ok(
                RunReport {
                    thread_count: self.threads.len(),
                    snapshots: self.snapshots,
                    failures: self.failures,
                    resume_failure: self.resume_failure,
                },
            ),
            _ => match self.error {
                Some(err) => Err(err),
                None => {
                    proof {
                        assert(false);
                    }
                    Err(RunError::Acquisition { error: AcquisitionError::NotFound })
                },
            },
        }
    }
}

/// Law: in every terminal state of a valid run, the suspend/resume pair is
/// balanced. The resume call was performed exactly once if and only if the
/// suspend call succeeded — whether enumeration and the captures succeeded,
/// partially succeeded, or failed — and it was never performed twice.
pub proof fn law_suspend_resume_paired(r: Run)
    requires
        r.inv(),
        r.is_terminal(),
    ensures
        r.suspend_succeeded <==> r.resumes == 1,
        r.resumes <= 1,
{
}

/// Law: a completed run accounted for every listed thread — each produced
/// a snapshot or a recorded failure — and released the kernel-owned buffer
/// exactly once, with the byte size it was allocated with.
pub proof fn law_buffer_released_once(r: Run)
    requires
        r.inv(),
        r.phase is Done,
    ensures
        r.releases == 1,
        r.released_bytes == r.threads@.len() * THREAD_HANDLE_BYTES,
        r.snapshots@.len() + r.failures@.len() == r.threads@.len(),
{
}

/// Opens a run for the identifier read at the input boundary. Malformed
/// input yields the input error and no run, so no kernel action is ever
/// requested for it.
pub fn begin_run(input: &[u8]) -> (r: Result<Run, InputError>)
    ensures
        r is Ok <==> all_digits(line_prefix(input@)) && digits_value(line_prefix(input@))
            <= i32::MAX,
        r matches Ok(run) ==> run.inv(),
        r matches Ok(run) ==> run.phase == Phase::AwaitAcquire && run.untouched(),
        r matches Ok(run) ==> run.pid as int == digits_value(line_prefix(input@)),
{
    match parse_pid(input) {
        Ok(pid) => Ok(Run::new(pid)),
        Err(e) => Err(e),
    }
}

} // verus!
