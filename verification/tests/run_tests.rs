use regdump::errors::acquisition_failure;
use regdump::errors::AcquisitionError;
use regdump::errors::CaptureError;
use regdump::errors::EnumerationError;
use regdump::errors::InputError;
use regdump::errors::ResumeError;
use regdump::errors::SuspendError;
use regdump::errors::KERN_FAILURE;
use regdump::regs::x86_thread_state64_t;
use regdump::run::begin_run;
use regdump::run::Action;
use regdump::run::CaptureFailure;
use regdump::run::Event;
use regdump::run::ProcessHandle;
use regdump::run::RegisterSnapshot;
use regdump::run::Run;
use regdump::run::RunError;
use regdump::run::RunReport;
use regdump::run::ThreadHandle;

/// A scripted kernel: what each call answers, and a count of every call
/// made, so a test can check the suspend/resume pairing from outside.
struct MockKernel {
    acquire: Result<u32, AcquisitionError>,
    suspend: Result<(), i32>,
    threads: Result<Vec<u32>, i32>,
    captures: Vec<Result<(RegisterSnapshot, u32), i32>>,
    resume: Result<(), i32>,
    acquire_calls: usize,
    suspend_calls: usize,
    resume_calls: usize,
    capture_calls: usize,
    releases: Vec<(u64, u64)>,
}

impl MockKernel {
    fn new() -> MockKernel {
        MockKernel {
            acquire: Ok(0x9001),
            suspend: Ok(()),
            threads: Ok(vec![]),
            captures: vec![],
            resume: Ok(()),
            acquire_calls: 0,
            suspend_calls: 0,
            resume_calls: 0,
            capture_calls: 0,
            releases: vec![],
        }
    }
}

const BUFFER_ADDR: u64 = 0x7000_1000;

fn good_snapshot() -> RegisterSnapshot {
    RegisterSnapshot::X86(x86_thread_state64_t::new())
}

/// Performs each pending action against the scripted kernel and feeds the
/// answer back, until the run is terminal.
fn drive(run: &mut Run, kernel: &mut MockKernel) {
    loop {
        match run.next_action() {
            Action::Acquire { pid: _ } => {
                kernel.acquire_calls += 1;
                match kernel.acquire {
                    Ok(raw) => run.feed(Event::AcquireOk { task: ProcessHandle { raw } }),
                    Err(error) => run.feed(Event::AcquireFailed { error }),
                }
            }
            Action::Suspend { task: _ } => {
                kernel.suspend_calls += 1;
                match kernel.suspend {
                    Ok(()) => run.feed(Event::SuspendOk),
                    Err(code) => run.feed(Event::SuspendFailed { code }),
                }
            }
            Action::ListThreads { task: _ } => match &kernel.threads {
                Ok(raws) => {
                    let threads: Vec<ThreadHandle> =
                        raws.iter().map(|raw| ThreadHandle { raw: *raw }).collect();
                    run.feed(Event::ThreadsOk { threads, addr: BUFFER_ADDR });
                }
                Err(code) => {
                    let code = *code;
                    run.feed(Event::ThreadsFailed { code });
                }
            },
            Action::Capture { thread: _ } => {
                let index = kernel.capture_calls;
                kernel.capture_calls += 1;
                match &kernel.captures[index] {
                    Ok((snapshot, reported_words)) => run.feed(Event::CaptureOk {
                        snapshot: *snapshot,
                        reported_words: *reported_words,
                    }),
                    Err(code) => {
                        let code = *code;
                        run.feed(Event::CaptureFailed { code });
                    }
                }
            }
            Action::Resume { task: _ } => {
                kernel.resume_calls += 1;
                match kernel.resume {
                    Ok(()) => run.feed(Event::ResumeOk),
                    Err(code) => run.feed(Event::ResumeFailed { code }),
                }
            }
            Action::Release { addr, byte_size } => {
                kernel.releases.push((addr, byte_size));
                run.feed(Event::Released);
            }
            Action::Stop => break,
        }
    }
}

#[test]
fn malformed_input_makes_no_kernel_call() {
    let kernel = MockKernel::new();
    match begin_run(b"12a4\n") {
        Ok(_) => panic!("malformed input must not open a run"),
        Err(e) => assert_eq!(e, InputError),
    }
    // No run exists, so the driver is never entered: the kernel saw nothing.
    assert_eq!(kernel.acquire_calls, 0);
    assert_eq!(kernel.suspend_calls, 0);
    assert_eq!(kernel.resume_calls, 0);
}

#[test]
fn parsed_pid_reaches_the_acquire_action() {
    let run = begin_run(b"42\n").expect("well-formed input");
    assert_eq!(run.next_action(), Action::Acquire { pid: 42 });
}

#[test]
fn unknown_pid_yields_not_found_and_no_suspend() {
    let mut run = begin_run(b"999999\n").expect("well-formed input");
    assert_eq!(run.next_action(), Action::Acquire { pid: 999999 });
    let mut kernel = MockKernel::new();
    // The kernel answers the acquisition with the generic failure code and
    // no process with this identifier exists.
    kernel.acquire = Err(acquisition_failure(KERN_FAILURE, false));
    drive(&mut run, &mut kernel);
    assert_eq!(kernel.suspend_calls, 0);
    assert_eq!(kernel.resume_calls, 0);
    assert_eq!(
        run.outcome(),
        Err(RunError::Acquisition { error: AcquisitionError::NotFound })
    );
}

#[test]
fn unprivileged_target_yields_permission_denied() {
    let mut run = begin_run(b"1\n").expect("well-formed input");
    let mut kernel = MockKernel::new();
    // The process exists, but the caller is not privileged: the kernel
    // answers with the generic failure code.
    kernel.acquire = Err(acquisition_failure(KERN_FAILURE, true));
    drive(&mut run, &mut kernel);
    assert_eq!(
        run.outcome(),
        Err(RunError::Acquisition { error: AcquisitionError::PermissionDenied })
    );
}

#[test]
fn other_acquire_status_is_kept_as_kernel_error() {
    assert_eq!(acquisition_failure(4, true), AcquisitionError::KernelError(4));
    assert_eq!(acquisition_failure(4, false), AcquisitionError::NotFound);
}

#[test]
fn zero_threads_empty_report_and_one_resume() {
    let mut run = Run::new(42);
    let mut kernel = MockKernel::new();
    kernel.threads = Ok(vec![]);
    drive(&mut run, &mut kernel);
    assert_eq!(kernel.suspend_calls, 1);
    assert_eq!(kernel.resume_calls, 1);
    assert_eq!(kernel.capture_calls, 0);
    assert_eq!(kernel.releases, vec![(BUFFER_ADDR, 0)]);
    let report = run.outcome().expect("the run completed");
    assert_eq!(report.thread_count, 0);
    assert!(report.snapshots.is_empty());
    assert!(report.failures.is_empty());
    assert_eq!(report.resume_failure, None);
}

#[test]
fn three_threads_one_capture_failure_still_resumes() {
    let mut run = Run::new(42);
    let mut kernel = MockKernel::new();
    kernel.threads = Ok(vec![11, 22, 33]);
    kernel.captures = vec![
        Ok((good_snapshot(), 42)),
        Err(268435459),
        Ok((good_snapshot(), 42)),
    ];
    drive(&mut run, &mut kernel);
    assert_eq!(kernel.suspend_calls, 1);
    assert_eq!(kernel.resume_calls, 1);
    assert_eq!(kernel.capture_calls, 3);
    // One thread-handle buffer released, exactly once, with
    // count * size-of-one-handle bytes.
    assert_eq!(kernel.releases, vec![(BUFFER_ADDR, 12)]);
    let report = run.outcome().expect("the run completed");
    assert_eq!(report.thread_count, 3);
    assert_eq!(report.snapshots.len(), 2);
    assert_eq!(
        report.failures,
        vec![CaptureFailure { index: 1, error: CaptureError::KernelError(268435459) }]
    );
    assert_eq!(report.resume_failure, None);
}

#[test]
fn reported_thread_count_equals_iterated_threads() {
    let mut run = Run::new(7);
    let mut kernel = MockKernel::new();
    kernel.threads = Ok(vec![1, 2, 3, 4, 5]);
    kernel.captures = vec![
        Ok((good_snapshot(), 42)),
        Ok((good_snapshot(), 42)),
        Err(5),
        Ok((good_snapshot(), 42)),
        Err(5),
    ];
    drive(&mut run, &mut kernel);
    let report = run.outcome().expect("the run completed");
    assert_eq!(report.thread_count, kernel.capture_calls);
    assert_eq!(report.snapshots.len() + report.failures.len(), report.thread_count);
    assert_eq!(kernel.releases.len(), 1);
    assert_eq!(kernel.releases[0].1, 5 * 4);
}

#[test]
fn enumeration_failure_still_resumes_exactly_once() {
    let mut run = Run::new(42);
    let mut kernel = MockKernel::new();
    kernel.threads = Err(1);
    drive(&mut run, &mut kernel);
    assert_eq!(kernel.suspend_calls, 1);
    assert_eq!(kernel.resume_calls, 1);
    assert!(kernel.releases.is_empty());
    assert_eq!(
        run.outcome(),
        Err(RunError::Enumeration {
            error: EnumerationError::KernelError(1),
            resume_failure: None,
        })
    );
}

#[test]
fn failed_suspend_never_resumes() {
    let mut run = Run::new(42);
    let mut kernel = MockKernel::new();
    kernel.suspend = Err(5);
    drive(&mut run, &mut kernel);
    assert_eq!(kernel.suspend_calls, 1);
    assert_eq!(kernel.resume_calls, 0);
    assert!(kernel.releases.is_empty());
    assert_eq!(
        run.outcome(),
        Err(RunError::Suspend { error: SuspendError::SuspendFailed(5) })
    );
}

#[test]
fn capture_failures_never_add_resume_calls() {
    // Whether captures succeed, partially succeed, or all fail, a
    // successful suspend is paired with exactly one resume.
    for script in [
        vec![Ok((good_snapshot(), 42))],
        vec![Err(1)],
        vec![Ok((good_snapshot(), 42)), Err(2), Err(3)],
    ] {
        let mut run = Run::new(42);
        let mut kernel = MockKernel::new();
        kernel.threads = Ok((0..script.len() as u32).collect());
        kernel.captures = script;
        drive(&mut run, &mut kernel);
        assert_eq!(kernel.suspend_calls, 1);
        assert_eq!(kernel.resume_calls, 1);
        assert_eq!(kernel.releases.len(), 1);
    }
}

#[test]
fn oversize_word_count_is_a_decoding_error() {
    let mut run = Run::new(42);
    let mut kernel = MockKernel::new();
    kernel.threads = Ok(vec![11]);
    // The kernel reports more words than the capacity that was sent.
    kernel.captures = vec![Ok((good_snapshot(), 99))];
    drive(&mut run, &mut kernel);
    let report = run.outcome().expect("the run completed");
    assert_eq!(report.snapshots.len(), 0);
    assert_eq!(
        report.failures,
        vec![CaptureFailure { index: 0, error: CaptureError::BadWordCount { sent: 42, got: 99 } }]
    );
}

#[test]
fn word_count_at_capacity_is_accepted() {
    let mut run = Run::new(42);
    let mut kernel = MockKernel::new();
    kernel.threads = Ok(vec![11]);
    kernel.captures = vec![Ok((good_snapshot(), 42))];
    drive(&mut run, &mut kernel);
    let report = run.outcome().expect("the run completed");
    assert_eq!(report.snapshots.len(), 1);
    assert!(report.failures.is_empty());
}

#[test]
fn failed_resume_is_a_warning_and_keeps_snapshots() {
    let mut run = Run::new(42);
    let mut kernel = MockKernel::new();
    kernel.threads = Ok(vec![11]);
    kernel.captures = vec![Ok((good_snapshot(), 42))];
    kernel.resume = Err(3);
    drive(&mut run, &mut kernel);
    assert_eq!(kernel.resume_calls, 1);
    assert_eq!(kernel.releases, vec![(BUFFER_ADDR, 4)]);
    let report: RunReport = run.outcome().expect("the run still completed");
    assert_eq!(report.snapshots.len(), 1);
    assert_eq!(report.resume_failure, Some(ResumeError::ResumeFailed(3)));
}

#[test]
fn failed_resume_after_failed_enumeration_reports_both() {
    let mut run = Run::new(42);
    let mut kernel = MockKernel::new();
    kernel.threads = Err(1);
    kernel.resume = Err(3);
    drive(&mut run, &mut kernel);
    assert_eq!(
        run.outcome(),
        Err(RunError::Enumeration {
            error: EnumerationError::KernelError(1),
            resume_failure: Some(ResumeError::ResumeFailed(3)),
        })
    );
}
