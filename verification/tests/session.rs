use conmon::config::CommonCfg;
use conmon::error::{ConmonError, ConmonResult};
use conmon::os::{ErrorKind, OsFailure};
use conmon::remote_socket::{RemoteSocket, SocketType};
use conmon::session::children::{
    FinalizeEvent, FinalizeStep, PollChildrenResult, PollEvent, PollStep, ProcessStatus, ReapStep,
    WaitStatus,
};
use conmon::session::exit::{
    ExitEvent, ExitProgress, ExitStep, SyncReport, WaitSuccessEvent, WaitSuccessStep,
};
use conmon::session::idle::{IdleEvent, IdleStep};
use conmon::session::start::{
    EventLoopEvent, EventLoopStep, PidFileEvent, PidFileStep, TerminalEvent, TerminalStep,
};
use conmon::session::{OpenFilesSnapshot, RuntimeSession, NO_PROCESS};
use conmon::unix_socket::UnixSocket;
use nix::sys::signal::Signal;

fn new_session() -> RuntimeSession {
    RuntimeSession::new(OpenFilesSnapshot { fds: Vec::new() })
}

fn no_child() -> PollEvent {
    PollEvent::WaitFailed(OsFailure {
        kind: ErrorKind::NoChild,
        reason: "ECHILD: No child processes".to_owned(),
        subject: String::new(),
    })
}

fn config() -> CommonCfg {
    CommonCfg {
        api_version: 1,
        logging_passthrough: false,
        full_attach: false,
        bundle: b"/bundle".to_vec(),
        socket_dir_path: b"/sockets".to_vec(),
        cuuid: None,
        terminal: false,
        stdin: false,
        sdnotify_socket: None,
        timeout: None,
        replace_listen_pid: false,
        sync_flag: false,
        conmon_pidfile: None,
        container_pidfile: b"/tmp/pidfile.txt".to_vec(),
        persist_dir: Some(b"/persist".to_vec()),
    }
}

/// What is known of a process: this one runs, and no other exists.
fn lookup(pid: i32) -> ProcessStatus {
    if pid == nix::unistd::getpid().as_raw() {
        ProcessStatus::Running
    } else {
        ProcessStatus::Exited
    }
}

/// Polls children where there are none.
fn poll_children_once(session: &mut RuntimeSession) -> ConmonResult<PollChildrenResult> {
    let mut event = PollEvent::Start;
    loop {
        event = match session.poll_children_once(event)? {
            PollStep::Wait => no_child(),
            PollStep::Probe(pid) => PollEvent::Probed(lookup(pid)),
            PollStep::Done(result) => return Ok(result),
        };
    }
}

fn reap_event(step: ReapStep) -> PollEvent {
    match step {
        ReapStep::Wait => no_child(),
        ReapStep::Probe(pid) => PollEvent::Probed(lookup(pid)),
        ReapStep::Done => unreachable!(),
    }
}

fn finalize_event(step: FinalizeStep) -> FinalizeEvent {
    match step {
        FinalizeStep::Reap(step) => FinalizeEvent::Reap(reap_event(step)),
        FinalizeStep::Probe(pid) => FinalizeEvent::Probed(lookup(pid)),
        FinalizeStep::Done => unreachable!(),
    }
}

/// Settles the exit of the container where there are no children.
fn finalize_container_exit(session: &mut RuntimeSession) -> ConmonResult<()> {
    let mut event = FinalizeEvent::Start;
    loop {
        event = match session.finalize_container_exit(event)? {
            FinalizeStep::Done => return Ok(()),
            step => finalize_event(step),
        };
    }
}

/// Writes the exit code where there are no children and stderr holds `stderr`. Gives what
/// was written to the sync pipe, and whether stderr was read.
fn write_exit_code(
    session: &mut RuntimeSession,
    api_version: i32,
    as_code: bool,
    stderr: &[u8],
) -> ConmonResult<(Vec<SyncReport>, bool)> {
    let mut progress = ExitProgress {
        fd: -1,
        to_report: -1,
    };
    let mut event = ExitEvent::Start;
    let mut reports = Vec::new();
    let mut stderr_read = false;
    loop {
        event = match session.write_exit_code(api_version, as_code, &mut progress, event)? {
            ExitStep::CloseInherited(fds) => {
                assert_eq!(fds, session.open_files.fds);
                ExitEvent::Closed
            }
            ExitStep::Finalize(step) => ExitEvent::Finalize(finalize_event(step)),
            ExitStep::ReadStderr { fd, limit } => {
                assert_eq!(Some(fd), session.mainfd_stderr);
                assert_eq!(limit, 8192);
                stderr_read = true;
                ExitEvent::Stderr(stderr.to_vec())
            }
            ExitStep::Write(report) => {
                reports.push(report);
                ExitEvent::Written(None)
            }
            ExitStep::Done => return Ok((reports, stderr_read)),
        };
    }
}

/// Calls the idle callback where there are no children.
fn idle_callback(session: &mut RuntimeSession, signal_received: bool) -> ConmonResult<bool> {
    let mut event = IdleEvent::Start(signal_received);
    loop {
        event = match session.idle_callback(event)? {
            IdleStep::AskTime => IdleEvent::Now(1_000),
            IdleStep::Poll(PollStep::Wait) => IdleEvent::Poll(no_child()),
            IdleStep::Poll(PollStep::Probe(pid)) => {
                IdleEvent::Poll(PollEvent::Probed(lookup(pid)))
            }
            IdleStep::Done(go_on) => return Ok(go_on),
            step => panic!("unexpected step: {step:?}"),
        };
    }
}

#[test]
fn exit_code_defaults_and_accessor_work() {
    let s = new_session();
    assert_eq!(s.exit_code(), None);
}

#[test]
fn read_container_pid_returns_pid_on_valid_file() -> ConmonResult<()> {
    let sess = new_session();
    let pid = sess.read_container_pid("12345\n", "/tmp/pidfile.txt")?;
    assert_eq!(pid, 12345);
    Ok(())
}

#[test]
fn read_container_pid_errors_on_invalid_contents() -> ConmonResult<()> {
    let sess = new_session();
    let err = sess
        .read_container_pid("not-a-number", "/tmp/pidfile.txt")
        .unwrap_err();
    let msg = err.message();
    assert!(
        msg.contains("Invalid PID contents"),
        "unexpected error: {msg}"
    );
    assert_eq!(
        msg,
        "Invalid PID contents in /tmp/pidfile.txt: not-a-number (invalid digit found in string)"
    );
    Ok(())
}

#[test]
fn run_event_loop_errors_without_stdio() -> ConmonResult<()> {
    let mut sess = new_session();
    let err = match sess.run_event_loop(false, false, EventLoopEvent::Start) {
        Err(e) => e,
        Ok(_) => panic!("no error"),
    };
    let msg = err.message();
    assert!(
        msg.contains("RuntimeSession called without stdio"),
        "unexpected error message: {msg}"
    );
    Ok(())
}

#[test]
fn write_exit_code_skips_sync_pipe_after_create_success() -> ConmonResult<()> {
    let sync_w_fd = 31;
    let mut sess = new_session();
    sess.sync_pipe_fd = Some(sync_w_fd);
    sess.mainfd_stderr = Some(32);
    sess.container_started = true;
    sess.container_status = Some(0);
    sess.timeout = 0;
    sess.timed_out = true;
    sess.exit_code = Some(1);

    let (reports, _) = write_exit_code(&mut sess, 0, false, b"late runtime error\n")?;

    assert!(sess.sync_pipe_fd.is_some());
    assert_eq!(sess.sync_pipe_fd, Some(sync_w_fd));
    assert_eq!(reports.len(), 0, "sync pipe should have no pending data");
    Ok(())
}

#[test]
fn write_exit_code_reports_negative_pid_on_create_failure() -> ConmonResult<()> {
    let mut sess = new_session();
    sess.sync_pipe_fd = Some(31);
    sess.mainfd_stderr = Some(32);
    sess.exit_code = Some(1);
    sess.container_started = false;

    let (reports, _) = write_exit_code(&mut sess, 0, false, b"runc create failed: bad config\n")?;

    assert_eq!(reports.len(), 1);
    assert_eq!(reports[0].fd, 31);
    assert_eq!(reports[0].data, -1);
    assert!(!reports[0].as_exit_code);
    assert!(reports[0]
        .message
        .as_deref()
        .unwrap()
        .contains("runc create failed"));
    Ok(())
}

#[test]
fn finalize_container_exit_probes_exited_pid() -> ConmonResult<()> {
    let mut sess = new_session();
    sess.container_started = true;
    sess.container_pid = Some(nix::unistd::getpid().as_raw());
    // Current process is alive; finalize should leave status unset.
    finalize_container_exit(&mut sess)?;
    assert_eq!(sess.container_status, None);

    // A PID that no longer exists should be treated as exited.
    sess.container_status = None;
    sess.container_pid = Some(999_999_999);
    finalize_container_exit(&mut sess)?;
    assert_eq!(sess.container_status, Some(0));
    assert_eq!(sess.container_pid, None);
    Ok(())
}

#[test]
fn finalize_container_exit_is_noop_when_status_known() -> ConmonResult<()> {
    let mut sess = new_session();
    sess.container_started = true;
    sess.container_status = Some(1);
    sess.container_pid = Some(999_999_999);
    finalize_container_exit(&mut sess)?;
    assert_eq!(sess.container_status, Some(1));
    assert_eq!(sess.container_pid, Some(999_999_999));
    Ok(())
}

#[test]
fn handle_container_wait_status_records_normal_exit() {
    let mut sess = new_session();
    sess.container_pid = Some(4242);
    sess.handle_container_wait_status(WaitStatus::Exited(4242, 7));
    assert_eq!(sess.container_status, Some(7));
    assert_eq!(sess.container_pid, None);
}

#[test]
fn handle_container_wait_status_records_signal_exit() {
    let mut sess = new_session();
    sess.container_pid = Some(4242);
    sess.handle_container_wait_status(WaitStatus::Signaled(4242, Signal::SIGKILL as u8, false));
    assert_eq!(sess.container_status, Some(128 + Signal::SIGKILL as i32));
    assert_eq!(sess.container_pid, None);
}

#[test]
fn fast_exit_before_event_loop_stops_idle_callback() -> ConmonResult<()> {
    let mut sess = new_session();
    sess.container_started = true;
    sess.container_pid = Some(4242);
    // An exec that exited after PID registration but before the loop.
    sess.handle_container_wait_status(WaitStatus::Exited(4242, 5));
    assert!(!idle_callback(&mut sess, false)?);
    assert_eq!(sess.container_exit_code(), Some(5));
    Ok(())
}

#[test]
fn echild_keeps_running_for_live_non_child_process() -> ConmonResult<()> {
    let mut sess = new_session();
    sess.container_started = true;
    sess.container_pid = Some(nix::unistd::getpid().as_raw());
    assert!(matches!(
        poll_children_once(&mut sess)?,
        PollChildrenResult::KeepRunning
    ));
    assert_eq!(sess.container_status, None);
    Ok(())
}

#[test]
fn echild_stops_for_exited_process() -> ConmonResult<()> {
    let mut sess = new_session();
    sess.container_started = true;
    sess.container_pid = Some(999_999_999);
    assert!(matches!(
        poll_children_once(&mut sess)?,
        PollChildrenResult::StopEventLoop
    ));
    assert_eq!(sess.container_status, Some(0));
    assert_eq!(sess.container_pid, None);
    Ok(())
}

#[test]
fn container_exit_code_is_none_when_status_unknown() {
    let sess = new_session();
    assert_eq!(sess.container_exit_code(), None);
}

#[test]
fn container_exit_code_is_minus_one_after_timeout() {
    let mut sess = new_session();
    sess.container_status = Some(137);
    sess.timed_out = true;
    assert_eq!(sess.container_exit_code(), Some(-1));
}

#[test]
fn poll_children_stops_after_status_known_and_pid_cleared() -> ConmonResult<()> {
    let mut sess = new_session();
    sess.container_started = true;
    sess.container_status = Some(1);
    sess.container_pid = None;
    // No children left.
    assert!(matches!(
        poll_children_once(&mut sess)?,
        PollChildrenResult::StopEventLoop
    ));
    Ok(())
}

#[test]
fn idle_callback_stops_when_container_already_exited() -> ConmonResult<()> {
    let mut sess = new_session();
    sess.container_started = true;
    sess.container_status = Some(0);
    sess.container_pid = None;
    assert!(!idle_callback(&mut sess, false)?);
    Ok(())
}

#[test]
fn write_exit_code_is_noop_without_sync_fd() -> ConmonResult<()> {
    // If no syncpipe FD was captured in launch(), write_exit_code should simply succeed
    // and not attempt to read from stderr (so it must not block).
    let mut sess = new_session();
    sess.mainfd_stderr = Some(32);

    // Also set an exit code to make sure the function path is covered.
    sess.exit_code = Some(42);

    // No sync_pipe_fd set -> should be a no-op success.
    let res = write_exit_code(&mut sess, 1, true, b"err\n");
    assert!(
        res.is_ok(),
        "write_exit_code should be a no-op when sync fd is None"
    );
    let (reports, stderr_read) = res?;
    assert!(reports.is_empty());
    assert!(!stderr_read);
    Ok(())
}

#[test]
fn a_new_session_knows_nothing() {
    let sess = RuntimeSession::new(OpenFilesSnapshot { fds: vec![3, 4] });
    assert_eq!(sess.process_pid, NO_PROCESS);
    assert_eq!(sess.sync_pipe_fd, None);
    assert_eq!(sess.container_pid, None);
    assert_eq!(sess.timeout, 0);
    assert_eq!(sess.open_files.fds, [3, 4]);
}

#[test]
fn a_default_session_knows_nothing_and_closes_nothing() {
    let sess = RuntimeSession::default();
    assert_eq!(sess.process_pid, NO_PROCESS);
    assert!(sess.open_files.fds.is_empty());
    assert_eq!(sess.exit_code(), None);
    assert_eq!(sess.container_exit_code(), None);
    assert!(!sess.container_started);
}

#[test]
fn a_descriptor_is_removed_from_the_snapshot() {
    let mut files = OpenFilesSnapshot {
        fds: vec![3, 5, 4, 5],
    };
    files.remove(5);
    assert_eq!(files.fds, [3, 4]);
    files.remove(9);
    assert_eq!(files.fds, [3, 4]);
}

#[test]
fn pid_files_are_numbers_with_white_space_around() {
    let sess = new_session();
    for (contents, pid) in [
        ("1", 1),
        ("  77 \n\t", 77),
        ("+5\n", 5),
        ("-3", -3),
        ("\u{2003}8\u{a0}", 8),
        ("2147483647\n", i32::MAX),
        ("-2147483648\n", i32::MIN),
        ("0007", 7),
    ] {
        assert_eq!(sess.read_container_pid(contents, "f").unwrap(), pid);
    }
    for contents in ["", "\n", "+", "-", "1 2", "0x10", "2147483648", "--1", "٣"] {
        let err = sess.read_container_pid(contents, "f").unwrap_err();
        assert!(err.message().starts_with("Invalid PID contents in f: "));
        assert_eq!(err.exit_code(), 1);
    }
    assert_eq!(
        sess.read_container_pid(" 99999999999 \n", "f")
            .unwrap_err()
            .message(),
        "Invalid PID contents in f: 99999999999 (number too large to fit in target type)"
    );
}

#[test]
fn polled_children_are_told_apart() -> ConmonResult<()> {
    let mut sess = new_session();
    sess.process_pid = 100;
    sess.container_pid = Some(200);
    sess.container_started = true;

    let other = sess.poll_children_once(PollEvent::Waited(WaitStatus::Exited(300, 1)))?;
    assert_eq!(other, PollStep::Done(PollChildrenResult::ReapedOther));
    let other = sess.poll_children_once(PollEvent::Waited(WaitStatus::Signaled(300, 9, true)))?;
    assert_eq!(other, PollStep::Done(PollChildrenResult::ReapedOther));
    assert_eq!((sess.exit_code, sess.container_status), (None, None));

    let runtime = sess.poll_children_once(PollEvent::Waited(WaitStatus::Signaled(100, 15, false)))?;
    assert_eq!(runtime, PollStep::Done(PollChildrenResult::StopEventLoop));
    assert_eq!(sess.exit_code, Some(143));
    let runtime = sess.poll_children_once(PollEvent::Waited(WaitStatus::Exited(100, 2)))?;
    assert_eq!(runtime, PollStep::Done(PollChildrenResult::StopEventLoop));
    assert_eq!(sess.exit_code, Some(2));

    for status in [
        WaitStatus::StillAlive,
        WaitStatus::Stopped(200),
        WaitStatus::Continued(200),
        WaitStatus::PtraceEvent(200),
        WaitStatus::PtraceSyscall(200),
    ] {
        let step = sess.poll_children_once(PollEvent::Waited(status))?;
        assert_eq!(step, PollStep::Done(PollChildrenResult::KeepRunning));
    }
    assert_eq!(sess.container_status, None);

    let container = sess.poll_children_once(PollEvent::Waited(WaitStatus::Signaled(200, 9, true)))?;
    assert_eq!(container, PollStep::Done(PollChildrenResult::StopEventLoop));
    assert_eq!(sess.container_status, Some(137));
    assert_eq!(sess.container_pid, None);
    Ok(())
}

#[test]
fn failed_waits_are_told_apart() -> ConmonResult<()> {
    let mut sess = new_session();
    let interrupted = PollEvent::WaitFailed(OsFailure {
        kind: ErrorKind::Interrupted,
        reason: String::new(),
        subject: String::new(),
    });
    assert_eq!(
        sess.poll_children_once(interrupted)?,
        PollStep::Done(PollChildrenResult::KeepRunning)
    );
    let err = sess
        .poll_children_once(PollEvent::WaitFailed(OsFailure {
            kind: ErrorKind::Other,
            reason: "EINVAL: Invalid argument".to_owned(),
            subject: String::new(),
        }))
        .unwrap_err();
    assert_eq!(
        err.message(),
        "Failed to read child process status: EINVAL: Invalid argument"
    );

    // No child and no container: nothing to wait for.
    assert_eq!(
        poll_children_once(&mut sess)?,
        PollChildrenResult::StopEventLoop
    );
    // A container that was started and has neither pid nor status is waited for.
    sess.container_started = true;
    assert_eq!(
        poll_children_once(&mut sess)?,
        PollChildrenResult::KeepRunning
    );
    // What cannot be found out is not invented.
    sess.container_pid = Some(200);
    assert_eq!(
        sess.poll_children_once(PollEvent::Probed(ProcessStatus::Unknown))?,
        PollStep::Done(PollChildrenResult::KeepRunning)
    );
    assert_eq!(sess.container_status, None);
    Ok(())
}

#[test]
fn a_known_status_is_not_replaced_by_a_guess() {
    let mut sess = new_session();
    sess.container_status = Some(3);
    sess.container_pid = Some(200);
    sess.assume_container_exited_without_status();
    assert_eq!(sess.container_status, Some(3));
    assert_eq!(sess.container_pid, None);
}

#[test]
fn reaping_drains_unrelated_children() -> ConmonResult<()> {
    let mut sess = new_session();
    sess.container_started = true;
    sess.container_pid = Some(200);
    assert_eq!(sess.reap_pending_children(PollEvent::Start)?, ReapStep::Wait);
    for pid in [301, 302, 303] {
        assert_eq!(
            sess.reap_pending_children(PollEvent::Waited(WaitStatus::Exited(pid, 0)))?,
            ReapStep::Wait
        );
    }
    assert_eq!(
        sess.reap_pending_children(PollEvent::Waited(WaitStatus::Exited(200, 4)))?,
        ReapStep::Done
    );
    assert_eq!(sess.container_status, Some(4));
    // Nothing is reaped once the status is known.
    assert_eq!(sess.reap_pending_children(PollEvent::Start)?, ReapStep::Done);
    Ok(())
}

#[test]
fn finalizing_looks_up_a_container_that_is_no_child() -> ConmonResult<()> {
    let mut sess = new_session();
    sess.container_started = true;
    sess.container_pid = Some(200);
    assert_eq!(
        sess.finalize_container_exit(FinalizeEvent::Start)?,
        FinalizeStep::Reap(ReapStep::Wait)
    );
    assert_eq!(
        sess.finalize_container_exit(FinalizeEvent::Reap(PollEvent::Waited(
            WaitStatus::StillAlive
        )))?,
        FinalizeStep::Probe(200)
    );
    assert_eq!(
        sess.finalize_container_exit(FinalizeEvent::Probed(ProcessStatus::Unknown))?,
        FinalizeStep::Done
    );
    assert_eq!(sess.container_status, None);
    Ok(())
}

#[test]
fn an_exec_reports_the_status_of_its_container() -> ConmonResult<()> {
    let mut sess = new_session();
    sess.sync_pipe_fd = Some(31);
    sess.container_started = true;
    sess.container_status = Some(17);
    let (reports, stderr_read) = write_exit_code(&mut sess, 2, true, b"")?;
    assert!(!stderr_read);
    assert_eq!(reports.len(), 1);
    assert_eq!(reports[0].data, 17);
    assert_eq!(reports[0].api_version, 2);
    assert!(reports[0].as_exit_code);
    assert_eq!(reports[0].message, None);
    assert_eq!(sess.sync_pipe_fd, None);
    Ok(())
}

#[test]
fn an_open_exit_is_settled_before_it_is_reported() -> ConmonResult<()> {
    let mut sess = new_session();
    sess.sync_pipe_fd = Some(31);
    sess.container_started = true;
    sess.container_pid = Some(999_999_999);
    let (reports, _) = write_exit_code(&mut sess, 2, true, b"")?;
    assert_eq!(reports[0].data, 0);
    assert_eq!(sess.container_status, Some(0));

    // A container that is still alive is reported as unknown.
    let mut sess = new_session();
    sess.sync_pipe_fd = Some(31);
    sess.container_started = true;
    sess.container_pid = Some(nix::unistd::getpid().as_raw());
    let (reports, _) = write_exit_code(&mut sess, 2, true, b"")?;
    assert_eq!(reports[0].data, -1);
    assert_eq!(sess.container_status, None);
    Ok(())
}

#[test]
fn a_timeout_is_reported_as_such() -> ConmonResult<()> {
    let mut sess = new_session();
    sess.sync_pipe_fd = Some(31);
    sess.mainfd_stderr = Some(32);
    sess.container_started = true;
    sess.container_status = Some(137);
    sess.timed_out = true;
    let (reports, stderr_read) = write_exit_code(&mut sess, 2, true, b"noise")?;
    assert!(!stderr_read);
    assert_eq!(reports[0].data, -1);
    assert_eq!(reports[0].message.as_deref(), Some("command timed out"));
    Ok(())
}

#[test]
fn a_failed_runtime_is_reported_by_its_real_code() -> ConmonResult<()> {
    for (exit_code, as_code, expected) in [
        (Some(42), true, 42),
        (Some(42), false, -1),
        (Some(0), true, 0),
        (Some(-4), true, -4),
        (None, true, -1),
        (None, false, -1),
    ] {
        let mut sess = new_session();
        sess.sync_pipe_fd = Some(31);
        sess.exit_code = exit_code;
        let (reports, _) = write_exit_code(&mut sess, 0, as_code, b"")?;
        assert_eq!(reports[0].data, expected, "{exit_code:?} {as_code}");
    }
    Ok(())
}

#[test]
fn stderr_that_is_no_text_is_reported_with_replacements() -> ConmonResult<()> {
    let mut sess = new_session();
    sess.sync_pipe_fd = Some(31);
    sess.mainfd_stderr = Some(32);
    let (reports, _) = write_exit_code(&mut sess, 0, false, b"bad \xff byte")?;
    assert_eq!(
        reports[0].message.as_deref(),
        Some("bad \u{fffd} byte")
    );
    Ok(())
}

#[test]
fn the_inherited_descriptors_are_closed_first() -> ConmonResult<()> {
    let mut sess = RuntimeSession::new(OpenFilesSnapshot { fds: vec![8, 9] });
    let mut progress = ExitProgress {
        fd: -1,
        to_report: -1,
    };
    match sess.write_exit_code(0, false, &mut progress, ExitEvent::Start)? {
        ExitStep::CloseInherited(fds) => assert_eq!(fds, [8, 9]),
        step => panic!("unexpected step: {step:?}"),
    }
    assert_eq!(sess.open_files.fds, [8, 9]);
    Ok(())
}

#[test]
fn a_failure_while_writing_is_handed_on() {
    let mut sess = new_session();
    let mut progress = ExitProgress {
        fd: 31,
        to_report: -1,
    };
    let err = sess
        .write_exit_code(
            0,
            false,
            &mut progress,
            ExitEvent::Failed(ConmonError::new("EPIPE".to_owned(), 1)),
        )
        .unwrap_err();
    assert_eq!(err.message(), "EPIPE");
}

#[test]
fn waiting_records_the_exit_code() {
    let mut sess = new_session();
    assert_eq!(sess.wait(Ok(3)).unwrap(), 3);
    assert_eq!(sess.exit_code(), Some(3));
    let err = sess
        .wait(Err(ConmonError::new("no process".to_owned(), 1)))
        .unwrap_err();
    assert_eq!(err.message(), "no process");
    assert_eq!(sess.exit_code(), Some(3));
}

/// Waits for a runtime that exits with `code`.
fn wait_for_success(session: &mut RuntimeSession, code: i32) -> (ConmonResult<()>, Vec<SyncReport>) {
    let mut progress = ExitProgress {
        fd: -1,
        to_report: -1,
    };
    let mut event = WaitSuccessEvent::Start;
    let mut reports = Vec::new();
    loop {
        event = match session.wait_for_success(1, false, &mut progress, event) {
            Err(e) => return (Err(e), reports),
            Ok(WaitSuccessStep::Wait) => WaitSuccessEvent::Waited(code),
            Ok(WaitSuccessStep::Exit(ExitStep::CloseInherited(_))) => {
                WaitSuccessEvent::Exit(ExitEvent::Closed)
            }
            Ok(WaitSuccessStep::Exit(ExitStep::Write(report))) => {
                reports.push(report);
                WaitSuccessEvent::Exit(ExitEvent::Written(None))
            }
            Ok(WaitSuccessStep::Exit(step)) => panic!("unexpected step: {step:?}"),
            Ok(WaitSuccessStep::Done) => return (Ok(()), reports),
        };
    }
}

#[test]
fn a_runtime_that_succeeds_is_not_reported() {
    let mut sess = new_session();
    sess.sync_pipe_fd = Some(31);
    let (result, reports) = wait_for_success(&mut sess, 0);
    assert!(result.is_ok());
    assert!(reports.is_empty());
    assert_eq!(sess.exit_code(), Some(0));
    assert_eq!(sess.sync_pipe_fd, Some(31));
}

#[test]
fn a_runtime_that_fails_is_reported_and_is_an_error() {
    for (code, text) in [(1, "1"), (-7, "-7"), (139, "139"), (i32::MIN, "-2147483648")] {
        let mut sess = new_session();
        sess.sync_pipe_fd = Some(31);
        let (result, reports) = wait_for_success(&mut sess, code);
        let err = result.unwrap_err();
        assert_eq!(err.message(), format!("Runtime exited with status: {text}"));
        assert_eq!(err.exit_code(), 1);
        assert_eq!(reports.len(), 1);
        assert_eq!(reports[0].data, -1);
        assert_eq!(sess.exit_code(), Some(code));
    }
}

#[test]
fn the_pid_of_a_container_that_exits_at_once_is_reported() -> ConmonResult<()> {
    let mut sess = new_session();
    sess.sync_pipe_fd = Some(31);
    let cfg = config();
    let mut reported = -1;

    match sess.write_container_pid_file(&cfg, &mut reported, PidFileEvent::Start)? {
        PidFileStep::ReadPidFile(path) => assert_eq!(path, b"/tmp/pidfile.txt"),
        step => panic!("unexpected step: {step:?}"),
    }
    let contents = PidFileEvent::Contents {
        text: "4242\n".to_owned(),
        path_text: "/tmp/pidfile.txt".to_owned(),
    };
    match sess.write_container_pid_file(&cfg, &mut reported, contents)? {
        PidFileStep::Reap(step) => assert_eq!(step, ReapStep::Wait),
        step => panic!("unexpected step: {step:?}"),
    }
    assert_eq!(sess.container_pid, Some(4242));
    assert!(sess.container_started);

    let gone = PidFileEvent::Reap(PollEvent::Waited(WaitStatus::Exited(4242, 6)));
    match sess.write_container_pid_file(&cfg, &mut reported, gone)? {
        PidFileStep::SetupOom {
            pid,
            persist_dir,
            bundle,
        } => {
            assert_eq!(pid, 4242);
            assert_eq!(persist_dir.as_deref(), Some(&b"/persist"[..]));
            assert_eq!(bundle, b"/bundle");
        }
        step => panic!("unexpected step: {step:?}"),
    }
    assert_eq!(sess.container_pid, None);
    assert_eq!(sess.container_status, Some(6));

    let oom = RemoteSocket::new(SocketType::Inotify, 55);
    match sess.write_container_pid_file(&cfg, &mut reported, PidFileEvent::OomReady(Some(oom)))? {
        PidFileStep::Write(report) => {
            assert_eq!((report.fd, report.data), (31, 4242));
            assert_eq!(report.message, None);
            assert_eq!(report.api_version, 1);
            assert!(!report.as_exit_code);
        }
        step => panic!("unexpected step: {step:?}"),
    }
    assert_eq!(sess.oom_socket.as_ref().map(|s| s.fd), Some(55));
    assert_eq!(sess.sync_pipe_fd, None);

    let step =
        sess.write_container_pid_file(&cfg, &mut reported, PidFileEvent::Written(Some(31)))?;
    assert!(matches!(step, PidFileStep::Done));
    assert_eq!(sess.sync_pipe_fd, Some(31));
    Ok(())
}

#[test]
fn the_pid_is_not_reported_without_a_sync_pipe() -> ConmonResult<()> {
    let mut sess = new_session();
    let cfg = config();
    let mut reported = 9;
    let step = sess.write_container_pid_file(&cfg, &mut reported, PidFileEvent::OomReady(None))?;
    assert!(matches!(step, PidFileStep::Done));
    Ok(())
}

#[test]
fn a_pid_file_that_cannot_be_read_leaves_the_session_alone() {
    let mut sess = new_session();
    let cfg = config();
    let mut reported = -1;
    let contents = PidFileEvent::Contents {
        text: "nothing".to_owned(),
        path_text: "p".to_owned(),
    };
    let err = sess
        .write_container_pid_file(&cfg, &mut reported, contents)
        .unwrap_err();
    assert!(err.message().starts_with("Invalid PID contents in p: nothing ("));
    assert!(!sess.container_started);
    assert_eq!(sess.container_pid, None);
    let err = sess
        .write_container_pid_file(
            &cfg,
            &mut reported,
            PidFileEvent::Failed(ConmonError::new("no file".to_owned(), 1)),
        )
        .unwrap_err();
    assert_eq!(err.message(), "no file");
}

#[test]
fn the_terminal_is_received_over_the_console_socket() -> ConmonResult<()> {
    let mut sess = new_session();
    assert!(matches!(
        sess.wait_for_terminal_creation(TerminalEvent::Start)?,
        TerminalStep::Done
    ));
    sess.process_pid = 77;
    let mut console = UnixSocket::new(SocketType::Terminal, true, b"/b".to_vec(), None, None);
    console.fd = Some(12);
    sess.console_socket = Some(console);
    match sess.wait_for_terminal_creation(TerminalEvent::Start)? {
        TerminalStep::Receive {
            socket,
            runtime_pid,
        } => {
            assert_eq!(socket.fd(), Some(12));
            assert_eq!(runtime_pid, 77);
        }
        TerminalStep::Done => panic!("nothing to receive"),
    }
    assert!(sess.console_socket.is_none());
    let terminal = RemoteSocket::new(SocketType::Terminal, 13);
    assert!(matches!(
        sess.wait_for_terminal_creation(TerminalEvent::Received(terminal))?,
        TerminalStep::Done
    ));
    assert_eq!(sess.terminal_socket.as_ref().map(|t| t.fd), Some(13));
    let failed = TerminalEvent::Failed(ConmonError::new("runtime died".to_owned(), 1));
    assert!(matches!(
        sess.wait_for_terminal_creation(failed),
        Err(e) if e.message() == "runtime died"
    ));
    Ok(())
}

#[test]
fn the_event_loop_gets_all_that_the_session_has() -> ConmonResult<()> {
    let mut sess = new_session();
    sess.mainfd_stdout = Some(1);
    sess.mainfd_stderr = Some(2);
    sess.workerfd_stdin = Some(3);
    sess.ctl_fifo = Some(RemoteSocket::new(SocketType::TerminalFifo, 4));
    sess.winsz_fifo = Some(RemoteSocket::new(SocketType::ConsoleFifo, 5));
    sess.notify_socket = Some(RemoteSocket::new(SocketType::Notify, 6));
    sess.sdnotify_socket_path = Some(b"/run/notify".to_vec());
    sess.signals = Some(7);
    match sess.run_event_loop(true, false, EventLoopEvent::Start)? {
        EventLoopStep::Run(stdio) => {
            assert_eq!((stdio.stdout, stdio.stderr, stdio.stdin), (Some(1), 2, Some(3)));
            assert_eq!(stdio.ctl_fifo.map(|f| f.fd), Some(4));
            assert_eq!(stdio.winsz_fifo.map(|f| f.fd), Some(5));
            assert_eq!(stdio.notify_socket.map(|f| f.fd), Some(6));
            assert_eq!(stdio.sdnotify_socket_path.as_deref(), Some(&b"/run/notify"[..]));
            assert_eq!(stdio.signal_fd, 7);
            assert!(stdio.leave_stdin_open);
            assert!(!stdio.stdin_attached);
        }
        _ => panic!("the event loop does not run"),
    }
    assert_eq!(sess.mainfd_stderr, None);
    assert_eq!(sess.mainfd_stdout, None);
    assert_eq!(sess.signals, Some(7));
    // It cannot run a second time.
    assert!(sess.run_event_loop(true, false, EventLoopEvent::Start).is_err());
    Ok(())
}

#[test]
fn the_exit_is_settled_after_the_event_loop() -> ConmonResult<()> {
    let mut sess = new_session();
    sess.mainfd_stderr = Some(2);
    sess.container_started = true;
    sess.container_pid = Some(999_999_999);
    let mut event = EventLoopEvent::Start;
    loop {
        event = match sess.run_event_loop(false, true, event)? {
            EventLoopStep::Run(stdio) => {
                assert_eq!(stdio.signal_fd, -1);
                EventLoopEvent::Ended
            }
            EventLoopStep::Finalize(step) => EventLoopEvent::Finalize(finalize_event(step)),
            EventLoopStep::Done => break,
        };
    }
    assert_eq!(sess.container_exit_code(), Some(0));
    let failed = EventLoopEvent::Failed(ConmonError::new("poll failed".to_owned(), 1));
    assert!(matches!(
        sess.run_event_loop(false, true, failed),
        Err(e) if e.message() == "poll failed"
    ));
    Ok(())
}
