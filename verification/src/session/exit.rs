//! Reporting how the runtime and the container have ended.
use vstd::prelude::*;
use vstd::slice::slice_to_vec;

use crate::bytes::text_view;
use crate::error::{fail, failure, result_view, ConmonError, ConmonResult, ErrorView};
use crate::session::children::{FinalizeEvent, FinalizeStep, PollEvent, ReapStep};
use crate::session::idle::IdleEvent;
use crate::session::start::PidFileEvent;
use crate::session::{RuntimeSession, PIPE_READ_SIZE};
use crate::text::{i32_text, join2, lossy_text, signed_decimal, text_from_utf8_lossy};

verus! {

/// A message for the parent, to be written to the sync pipe.
#[derive(Debug)]
pub struct SyncReport {
    /// The sync pipe.
    pub fd: i32,
    /// A pid or an exit code.
    pub data: i32,
    /// What went wrong, if anything.
    pub message: Option<String>,
    /// The `--api-version` value.
    pub api_version: i32,
    /// Whether `data` is reported as an exit code rather than as a pid.
    pub as_exit_code: bool,
}

/// A message for the parent, by the values.
#[verifier::ext_equal]
pub struct SyncReportView {
    pub fd: i32,
    pub data: i32,
    pub message: Option<Seq<char>>,
    pub api_version: i32,
    pub as_exit_code: bool,
}

impl View for SyncReport {
    type V = SyncReportView;

    open spec fn view(&self) -> SyncReportView {
        SyncReportView {
            fd: self.fd,
            data: self.data,
            message: text_view(self.message),
            api_version: self.api_version,
            as_exit_code: self.as_exit_code,
        }
    }
}

/// What is known of a report that is being put together.
#[derive(Debug, Copy, Clone, PartialEq, Eq, Structural)]
pub struct ExitProgress {
    /// The sync pipe, taken out of the session.
    pub fd: i32,
    /// The exit code that is reported.
    pub to_report: i32,
}

/// What happened while the exit code was being written.
#[derive(Debug)]
pub enum ExitEvent {
    Start,
    /// The descriptors that the parent had opened are closed.
    Closed,
    /// What came of the last step of settling the exit of the container.
    Finalize(FinalizeEvent),
    /// This was read from the stderr of the runtime.
    Stderr(Vec<u8>),
    /// The report is written; the pipe is kept or not.
    Written(Option<i32>),
    /// The last step failed, which ends the matter.
    Failed(ConmonError),
}

/// What is needed next to write the exit code.
#[derive(Debug)]
pub enum ExitStep {
    /// Close these descriptors, which the parent had opened, but for stdio.
    CloseInherited(Vec<i32>),
    /// Take this step of settling the exit of the container.
    Finalize(FinalizeStep),
    /// Read once from this descriptor, so many bytes at most.
    ReadStderr { fd: i32, limit: usize },
    /// Write this to the sync pipe, in the format of the parent.
    Write(SyncReport),
    /// There is nothing more to write.
    Done,
}

/// What is needed next to write the exit code, by the values.
#[verifier::ext_equal]
pub enum ExitStepView {
    CloseInherited(Seq<i32>),
    Finalize(FinalizeStep),
    ReadStderr { fd: i32, limit: usize },
    Write(SyncReportView),
    Done,
}

impl View for ExitStep {
    type V = ExitStepView;

    open spec fn view(&self) -> ExitStepView {
        match self {
            ExitStep::CloseInherited(fds) => ExitStepView::CloseInherited(fds@),
            ExitStep::Finalize(step) => ExitStepView::Finalize(*step),
            ExitStep::ReadStderr { fd, limit } => ExitStepView::ReadStderr {
                fd: *fd,
                limit: *limit,
            },
            ExitStep::Write(report) => ExitStepView::Write(report@),
            ExitStep::Done => ExitStepView::Done,
        }
    }
}

/// What happened while the runtime was waited for.
#[derive(Debug)]
pub enum WaitSuccessEvent {
    Start,
    /// The runtime has exited with this code.
    Waited(i32),
    /// What came of the last step of writing the exit code.
    Exit(ExitEvent),
    /// The last step failed, which ends the matter.
    Failed(ConmonError),
}

/// What is needed next to wait for the runtime.
#[derive(Debug)]
pub enum WaitSuccessStep {
    /// Wait until the runtime exits.
    Wait,
    /// Take this step of writing the exit code.
    Exit(ExitStep),
    /// The runtime has succeeded.
    Done,
}

/// What is needed next to wait for the runtime, by the values.
#[verifier::ext_equal]
pub enum WaitSuccessStepView {
    Wait,
    Exit(ExitStepView),
    Done,
}

impl View for WaitSuccessStep {
    type V = WaitSuccessStepView;

    open spec fn view(&self) -> WaitSuccessStepView {
        match self {
            WaitSuccessStep::Wait => WaitSuccessStepView::Wait,
            WaitSuccessStep::Exit(step) => WaitSuccessStepView::Exit(step@),
            WaitSuccessStep::Done => WaitSuccessStepView::Done,
        }
    }
}

/// What is said of a session that timed out.
pub open spec fn timed_out_message() -> Seq<char> {
    "command timed out"@
}

/// How an exit code reads in a message.
pub open spec fn exit_code_text(code: Option<i32>) -> Seq<char> {
    match code {
        Some(c) => signed_decimal(c as int),
        None => "unknown"@,
    }
}

impl RuntimeSession {
    /// Whether nothing may be reported: once create has reported the container PID, it
    /// must not write another response to the sync pipe.
    pub open spec fn already_answered(self, as_code: bool) -> bool {
        !as_code && self.container_started
    }

    /// The exit code that is reported for the session as it stands. The wire format uses
    /// -1 for what is unknown or timed out. For a runtime that has ended before the container
    /// started, its real exit code is reported if an exit code is asked for, else -1.
    pub open spec fn code_to_report(self, as_code: bool) -> int {
        if self.timed_out {
            -1
        } else if self.container_started {
            match self.container_status {
                Some(code) => code as int,
                None => -1,
            }
        } else {
            match self.exit_code {
                Some(code) => if as_code {
                    code as int
                } else {
                    -1
                },
                None => -1,
            }
        }
    }

    /// Whether the exit of the container has to be settled before it is reported.
    pub open spec fn exit_is_open(self) -> bool {
        !self.timed_out && self.container_started && self.container_status is None
    }

    /// What is needed to report once the code is known: the stderr of the runtime gives
    /// the message, unless the session timed out.
    pub open spec fn report_step(
        self,
        progress: ExitProgress,
        api_version: i32,
        as_code: bool,
    ) -> ExitStepView {
        if self.timed_out {
            ExitStepView::Write(
                written(progress, Some(timed_out_message()), api_version, as_code),
            )
        } else {
            match self.mainfd_stderr {
                Some(fd) => ExitStepView::ReadStderr { fd, limit: PIPE_READ_SIZE },
                None => ExitStepView::Write(written(progress, None, api_version, as_code)),
            }
        }
    }

    /// What is needed to write the exit code after `event`.
    pub open spec fn exit_outcome(
        self,
        api_version: i32,
        as_code: bool,
        progress: ExitProgress,
        event: ExitEvent,
    ) -> Result<ExitStepView, ErrorView> {
        let after = self.exit_progress(as_code, progress, event);
        match event {
            ExitEvent::Start => Ok(ExitStepView::CloseInherited(self.open_files.fds@)),
            ExitEvent::Closed => match self.sync_pipe_fd {
                None => Ok(ExitStepView::Done),
                Some(_) => if self.already_answered(as_code) {
                    Ok(ExitStepView::Done)
                } else if self.exit_is_open() {
                    Ok(ExitStepView::Finalize(FinalizeStep::Reap(ReapStep::Wait)))
                } else {
                    Ok(self.report_step(after, api_version, as_code))
                },
            },
            ExitEvent::Finalize(inner) => match self.finalize_outcome(inner) {
                Ok(FinalizeStep::Done) => Ok(
                    self.after_finalize(inner).report_step(after, api_version, as_code),
                ),
                Ok(step) => Ok(ExitStepView::Finalize(step)),
                Err(e) => Err(e),
            },
            ExitEvent::Stderr(bytes) => Ok(
                ExitStepView::Write(
                    written(progress, Some(lossy_text(bytes@)), api_version, as_code),
                ),
            ),
            ExitEvent::Written(_) => Ok(ExitStepView::Done),
            ExitEvent::Failed(e) => Err(e@),
        }
    }

    /// What is known of the report after `event`.
    pub open spec fn exit_progress(
        self,
        as_code: bool,
        progress: ExitProgress,
        event: ExitEvent,
    ) -> ExitProgress {
        match event {
            ExitEvent::Closed => match self.sync_pipe_fd {
                Some(fd) => if self.already_answered(as_code) {
                    progress
                } else {
                    ExitProgress { fd, to_report: self.code_to_report(as_code) as i32 }
                },
                None => progress,
            },
            ExitEvent::Finalize(inner) => if self.finalize_outcome(inner) == Ok::<
                FinalizeStep,
                ErrorView,
            >(FinalizeStep::Done) {
                ExitProgress {
                    to_report: match self.after_finalize(inner).container_status {
                        Some(code) => code,
                        None => -1i32,
                    },
                    ..progress
                }
            } else {
                progress
            },
            _ => progress,
        }
    }

    /// The session after `event` while the exit code was being written.
    pub open spec fn after_exit(self, as_code: bool, event: ExitEvent) -> RuntimeSession {
        match event {
            ExitEvent::Closed => if self.already_answered(as_code) {
                self
            } else {
                RuntimeSession { sync_pipe_fd: None, ..self }
            },
            ExitEvent::Finalize(inner) => self.after_finalize(inner),
            ExitEvent::Written(fd) => RuntimeSession { sync_pipe_fd: fd, ..self },
            _ => self,
        }
    }

    /// Writes the "runtime" exit code to all the configured locations.
    ///
    /// This function is called at the end of Conmon Session execution and ensures
    /// the exit code of container or runtime is written to all the locations where
    /// parents look for it.
    ///
    /// # Arguments
    ///
    /// * `api_version` - The `--api-version` value.
    /// * `write_exit_code` - When `true`, the real exit code is written instead of -1.
    /// * `progress` - What is known of the report so far.
    /// * `event` - What happened.
    pub fn write_exit_code(
        &mut self,
        api_version: i32,
        write_exit_code: bool,
        progress: &mut ExitProgress,
        event: ExitEvent,
    ) -> (step: ConmonResult<ExitStep>)
        ensures
            result_view(step) == old(self).exit_outcome(
                api_version,
                write_exit_code,
                *old(progress),
                event,
            ),
            *final(progress) == old(self).exit_progress(write_exit_code, *old(progress), event),
            *final(self) == old(self).after_exit(write_exit_code, event),
    {
        match event {
            // Before exiting, we close all the fds injected to Conmon by parent, since we will
            // be exiting soon.
            ExitEvent::Start => Ok(self.close_step()),
            ExitEvent::Closed => {
                // Once create has reported the container PID, it must not write another
                // response to the sync pipe, even if the runtime later exits or times out.
                // Exec (write_exit_code=true) writes the final exit status.
                if !write_exit_code && self.container_started {
                    return Ok(ExitStep::Done);
                }
                match self.sync_pipe_fd.take() {
                    None => Ok(ExitStep::Done),
                    Some(fd) => {
                        progress.fd = fd;
                        // Prepare the exit code according to the `write_exit_code`.
                        // Sync-pipe wire format still uses -1 for "unknown / timed out".
                        progress.to_report = -1;
                        if !self.timed_out {
                            if self.container_started {
                                match self.container_status {
                                    Some(code) => {
                                        progress.to_report = code;
                                    },
                                    None => {
                                        return Ok(
                                            ExitStep::Finalize(FinalizeStep::Reap(ReapStep::Wait)),
                                        );
                                    },
                                }
                            } else if write_exit_code {
                                if let Some(code) = self.exit_code {
                                    progress.to_report = code;
                                }
                            }
                        }
                        Ok(self.make_report_step(*progress, api_version, write_exit_code))
                    },
                }
            },
            ExitEvent::Finalize(inner) => match self.finalize_container_exit(inner) {
                Ok(FinalizeStep::Done) => {
                    progress.to_report = match self.container_status {
                        Some(code) => code,
                        None => -1,
                    };
                    Ok(self.make_report_step(*progress, api_version, write_exit_code))
                },
                Ok(step) => Ok(ExitStep::Finalize(step)),
                Err(e) => Err(e),
            },
            ExitEvent::Stderr(bytes) => {
                // If we have stderr from runtime, pass the error message to parent.
                let message = text_from_utf8_lossy(bytes.as_slice());
                Ok(
                    ExitStep::Write(
                        make_report(*progress, Some(message), api_version, write_exit_code),
                    ),
                )
            },
            ExitEvent::Written(fd) => {
                self.sync_pipe_fd = fd;
                Ok(ExitStep::Done)
            },
            ExitEvent::Failed(e) => Err(e),
        }
    }

    fn close_step(&self) -> (step: ExitStep)
        ensures
            step@ == ExitStepView::CloseInherited(self.open_files.fds@),
    {
        ExitStep::CloseInherited(slice_to_vec(self.open_files.fds.as_slice()))
    }

    fn make_report_step(&self, progress: ExitProgress, api_version: i32, as_code: bool) -> (step:
        ExitStep)
        ensures
            step@ == self.report_step(progress, api_version, as_code),
    {
        if self.timed_out {
            let message = "command timed out".to_owned();
            return ExitStep::Write(make_report(progress, Some(message), api_version, as_code));
        }
        match self.mainfd_stderr {
            Some(fd) => ExitStep::ReadStderr { fd, limit: PIPE_READ_SIZE },
            None => ExitStep::Write(make_report(progress, None, api_version, as_code)),
        }
    }

    /// Waits for the Runtime process to exit. Returns the exit code.
    ///
    /// # Arguments
    ///
    /// * `waited` - What came of waiting for the process.
    ///
    /// # Returns
    ///
    /// * The "runtime" process exit code.
    pub fn wait(&mut self, waited: ConmonResult<i32>) -> (code: ConmonResult<i32>)
        ensures
            code == waited,
            *final(self) == (RuntimeSession {
                exit_code: match waited {
                    Ok(c) => Some(c),
                    Err(_) => old(self).exit_code,
                },
                ..*old(self)
            }),
    {
        if let Ok(code) = &waited {
            self.exit_code = Some(*code);
        }
        waited
    }

    /// What is needed to wait for the runtime after `event`.
    pub open spec fn wait_success_outcome(
        self,
        api_version: i32,
        as_code: bool,
        progress: ExitProgress,
        event: WaitSuccessEvent,
    ) -> Result<WaitSuccessStepView, ErrorView> {
        match event {
            WaitSuccessEvent::Start => Ok(WaitSuccessStepView::Wait),
            WaitSuccessEvent::Waited(code) => if code == 0 {
                Ok(WaitSuccessStepView::Done)
            } else {
                Ok(
                    WaitSuccessStepView::Exit(
                        ExitStepView::CloseInherited(self.open_files.fds@),
                    ),
                )
            },
            WaitSuccessEvent::Exit(inner) => match self.exit_outcome(
                api_version,
                as_code,
                progress,
                inner,
            ) {
                Ok(ExitStepView::Done) => Err(
                    failure(
                        "Runtime exited with status: "@ + exit_code_text(
                            self.after_exit(as_code, inner).exit_code,
                        ),
                    ),
                ),
                Ok(step) => Ok(WaitSuccessStepView::Exit(step)),
                Err(e) => Err(e),
            },
            WaitSuccessEvent::Failed(e) => Err(e@),
        }
    }

    /// The session after `event` while the runtime was waited for.
    pub open spec fn after_wait_success(
        self,
        as_code: bool,
        event: WaitSuccessEvent,
    ) -> RuntimeSession {
        match event {
            WaitSuccessEvent::Waited(code) => RuntimeSession { exit_code: Some(code), ..self },
            WaitSuccessEvent::Exit(inner) => self.after_exit(as_code, inner),
            _ => self,
        }
    }

    /// Waits for the Runtime process to exit.
    ///
    /// In case of non-zero exit code, writes the exit code and returns `ConmonError`.
    ///
    /// # Arguments
    ///
    /// * `api_version` - The `--api-version` value.
    /// * `write_exit_code` - When `true`, the real exit code is written instead of -1.
    /// * `progress` - What is known of the report so far.
    /// * `event` - What happened.
    pub fn wait_for_success(
        &mut self,
        api_version: i32,
        write_exit_code: bool,
        progress: &mut ExitProgress,
        event: WaitSuccessEvent,
    ) -> (step: ConmonResult<WaitSuccessStep>)
        ensures
            result_view(step) == old(self).wait_success_outcome(
                api_version,
                write_exit_code,
                *old(progress),
                event,
            ),
            *final(progress) == (match event {
                WaitSuccessEvent::Exit(inner) => old(self).exit_progress(
                    write_exit_code,
                    *old(progress),
                    inner,
                ),
                _ => *old(progress),
            }),
            *final(self) == old(self).after_wait_success(write_exit_code, event),
    {
        match event {
            // Wait until the `runtime create` finishes.
            WaitSuccessEvent::Start => Ok(WaitSuccessStep::Wait),
            WaitSuccessEvent::Waited(code) => {
                let _ = self.wait(Ok(code));
                if code == 0 {
                    return Ok(WaitSuccessStep::Done);
                }
                Ok(WaitSuccessStep::Exit(self.close_step()))
            },
            WaitSuccessEvent::Exit(inner) => match self.write_exit_code(
                api_version,
                write_exit_code,
                progress,
                inner,
            ) {
                Ok(ExitStep::Done) => {
                    let code = match self.exit_code {
                        Some(c) => i32_text(c),
                        None => "unknown".to_owned(),
                    };
                    Err(fail(join2("Runtime exited with status: ", code.as_str())))
                },
                Ok(step) => Ok(WaitSuccessStep::Exit(step)),
                Err(e) => Err(e),
            },
            WaitSuccessEvent::Failed(e) => Err(e),
        }
    }
}

/// The report that is written to the sync pipe.
pub open spec fn written(
    progress: ExitProgress,
    message: Option<Seq<char>>,
    api_version: i32,
    as_code: bool,
) -> SyncReportView {
    SyncReportView {
        fd: progress.fd,
        data: progress.to_report,
        message,
        api_version,
        as_exit_code: as_code,
    }
}

fn make_report(
    progress: ExitProgress,
    message: Option<String>,
    api_version: i32,
    as_code: bool,
) -> (report: SyncReport)
    ensures
        report@ == written(progress, text_view(message), api_version, as_code),
{
    SyncReport {
        fd: progress.fd,
        data: progress.to_report,
        message,
        api_version,
        as_exit_code: as_code,
    }
}

/// Once create has reported the container PID, nothing more is written to the sync pipe,
/// which stays with the session: whatever the runtime's exit code, and even if the session
/// timed out.
pub proof fn law_create_answers_once(
    session: RuntimeSession,
    api_version: i32,
    progress: ExitProgress,
)
    requires
        session.container_started,
    ensures
        session.exit_outcome(api_version, false, progress, ExitEvent::Closed) == Ok::<
            ExitStepView,
            ErrorView,
        >(ExitStepView::Done),
        session.after_exit(false, ExitEvent::Closed) == session,
{
}

/// Without a sync pipe nothing is read and nothing is written.
pub proof fn law_no_report_without_sync_pipe(
    session: RuntimeSession,
    api_version: i32,
    as_code: bool,
    progress: ExitProgress,
)
    requires
        session.sync_pipe_fd is None,
    ensures
        session.exit_outcome(api_version, as_code, progress, ExitEvent::Closed) == Ok::<
            ExitStepView,
            ErrorView,
        >(ExitStepView::Done),
        session.after_exit(as_code, ExitEvent::Closed) == session,
{
}

/// A session that timed out reports -1 and says so, whatever status the container has.
pub proof fn law_timeout_is_reported(
    session: RuntimeSession,
    api_version: i32,
    as_code: bool,
    progress: ExitProgress,
)
    requires
        session.sync_pipe_fd is Some,
        session.timed_out,
        !session.already_answered(as_code),
    ensures
        session.exit_outcome(api_version, as_code, progress, ExitEvent::Closed) == Ok::<
            ExitStepView,
            ErrorView,
        >(
            ExitStepView::Write(
                SyncReportView {
                    fd: session.sync_pipe_fd->0,
                    data: -1i32,
                    message: Some("command timed out"@),
                    api_version,
                    as_exit_code: as_code,
                },
            ),
        ),
{
}

/// The code that an exec session reports is the status of its container, once that is
/// known; settling the exit of the container first does not change what is reported.
pub proof fn law_exec_reports_container_status(
    session: RuntimeSession,
    progress: ExitProgress,
    inner: FinalizeEvent,
)
    requires
        session.container_started,
        !session.timed_out,
        session.sync_pipe_fd is Some,
    ensures
        session.container_status is Some ==> Some(
            session.exit_progress(true, progress, ExitEvent::Closed).to_report,
        ) == session.container_status,
        session.finalize_outcome(inner) == Ok::<FinalizeStep, ErrorView>(FinalizeStep::Done) ==> (
        session.exit_progress(true, progress, ExitEvent::Finalize(inner)).to_report
            == session.after_finalize(inner).code_to_report(true)),
{
}

/// Of a runtime that has ended before the container started, the real exit code is written
/// where an exit code is asked for; -1 stands for a code that is not known, and for every
/// code where none is asked for.
pub proof fn law_real_exit_code_is_written(
    session: RuntimeSession,
    as_code: bool,
    progress: ExitProgress,
)
    requires
        !session.container_started,
        !session.timed_out,
        session.sync_pipe_fd is Some,
    ensures
        ({
            let to_report = session.exit_progress(as_code, progress, ExitEvent::Closed).to_report;
            &&& as_code && session.exit_code is Some ==> Some(to_report) == session.exit_code
            &&& !as_code || session.exit_code is None ==> to_report == -1
        }),
{
}

/// What is closed before the monitor exits is what a launch has left of the descriptors that
/// were open before: nothing that happens to the session afterwards changes it.
pub proof fn law_what_is_closed_stays(
    session: RuntimeSession,
    api_version: i32,
    as_code: bool,
    progress: ExitProgress,
    poll: PollEvent,
    finalize: FinalizeEvent,
    exit: ExitEvent,
    pid_file: PidFileEvent,
    idle: IdleEvent,
)
    ensures
        session.exit_outcome(api_version, as_code, progress, ExitEvent::Start) == Ok::<
            ExitStepView,
            ErrorView,
        >(ExitStepView::CloseInherited(session.open_files.fds@)),
        session.after_poll(poll).open_files == session.open_files,
        session.after_finalize(finalize).open_files == session.open_files,
        session.after_exit(as_code, exit).open_files == session.open_files,
        session.after_pid_file(pid_file).open_files == session.open_files,
        session.after_idle(idle).open_files == session.open_files,
        session.without_stdio().open_files == session.open_files,
{
}

/// What is reported when the end of the container is settled or does not matter: to the sync
/// pipe that the session holds, in the format that was asked for, the code and the message
/// that fit how the session has ended. -1 and a message of its own stand for a timeout; a
/// container that was started gives its status; a runtime that has ended before gives its
/// exit code if one was asked for. What the runtime has printed to stderr is the message.
pub proof fn law_report_tells_how_it_ended(
    session: RuntimeSession,
    api_version: i32,
    as_code: bool,
    progress: ExitProgress,
)
    requires
        session.sync_pipe_fd is Some,
        as_code || !session.container_started,
        session.timed_out || !session.container_started || session.container_status is Some,
    ensures
        ({
            let fd = session.sync_pipe_fd->0;
            let data = if session.timed_out {
                -1i32
            } else if session.container_started {
                session.container_status->0
            } else if as_code && session.exit_code is Some {
                session.exit_code->0
            } else {
                -1i32
            };
            let message = if session.timed_out {
                Some("command timed out"@)
            } else {
                None
            };
            let outcome = session.exit_outcome(api_version, as_code, progress, ExitEvent::Closed);
            let reads = !session.timed_out && session.mainfd_stderr is Some;
            &&& session.exit_progress(as_code, progress, ExitEvent::Closed) == (ExitProgress {
                fd,
                to_report: data,
            })
            &&& reads ==> outcome == Ok::<_, ErrorView>(
                ExitStepView::ReadStderr { fd: session.mainfd_stderr->0, limit: 8192 },
            )
            &&& !reads ==> outcome == Ok::<_, ErrorView>(
                ExitStepView::Write(
                    SyncReportView { fd, data, message, api_version, as_exit_code: as_code },
                ),
            )
            &&& session.after_exit(as_code, ExitEvent::Closed) == (RuntimeSession {
                sync_pipe_fd: None,
                ..session
            })
        }),
{
}

/// What was read from stderr is the message of the report, whose pipe and code were settled
/// before. Once it is written, the session holds what is left of the pipe.
pub proof fn law_stderr_is_the_message(
    session: RuntimeSession,
    api_version: i32,
    as_code: bool,
    progress: ExitProgress,
    bytes: Vec<u8>,
    kept: Option<i32>,
)
    ensures
        session.exit_outcome(api_version, as_code, progress, ExitEvent::Stderr(bytes)) == Ok::<
            _,
            ErrorView,
        >(
            ExitStepView::Write(
                SyncReportView {
                    fd: progress.fd,
                    data: progress.to_report,
                    message: Some(lossy_text(bytes@)),
                    api_version,
                    as_exit_code: as_code,
                },
            ),
        ),
        session.exit_progress(as_code, progress, ExitEvent::Stderr(bytes)) == progress,
        session.after_exit(as_code, ExitEvent::Stderr(bytes)) == session,
        session.exit_outcome(api_version, as_code, progress, ExitEvent::Written(kept)) == Ok::<
            _,
            ErrorView,
        >(ExitStepView::Done),
        session.after_exit(as_code, ExitEvent::Written(kept)) == (RuntimeSession {
            sync_pipe_fd: kept,
            ..session
        }),
{
}

/// The end of a container that was started and has no status is settled before it is
/// reported; the pipe is kept for that. What is reported then is the status that came out of
/// it, or -1 if none did, and the message is found as otherwise.
pub proof fn law_open_end_is_settled_first(
    session: RuntimeSession,
    api_version: i32,
    as_code: bool,
    progress: ExitProgress,
    inner: FinalizeEvent,
)
    ensures
        session.sync_pipe_fd is Some && as_code && session.container_started && !session.timed_out
            && session.container_status is None ==> {
            &&& session.exit_outcome(api_version, as_code, progress, ExitEvent::Closed) == Ok::<
                _,
                ErrorView,
            >(ExitStepView::Finalize(FinalizeStep::Reap(ReapStep::Wait)))
            &&& Some(session.exit_progress(as_code, progress, ExitEvent::Closed).fd)
                == session.sync_pipe_fd
            &&& session.exit_progress(as_code, progress, ExitEvent::Closed).to_report == -1
            &&& session.after_exit(as_code, ExitEvent::Closed) == (RuntimeSession {
                sync_pipe_fd: None,
                ..session
            })
        },
        ({
            let settling = session.finalize_outcome(inner);
            let outcome = session.exit_outcome(
                api_version,
                as_code,
                progress,
                ExitEvent::Finalize(inner),
            );
            let after = session.after_finalize(inner);
            let told = session.exit_progress(as_code, progress, ExitEvent::Finalize(inner));
            let settled = settling == Ok::<_, ErrorView>(FinalizeStep::Done);
            &&& session.after_exit(as_code, ExitEvent::Finalize(inner)) == after
            &&& told.fd == progress.fd
            &&& !settled ==> told == progress
            &&& settled && after.container_status is Some ==> Some(told.to_report)
                == after.container_status
            &&& settled && after.container_status is None ==> told.to_report == -1
            &&& settled && !after.timed_out && after.mainfd_stderr is Some ==> outcome == Ok::<
                _,
                ErrorView,
            >(ExitStepView::ReadStderr { fd: after.mainfd_stderr->0, limit: 8192 })
            &&& settled && !after.timed_out && after.mainfd_stderr is None ==> outcome == Ok::<
                _,
                ErrorView,
            >(
                ExitStepView::Write(
                    SyncReportView {
                        fd: progress.fd,
                        data: told.to_report,
                        message: None,
                        api_version,
                        as_exit_code: as_code,
                    },
                ),
            )
            &&& settled && after.timed_out ==> outcome == Ok::<_, ErrorView>(
                ExitStepView::Write(
                    SyncReportView {
                        fd: progress.fd,
                        data: told.to_report,
                        message: Some("command timed out"@),
                        api_version,
                        as_exit_code: as_code,
                    },
                ),
            )
            &&& settling is Ok && !settled ==> outcome == Ok::<_, ErrorView>(
                ExitStepView::Finalize(settling->Ok_0),
            )
            &&& settling is Err ==> outcome == Err::<ExitStepView, _>(settling->Err_0)
        }),
{
}

/// A runtime that exits with 0 has succeeded, and nothing is reported. With every other code
/// the exit code is written, beginning with the descriptors to close, and in the end that is
/// an error that names the code. Either way the code is recorded.
pub proof fn law_success_is_exit_code_zero(
    session: RuntimeSession,
    api_version: i32,
    as_code: bool,
    progress: ExitProgress,
    code: i32,
    inner: ExitEvent,
)
    ensures
        session.wait_success_outcome(api_version, as_code, progress, WaitSuccessEvent::Start)
            == Ok::<_, ErrorView>(WaitSuccessStepView::Wait),
        session.after_wait_success(as_code, WaitSuccessEvent::Start) == session,
        session.wait_success_outcome(api_version, as_code, progress, WaitSuccessEvent::Waited(code))
            == Ok::<_, ErrorView>(
            if code == 0 {
                WaitSuccessStepView::Done
            } else {
                WaitSuccessStepView::Exit(ExitStepView::CloseInherited(session.open_files.fds@))
            },
        ),
        session.after_wait_success(as_code, WaitSuccessEvent::Waited(code)) == (RuntimeSession {
            exit_code: Some(code),
            ..session
        }),
        ({
            let exit = session.exit_outcome(api_version, as_code, progress, inner);
            let after = session.after_exit(as_code, inner);
            let outcome = session.wait_success_outcome(
                api_version,
                as_code,
                progress,
                WaitSuccessEvent::Exit(inner),
            );
            let written = exit == Ok::<_, ErrorView>(ExitStepView::Done);
            &&& session.after_wait_success(as_code, WaitSuccessEvent::Exit(inner)) == after
            &&& written && after.exit_code is Some ==> outcome == Err::<WaitSuccessStepView, _>(
                failure(
                    "Runtime exited with status: "@ + signed_decimal(after.exit_code->0 as int),
                ),
            )
            &&& written && after.exit_code is None ==> outcome == Err::<WaitSuccessStepView, _>(
                failure("Runtime exited with status: "@ + "unknown"@),
            )
            &&& exit is Ok && !written ==> outcome == Ok::<_, ErrorView>(
                WaitSuccessStepView::Exit(exit->Ok_0),
            )
            &&& exit is Err ==> outcome == Err::<WaitSuccessStepView, _>(exit->Err_0)
        }),
{
}

/// A report and the steps of writing one are seen as what they name.
pub proof fn law_exit_views(report: SyncReport, step: ExitStep, wait: WaitSuccessStep)
    ensures
        report@.fd == report.fd,
        report@.data == report.data,
        report.message matches Some(text) ==> report@.message == Some(text@),
        report.message is None ==> report@.message is None,
        report@.api_version == report.api_version,
        report@.as_exit_code == report.as_exit_code,
        match step {
            ExitStep::CloseInherited(fds) => step@ == ExitStepView::CloseInherited(fds@),
            ExitStep::Finalize(inner) => step@ == ExitStepView::Finalize(inner),
            ExitStep::ReadStderr { fd, limit } => step@ == (ExitStepView::ReadStderr { fd, limit }),
            ExitStep::Write(written) => step@ == ExitStepView::Write(written@),
            ExitStep::Done => step@ == ExitStepView::Done,
        },
        match wait {
            WaitSuccessStep::Wait => wait@ == WaitSuccessStepView::Wait,
            WaitSuccessStep::Exit(inner) => wait@ == WaitSuccessStepView::Exit(inner@),
            WaitSuccessStep::Done => wait@ == WaitSuccessStepView::Done,
        },
{
}

/// What fails while an exit code is written, or while the runtime is waited for, is what comes
/// out, and the session stays as it is. What is reported changes only once the inherited
/// descriptors are closed, and once the end of the container is settled.
pub proof fn law_failure_to_report(
    session: RuntimeSession,
    api_version: i32,
    as_code: bool,
    progress: ExitProgress,
    error: ConmonError,
    event: ExitEvent,
)
    ensures
        session.exit_outcome(api_version, as_code, progress, ExitEvent::Failed(error)) == Err::<
            ExitStepView,
            _,
        >(error@),
        session.wait_success_outcome(
            api_version,
            as_code,
            progress,
            WaitSuccessEvent::Failed(error),
        ) == Err::<WaitSuccessStepView, _>(error@),
        session.after_wait_success(as_code, WaitSuccessEvent::Failed(error)) == session,
        !(event is Closed || event is Finalize) ==> session.exit_progress(as_code, progress, event)
            == progress,
        event is Start || event is Failed ==> session.after_exit(as_code, event) == session,
        session.sync_pipe_fd is None || !as_code && session.container_started
            ==> session.exit_progress(as_code, progress, ExitEvent::Closed) == progress,
{
}

} // verus!
