//! From the started runtime to the running event loop.
use vstd::prelude::*;

use crate::bytes::{bytes_view, copy_bytes, copy_optional_bytes};
use crate::config::CommonCfg;
use crate::error::{
    fail, failure, plain_view, result_view, ConmonError, ConmonResult, ErrorView,
};
use crate::remote_socket::RemoteSocket;
use crate::session::children::{after_polls, FinalizeEvent, FinalizeStep, PollEvent, ReapStep};
use crate::session::exit::{SyncReport, SyncReportView};
use crate::session::RuntimeSession;
use crate::text::{
    join4, law_number_on_a_line_is_read_back, parse_i32, parse_i32_failure, parsed_i32,
    signed_decimal, trim, trimmed,
};
use crate::unix_socket::UnixSocket;

verus! {

/// What happened while the pid of the container was being written.
pub enum PidFileEvent {
    Start,
    /// The pid file holds this text; `path_text` is its name as error messages show it.
    Contents { text: String, path_text: String },
    /// What came of the last step of reaping.
    Reap(PollEvent),
    /// Running out of memory is watched, over this socket if there is one.
    OomReady(Option<RemoteSocket>),
    /// The report is written; the pipe is kept or not.
    Written(Option<i32>),
    /// The last step failed, which ends the matter.
    Failed(ConmonError),
}

/// What is needed next to write the pid of the container.
#[derive(Debug)]
pub enum PidFileStep {
    /// Read the file of this name.
    ReadPidFile(Vec<u8>),
    /// Take this step of reaping.
    Reap(ReapStep),
    /// Watch the process with this pid for running out of memory.
    SetupOom { pid: i32, persist_dir: Option<Vec<u8>>, bundle: Vec<u8> },
    /// Write this to the sync pipe, in the format of the parent.
    Write(SyncReport),
    /// The pid is written.
    Done,
}

/// What is needed next to write the pid of the container, by the values.
#[verifier::ext_equal]
pub enum PidFileStepView {
    ReadPidFile(Seq<u8>),
    Reap(ReapStep),
    SetupOom { pid: i32, persist_dir: Option<Seq<u8>>, bundle: Seq<u8> },
    Write(SyncReportView),
    Done,
}

impl View for PidFileStep {
    type V = PidFileStepView;

    open spec fn view(&self) -> PidFileStepView {
        match self {
            PidFileStep::ReadPidFile(path) => PidFileStepView::ReadPidFile(path@),
            PidFileStep::Reap(step) => PidFileStepView::Reap(*step),
            PidFileStep::SetupOom { pid, persist_dir, bundle } => PidFileStepView::SetupOom {
                pid: *pid,
                persist_dir: bytes_view(*persist_dir),
                bundle: bundle@,
            },
            PidFileStep::Write(report) => PidFileStepView::Write(report@),
            PidFileStep::Done => PidFileStepView::Done,
        }
    }
}

/// What happened while the terminal was waited for.
pub enum TerminalEvent {
    Start,
    /// The runtime has sent the terminal.
    Received(RemoteSocket),
    /// The last step failed, which ends the matter.
    Failed(ConmonError),
}

/// What is needed next to get the terminal.
pub enum TerminalStep {
    /// Receive a descriptor over the socket, while the runtime with this pid lives.
    Receive { socket: UnixSocket, runtime_pid: i32 },
    /// There is a terminal, or none is expected.
    Done,
}

/// All that the event loop reads and writes.
pub struct Stdio {
    pub stdout: Option<i32>,
    pub stderr: i32,
    pub stdin: Option<i32>,
    pub attach_socket: Option<UnixSocket>,
    pub terminal_socket: Option<RemoteSocket>,
    pub ctl_fifo: Option<RemoteSocket>,
    pub winsz_fifo: Option<RemoteSocket>,
    pub oom_socket: Option<RemoteSocket>,
    pub notify_socket: Option<RemoteSocket>,
    pub sdnotify_socket_path: Option<Vec<u8>>,
    /// The signal-fd, or -1.
    pub signal_fd: i32,
    pub stdin_attached: bool,
    pub leave_stdin_open: bool,
}

/// What happened to the event loop.
#[derive(Debug)]
pub enum EventLoopEvent {
    Start,
    /// The event loop has ended.
    Ended,
    /// What came of the last step of settling the exit of the container.
    Finalize(FinalizeEvent),
    /// The last step failed, which ends the matter.
    Failed(ConmonError),
}

/// What is needed next to run the event loop.
pub enum EventLoopStep {
    /// Run the event loop on these.
    Run(Stdio),
    /// Take this step of settling the exit of the container.
    Finalize(FinalizeStep),
    /// The session is over.
    Done,
}

/// What is read from the contents of a pid file: a number, white space around it aside.
pub open spec fn pid_of(contents: Seq<char>, path_text: Seq<char>) -> Result<i32, ErrorView> {
    match parsed_i32(trimmed(contents)) {
        Some(pid) => Ok(pid as i32),
        None => Err(
            failure(
                "Invalid PID contents in "@ + path_text + ": "@ + trimmed(contents) + " ("@
                    + parse_i32_failure(trimmed(contents)) + ")"@,
            ),
        ),
    }
}

/// The step that watches a container for running out of memory.
pub open spec fn oom_watch(common: CommonCfg, pid: i32) -> PidFileStepView {
    PidFileStepView::SetupOom {
        pid,
        persist_dir: bytes_view(common.persist_dir),
        bundle: common.bundle@,
    }
}

fn oom_watch_step(common: &CommonCfg, pid: i32) -> (step: PidFileStep)
    ensures
        step@ == oom_watch(*common, pid),
{
    PidFileStep::SetupOom {
        pid,
        persist_dir: copy_optional_bytes(&common.persist_dir),
        bundle: copy_bytes(common.bundle.as_slice()),
    }
}

impl RuntimeSession {
    /// Reads and returns the container's PID.
    ///
    /// The "runtime" executable creates container and stores its process into
    /// `container_pidfile`. This function makes a number of what the file holds, so we can
    /// later wait using this PID and read the container's exit code.
    ///
    /// # Arguments
    ///
    /// * `contents` - What the pid file holds.
    /// * `path_text` - The name of the pid file, as error messages show it.
    ///
    /// # Errors
    ///
    /// * [`ConmonError`] if the contents cannot be parsed.
    pub fn read_container_pid(&self, contents: &str, path_text: &str) -> (pid: ConmonResult<i32>)
        ensures
            plain_view(pid) == pid_of(contents@, path_text@),
    {
        let inner = trim(contents);
        match parse_i32(inner) {
            Ok(pid) => Ok(pid),
            Err(why) => {
                let place = join4("Invalid PID contents in ", path_text, ": ", inner);
                Err(fail(join4(place.as_str(), " (", why.as_str(), ")")))
            },
        }
    }

    /// The session once the pid of the container is known.
    pub open spec fn container_runs(self, pid: i32) -> RuntimeSession {
        RuntimeSession { container_pid: Some(pid), container_started: true, ..self }
    }

    /// What is needed to write the pid of the container after `event`.
    pub open spec fn pid_file_outcome(
        self,
        common: CommonCfg,
        reported_pid: i32,
        event: PidFileEvent,
    ) -> Result<PidFileStepView, ErrorView> {
        match event {
            PidFileEvent::Start => Ok(PidFileStepView::ReadPidFile(common.container_pidfile@)),
            PidFileEvent::Contents { text, path_text } => match pid_of(text@, path_text@) {
                Ok(pid) => if self.container_status is Some {
                    Ok(oom_watch(common, pid))
                } else {
                    Ok(PidFileStepView::Reap(ReapStep::Wait))
                },
                Err(e) => Err(e),
            },
            PidFileEvent::Reap(inner) => match self.reap_outcome(inner) {
                Ok(ReapStep::Done) => Ok(oom_watch(common, reported_pid)),
                Ok(step) => Ok(PidFileStepView::Reap(step)),
                Err(e) => Err(e),
            },
            PidFileEvent::OomReady(_) => match self.sync_pipe_fd {
                Some(fd) => Ok(
                    PidFileStepView::Write(
                        SyncReportView {
                            fd,
                            data: reported_pid,
                            message: None,
                            api_version: common.api_version,
                            as_exit_code: false,
                        },
                    ),
                ),
                None => Ok(PidFileStepView::Done),
            },
            PidFileEvent::Written(_) => Ok(PidFileStepView::Done),
            PidFileEvent::Failed(e) => Err(e@),
        }
    }

    /// The pid that is reported after `event`.
    pub open spec fn pid_file_progress(reported_pid: i32, event: PidFileEvent) -> i32 {
        match event {
            PidFileEvent::Contents { text, path_text } => match pid_of(text@, path_text@) {
                Ok(pid) => pid,
                Err(_) => reported_pid,
            },
            _ => reported_pid,
        }
    }

    /// The session after `event` while the pid of the container was being written.
    pub open spec fn after_pid_file(self, event: PidFileEvent) -> RuntimeSession {
        match event {
            PidFileEvent::Contents { text, path_text } => match pid_of(text@, path_text@) {
                Ok(pid) => self.container_runs(pid),
                Err(_) => self,
            },
            PidFileEvent::Reap(inner) => self.after_poll(inner),
            PidFileEvent::OomReady(socket) => RuntimeSession {
                oom_socket: socket,
                sync_pipe_fd: None,
                ..self
            },
            PidFileEvent::Written(fd) => RuntimeSession { sync_pipe_fd: fd, ..self },
            _ => self,
        }
    }

    /// Writes the container pid file to all the configured locations.
    ///
    /// This function is called after the `launch`. It writes the container PID
    /// into `sync_pipe_fd` and other locations so parent can get the container's PID.
    ///
    /// The PID is preserved in `reported_pid` for the sync pipe / OOM setup even if a pending
    /// exit immediately clears `container_pid` (fast-exiting exec).
    pub fn write_container_pid_file(
        &mut self,
        common: &CommonCfg,
        reported_pid: &mut i32,
        event: PidFileEvent,
    ) -> (step: ConmonResult<PidFileStep>)
        ensures
            result_view(step) == old(self).pid_file_outcome(*common, *old(reported_pid), event),
            *final(self) == old(self).after_pid_file(event),
            *final(reported_pid) == Self::pid_file_progress(*old(reported_pid), event),
    {
        match event {
            PidFileEvent::Start => Ok(
                PidFileStep::ReadPidFile(copy_bytes(common.container_pidfile.as_slice())),
            ),
            PidFileEvent::Contents { text, path_text } => match self.read_container_pid(
                text.as_str(),
                path_text.as_str(),
            ) {
                Ok(pid) => {
                    self.container_pid = Some(pid);
                    *reported_pid = pid;
                    self.container_started = true;

                    // Now that container_pid is known, reap any children that already exited.
                    match self.reap_pending_children(PollEvent::Start) {
                        Ok(ReapStep::Done) => Ok(oom_watch_step(common, pid)),
                        Ok(step) => Ok(PidFileStep::Reap(step)),
                        Err(e) => Err(e),
                    }
                },
                Err(e) => Err(e),
            },
            PidFileEvent::Reap(inner) => match self.reap_pending_children(inner) {
                // Setup the out-of-mana (eh, *-memory) handler, so we can detect OOM event
                // and pass it to parent.
                Ok(ReapStep::Done) => Ok(oom_watch_step(common, *reported_pid)),
                Ok(step) => Ok(PidFileStep::Reap(step)),
                Err(e) => Err(e),
            },
            PidFileEvent::OomReady(socket) => {
                self.oom_socket = socket;
                // Pass the container_pid to sync_pipe if there is one.
                match self.sync_pipe_fd.take() {
                    Some(fd) => Ok(
                        PidFileStep::Write(
                            SyncReport {
                                fd,
                                data: *reported_pid,
                                message: None,
                                api_version: common.api_version,
                                as_exit_code: false,
                            },
                        ),
                    ),
                    None => Ok(PidFileStep::Done),
                }
            },
            PidFileEvent::Written(fd) => {
                self.sync_pipe_fd = fd;
                Ok(PidFileStep::Done)
            },
            PidFileEvent::Failed(e) => Err(e),
        }
    }

    /// Waits for the runtime to send the terminal fd to conmon.
    ///
    /// When `--terminal` is used, this function is called to receive the terminal
    /// fd from runtime.
    pub fn wait_for_terminal_creation(&mut self, event: TerminalEvent) -> (step: ConmonResult<
        TerminalStep,
    >)
        ensures
            match event {
                TerminalEvent::Start => {
                    &&& *final(self) == (RuntimeSession { console_socket: None, ..*old(self) })
                    &&& match old(self).console_socket {
                        Some(socket) => step == Ok::<_, ConmonError>(
                            TerminalStep::Receive { socket, runtime_pid: old(self).process_pid },
                        ),
                        None => step == Ok::<_, ConmonError>(TerminalStep::Done),
                    }
                },
                TerminalEvent::Received(terminal) => {
                    &&& step == Ok::<_, ConmonError>(TerminalStep::Done)
                    &&& *final(self) == (RuntimeSession {
                        terminal_socket: Some(terminal),
                        ..*old(self)
                    })
                },
                TerminalEvent::Failed(e) => step == Err::<TerminalStep, _>(e) && *final(self)
                    == *old(self),
            },
    {
        match event {
            TerminalEvent::Start => match self.console_socket.take() {
                Some(socket) => Ok(
                    TerminalStep::Receive { socket, runtime_pid: self.process_pid },
                ),
                None => Ok(TerminalStep::Done),
            },
            TerminalEvent::Received(terminal) => {
                self.terminal_socket = Some(terminal);
                Ok(TerminalStep::Done)
            },
            TerminalEvent::Failed(e) => Err(e),
        }
    }

    /// The session once all that the event loop uses was handed to it.
    pub open spec fn without_stdio(self) -> RuntimeSession {
        RuntimeSession {
            mainfd_stdout: None,
            mainfd_stderr: None,
            workerfd_stdin: None,
            attach_socket: None,
            terminal_socket: None,
            ctl_fifo: None,
            winsz_fifo: None,
            oom_socket: None,
            notify_socket: None,
            sdnotify_socket_path: None,
            ..self
        }
    }

    /// What the event loop uses.
    pub open spec fn stdio(self, leave_stdin_open: bool, stdin_attached: bool) -> Stdio {
        Stdio {
            stdout: self.mainfd_stdout,
            stderr: self.mainfd_stderr->0,
            stdin: self.workerfd_stdin,
            attach_socket: self.attach_socket,
            terminal_socket: self.terminal_socket,
            ctl_fifo: self.ctl_fifo,
            winsz_fifo: self.winsz_fifo,
            oom_socket: self.oom_socket,
            notify_socket: self.notify_socket,
            sdnotify_socket_path: self.sdnotify_socket_path,
            signal_fd: match self.signals {
                Some(fd) => fd,
                None => -1i32,
            },
            stdin_attached,
            leave_stdin_open,
        }
    }

    /// Runs the main event-loop.
    ///
    /// The event-loop polls all the file descriptors which drives the Conmon's logic. Once
    /// it has ended, the exit of the container is settled.
    ///
    /// # Arguments
    ///
    /// * `leave_stdin_open` - True if --leave-stdin-open is used.
    /// * `stdin_attached` - True if --stdin is used.
    /// * `event` - What happened.
    pub fn run_event_loop(
        &mut self,
        leave_stdin_open: bool,
        stdin_attached: bool,
        event: EventLoopEvent,
    ) -> (step: ConmonResult<EventLoopStep>)
        ensures
            match event {
                EventLoopEvent::Start => if old(self).mainfd_stderr is Some {
                    &&& step == Ok::<_, ConmonError>(
                        EventLoopStep::Run(old(self).stdio(leave_stdin_open, stdin_attached)),
                    )
                    &&& *final(self) == old(self).without_stdio()
                } else {
                    &&& step matches Err(e)
                    &&& e@ == failure("RuntimeSession called without stdio"@)
                    &&& *final(self) == *old(self)
                },
                EventLoopEvent::Ended => {
                    &&& settles(step, old(self).finalize_outcome(FinalizeEvent::Start))
                    &&& *final(self) == *old(self)
                },
                EventLoopEvent::Finalize(inner) => {
                    &&& settles(step, old(self).finalize_outcome(inner))
                    &&& *final(self) == old(self).after_finalize(inner)
                },
                EventLoopEvent::Failed(e) => step == Err::<EventLoopStep, _>(e) && *final(self)
                    == *old(self),
            },
    {
        match event {
            EventLoopEvent::Start => match self.mainfd_stderr.take() {
                Some(stderr) => {
                    let signal_fd: i32 = match self.signals {
                        Some(fd) => fd,
                        None => -1,
                    };
                    let stdio = Stdio {
                        stdout: self.mainfd_stdout.take(),
                        stderr,
                        stdin: self.workerfd_stdin.take(),
                        attach_socket: self.attach_socket.take(),
                        terminal_socket: self.terminal_socket.take(),
                        ctl_fifo: self.ctl_fifo.take(),
                        winsz_fifo: self.winsz_fifo.take(),
                        oom_socket: self.oom_socket.take(),
                        notify_socket: self.notify_socket.take(),
                        sdnotify_socket_path: self.sdnotify_socket_path.take(),
                        signal_fd,
                        stdin_attached,
                        leave_stdin_open,
                    };
                    Ok(EventLoopStep::Run(stdio))
                },
                None => Err(fail("RuntimeSession called without stdio".to_owned())),
            },
            EventLoopEvent::Ended => settle_step(
                self.finalize_container_exit(FinalizeEvent::Start),
            ),
            EventLoopEvent::Finalize(inner) => settle_step(self.finalize_container_exit(inner)),
            EventLoopEvent::Failed(e) => Err(e),
        }
    }
}

/// Whether a step of the event loop is what settling the exit of the container needs.
pub open spec fn settles(
    step: ConmonResult<EventLoopStep>,
    outcome: Result<FinalizeStep, ErrorView>,
) -> bool {
    match outcome {
        Ok(FinalizeStep::Done) => step == Ok::<_, ConmonError>(EventLoopStep::Done),
        Ok(inner) => step == Ok::<_, ConmonError>(EventLoopStep::Finalize(inner)),
        Err(e) => step matches Err(error) && error@ == e,
    }
}

fn settle_step(inner: ConmonResult<FinalizeStep>) -> (step: ConmonResult<EventLoopStep>)
    ensures
        settles(step, plain_view(inner)),
{
    match inner {
        Ok(FinalizeStep::Done) => Ok(EventLoopStep::Done),
        Ok(step) => Ok(EventLoopStep::Finalize(step)),
        Err(e) => Err(e),
    }
}

/// A pid file that holds a number on a line of its own gives that number.
pub proof fn law_pid_file_is_read_back(pid: i32, path_text: Seq<char>)
    ensures
        pid_of(signed_decimal(pid as int).push('\n'), path_text) == Ok::<i32, ErrorView>(pid),
{
    law_number_on_a_line_is_read_back(pid);
}

proof fn lemma_polls_keep_sync_pipe(session: RuntimeSession, events: Seq<PollEvent>)
    ensures
        after_polls(session, events).sync_pipe_fd == session.sync_pipe_fd,
        after_polls(session, events).container_started == session.container_started,
    decreases events.len(),
{
    if events.len() > 0 {
        lemma_polls_keep_sync_pipe(session, events.drop_last());
    }
}

/// The parent is told the pid that the pid file holds, whichever children are reaped
/// before that, and even if the container itself is among them.
pub proof fn law_parent_learns_the_pid_of_the_file(
    session: RuntimeSession,
    common: CommonCfg,
    before: i32,
    text: String,
    path_text: String,
    reaped: Seq<PollEvent>,
    socket: Option<RemoteSocket>,
)
    requires
        session.sync_pipe_fd is Some,
        pid_of(text@, path_text@) is Ok,
    ensures
        ({
            let read = PidFileEvent::Contents { text, path_text };
            let after = after_polls(session.after_pid_file(read), reaped);
            let reported = RuntimeSession::pid_file_progress(before, read);
            &&& after.container_started
            &&& after.pid_file_outcome(common, reported, PidFileEvent::OomReady(socket)) == Ok::<
                PidFileStepView,
                ErrorView,
            >(
                PidFileStepView::Write(
                    SyncReportView {
                        fd: session.sync_pipe_fd->0,
                        data: pid_of(text@, path_text@)->Ok_0,
                        message: None,
                        api_version: common.api_version,
                        as_exit_code: false,
                    },
                ),
            )
        }),
{
    let read = PidFileEvent::Contents { text, path_text };
    lemma_polls_keep_sync_pipe(session.after_pid_file(read), reaped);
}

/// Contents that are no number, white space around it aside, are refused, with a message that
/// names the file and shows what it holds.
pub proof fn law_bad_pid_file_is_refused(contents: Seq<char>, path_text: Seq<char>)
    ensures
        ({
            let inner = trimmed(contents);
            let read = pid_of(contents, path_text);
            &&& read is Ok <==> parsed_i32(inner) is Some
            &&& read is Ok ==> parsed_i32(inner) == Some(read->Ok_0 as int)
            &&& read is Err ==> read->Err_0 == failure(
                "Invalid PID contents in "@ + path_text + ": "@ + inner + " ("@
                    + parse_i32_failure(inner) + ")"@,
            )
        }),
{
    let inner = trimmed(contents);
    if parsed_i32(inner) is Some {
        assert(i32::MIN <= parsed_i32(inner)->0 <= i32::MAX);
    }
}

/// How the pid of a container is made known: the configured file is read, children that have
/// ended already are reaped unless the status is known, running out of memory is watched with
/// the pid of the file and the directories of the configuration, and the pid goes to the sync
/// pipe that the session holds, as a pid and without a message.
pub proof fn law_pid_is_made_known(
    session: RuntimeSession,
    common: CommonCfg,
    reported: i32,
    text: String,
    path_text: String,
    poll: PollEvent,
    socket: Option<RemoteSocket>,
    kept: Option<i32>,
)
    ensures
        session.pid_file_outcome(common, reported, PidFileEvent::Start) == Ok::<_, ErrorView>(
            PidFileStepView::ReadPidFile(common.container_pidfile@),
        ),
        session.after_pid_file(PidFileEvent::Start) == session,
        ({
            let event = PidFileEvent::Contents { text, path_text };
            let read = pid_of(text@, path_text@);
            let outcome = session.pid_file_outcome(common, reported, event);
            let watch = |pid: i32|
                PidFileStepView::SetupOom {
                    pid,
                    persist_dir: bytes_view(common.persist_dir),
                    bundle: common.bundle@,
                };
            &&& read is Ok ==> {
                &&& session.after_pid_file(event) == (RuntimeSession {
                    container_pid: Some(read->Ok_0),
                    container_started: true,
                    ..session
                })
                &&& RuntimeSession::pid_file_progress(reported, event) == read->Ok_0
                &&& session.container_status is None ==> outcome == Ok::<_, ErrorView>(
                    PidFileStepView::Reap(ReapStep::Wait),
                )
                &&& session.container_status is Some ==> outcome == Ok::<_, ErrorView>(
                    watch(read->Ok_0),
                )
            }
            &&& read is Err ==> outcome == Err::<PidFileStepView, _>(read->Err_0)
                && session.after_pid_file(event) == session
            &&& ({
                let reaping = session.reap_outcome(poll);
                let next = session.pid_file_outcome(common, reported, PidFileEvent::Reap(poll));
                &&& reaping == Ok::<_, ErrorView>(ReapStep::Done) ==> next == Ok::<_, ErrorView>(
                    watch(reported),
                )
                &&& reaping is Ok && reaping->Ok_0 != ReapStep::Done ==> next == Ok::<_, ErrorView>(
                    PidFileStepView::Reap(reaping->Ok_0),
                )
                &&& reaping is Err ==> next == Err::<PidFileStepView, _>(reaping->Err_0)
                &&& session.after_pid_file(PidFileEvent::Reap(poll)) == session.after_poll(poll)
            })
        }),
        ({
            let ready = PidFileEvent::OomReady(socket);
            let outcome = session.pid_file_outcome(common, reported, ready);
            &&& session.after_pid_file(ready) == (RuntimeSession {
                oom_socket: socket,
                sync_pipe_fd: None,
                ..session
            })
            &&& session.sync_pipe_fd is None ==> outcome == Ok::<_, ErrorView>(
                PidFileStepView::Done,
            )
            &&& session.sync_pipe_fd is Some ==> outcome == Ok::<_, ErrorView>(
                PidFileStepView::Write(
                    SyncReportView {
                        fd: session.sync_pipe_fd->0,
                        data: reported,
                        message: None,
                        api_version: common.api_version,
                        as_exit_code: false,
                    },
                ),
            )
        }),
        session.pid_file_outcome(common, reported, PidFileEvent::Written(kept)) == Ok::<
            _,
            ErrorView,
        >(PidFileStepView::Done),
        session.after_pid_file(PidFileEvent::Written(kept)) == (RuntimeSession {
            sync_pipe_fd: kept,
            ..session
        }),
{
}

/// The event loop gets every descriptor and socket that the session has for it, each in its
/// place; the session keeps none of them, and everything else.
pub proof fn law_event_loop_gets_everything(
    session: RuntimeSession,
    leave_stdin_open: bool,
    stdin_attached: bool,
)
    requires
        session.mainfd_stderr is Some,
    ensures
        ({
            let given = session.stdio(leave_stdin_open, stdin_attached);
            let left = session.without_stdio();
            &&& given.stdout == session.mainfd_stdout && left.mainfd_stdout is None
            &&& Some(given.stderr) == session.mainfd_stderr && left.mainfd_stderr is None
            &&& given.stdin == session.workerfd_stdin && left.workerfd_stdin is None
            &&& given.attach_socket == session.attach_socket && left.attach_socket is None
            &&& given.terminal_socket == session.terminal_socket && left.terminal_socket is None
            &&& given.ctl_fifo == session.ctl_fifo && left.ctl_fifo is None
            &&& given.winsz_fifo == session.winsz_fifo && left.winsz_fifo is None
            &&& given.oom_socket == session.oom_socket && left.oom_socket is None
            &&& given.notify_socket == session.notify_socket && left.notify_socket is None
            &&& given.sdnotify_socket_path == session.sdnotify_socket_path
                && left.sdnotify_socket_path is None
            &&& session.signals is Some ==> Some(given.signal_fd) == session.signals
            &&& session.signals is None ==> given.signal_fd == -1
            &&& given.leave_stdin_open == leave_stdin_open
            &&& given.stdin_attached == stdin_attached
            &&& left.process_pid == session.process_pid
            &&& left.sync_pipe_fd == session.sync_pipe_fd
            &&& left.exit_code == session.exit_code
            &&& left.console_socket == session.console_socket
            &&& left.container_started == session.container_started
            &&& left.container_pid == session.container_pid
            &&& left.container_status == session.container_status
            &&& left.timeout == session.timeout
            &&& left.timed_out == session.timed_out
            &&& left.signals == session.signals
            &&& left.open_files == session.open_files
        }),
{
}

/// After the event loop the end of the container is settled, step by step, and the session is
/// over when that is done.
pub proof fn law_event_loop_settles(
    step: ConmonResult<EventLoopStep>,
    outcome: Result<FinalizeStep, ErrorView>,
)
    requires
        settles(step, outcome),
    ensures
        step is Ok <==> outcome is Ok,
        step matches Ok(EventLoopStep::Done) ==> outcome == Ok::<_, ErrorView>(FinalizeStep::Done),
        step matches Ok(EventLoopStep::Finalize(inner)) ==> inner != FinalizeStep::Done && outcome
            == Ok::<_, ErrorView>(inner),
        !(step matches Ok(EventLoopStep::Run(_))),
        step is Err ==> outcome == Err::<FinalizeStep, _>(step->Err_0@),
{
}

/// A step of making the pid known is seen as what it names.
pub proof fn law_pid_file_step_view(step: PidFileStep)
    ensures
        match step {
            PidFileStep::ReadPidFile(path) => step@ == PidFileStepView::ReadPidFile(path@),
            PidFileStep::Reap(inner) => step@ == PidFileStepView::Reap(inner),
            PidFileStep::SetupOom { pid, persist_dir, bundle } => step@ == (
            PidFileStepView::SetupOom {
                pid,
                persist_dir: bytes_view(persist_dir),
                bundle: bundle@,
            }),
            PidFileStep::Write(report) => step@ == PidFileStepView::Write(report@),
            PidFileStep::Done => step@ == PidFileStepView::Done,
        },
{
}

/// What fails while the pid is made known is what comes out, and the session stays as it is.
/// The pid to report changes only when the file is read.
pub proof fn law_failure_to_make_pid_known(
    session: RuntimeSession,
    common: CommonCfg,
    reported: i32,
    error: ConmonError,
    event: PidFileEvent,
)
    ensures
        session.pid_file_outcome(common, reported, PidFileEvent::Failed(error)) == Err::<
            PidFileStepView,
            _,
        >(error@),
        session.after_pid_file(PidFileEvent::Failed(error)) == session,
        !(event is Contents) ==> RuntimeSession::pid_file_progress(reported, event) == reported,
{
}

} // verus!
