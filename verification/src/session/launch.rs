//! Launching the runtime: what is prepared for it, and in which order.
use vstd::prelude::*;
use vstd::utf8::encode_utf8;

use crate::bytes::{bytes_view, copy_bytes, copy_optional_bytes, copy_optional_text, text_view};
use crate::config::CommonCfg;
use crate::error::{fail, failure, result_view, ConmonError, ConmonResult, ErrorView};
use crate::remote_socket::{RemoteSocket, SocketType};
use crate::session::exit::{SyncReport, SyncReportView};
use crate::session::{
    law_without_fd, law_without_fd_keeps_order, without_fd, OpenFilesSnapshot, RuntimeSession,
    NO_PROCESS, PIPE_READ_SIZE,
};
use crate::unix_socket::{BindRequest, BindRequestView, SockType, UnixSocket, UnixSocketView};

verus! {

/// The signal that interrupts a process from the keyboard.
pub const SIGINT: i32 = 2;

/// The signal that quits a process from the keyboard.
pub const SIGQUIT: i32 = 3;

/// The signal that terminates a process.
pub const SIGTERM: i32 = 15;

/// The pipes that the parent hands down by the environment.
#[derive(Debug, Copy, Clone, PartialEq, Eq, Structural)]
pub enum InheritedPipe {
    /// Takes the container PID or the error of the runtime.
    Sync,
    /// Takes the news that the attach socket is ready.
    Attach,
    /// Brings the news that the runtime may start.
    Start,
}

impl InheritedPipe {
    /// The environment variable that names the descriptor of the pipe.
    pub open spec fn named(self) -> Seq<char> {
        match self {
            InheritedPipe::Sync => "_OCI_SYNCPIPE"@,
            InheritedPipe::Attach => "_OCI_ATTACHPIPE"@,
            InheritedPipe::Start => "_OCI_STARTPIPE"@,
        }
    }

    /// The environment variable that names the descriptor of the pipe.
    pub fn variable(self) -> (name: &'static str)
        ensures
            name@ == self.named(),
    {
        match self {
            InheritedPipe::Sync => "_OCI_SYNCPIPE",
            InheritedPipe::Attach => "_OCI_ATTACHPIPE",
            InheritedPipe::Start => "_OCI_STARTPIPE",
        }
    }
}

/// The two ends of a pipe: what is written to `in_fd` is read from `out_fd`.
#[derive(Debug, Copy, Clone, PartialEq, Eq, Structural)]
pub struct PipeEnds {
    pub out_fd: i32,
    pub in_fd: i32,
}

/// How the runtime is to be started.
#[derive(Debug)]
pub struct SpawnRequest {
    /// The command line.
    pub args: Vec<String>,
    /// What the runtime reads; nothing if there is no descriptor.
    pub stdin: Option<i32>,
    /// Where the runtime writes; nowhere if there is no descriptor.
    pub stdout: Option<i32>,
    /// Where the runtime writes its errors.
    pub stderr: i32,
    /// The pipe that blocks the runtime until the parent has attached.
    pub start_pipe_fd: Option<i32>,
    pub replace_listen_pid: bool,
    pub logging_passthrough: bool,
    /// Whether the monitor goes to the background.
    pub detach: bool,
    /// The file into which the pid of the monitor is written.
    pub conmon_pidfile: Option<Vec<u8>>,
}

/// How the runtime is to be started, by the values.
#[verifier::ext_equal]
pub struct SpawnRequestView {
    pub args: Seq<String>,
    pub stdin: Option<i32>,
    pub stdout: Option<i32>,
    pub stderr: i32,
    pub start_pipe_fd: Option<i32>,
    pub replace_listen_pid: bool,
    pub logging_passthrough: bool,
    pub detach: bool,
    pub conmon_pidfile: Option<Seq<u8>>,
}

impl View for SpawnRequest {
    type V = SpawnRequestView;

    open spec fn view(&self) -> SpawnRequestView {
        SpawnRequestView {
            args: self.args@,
            stdin: self.stdin,
            stdout: self.stdout,
            stderr: self.stderr,
            start_pipe_fd: self.start_pipe_fd,
            replace_listen_pid: self.replace_listen_pid,
            logging_passthrough: self.logging_passthrough,
            detach: self.detach,
            conmon_pidfile: bytes_view(self.conmon_pidfile),
        }
    }
}

/// What a launch has gathered besides what the session keeps.
#[derive(Debug)]
pub struct LaunchProgress {
    /// The pipe over which the parent learns that the attach socket is ready.
    pub attach_pipe_fd: Option<i32>,
    /// The pipe by which the parent starts the runtime.
    pub start_pipe_fd: Option<i32>,
    /// The command line of the runtime.
    pub args: Option<Vec<String>>,
    /// The end of the pipe that the runtime reads.
    pub stdin: Option<i32>,
    /// The end of the pipe to which the runtime writes.
    pub stdout: Option<i32>,
}

impl LaunchProgress {
    /// Nothing was gathered yet.
    pub open spec fn fresh() -> LaunchProgress {
        LaunchProgress {
            attach_pipe_fd: None,
            start_pipe_fd: None,
            args: None,
            stdin: None,
            stdout: None,
        }
    }

    /// Nothing was gathered yet.
    pub fn new() -> (progress: Self)
        ensures
            progress == LaunchProgress::fresh(),
    {
        LaunchProgress {
            attach_pipe_fd: None,
            start_pipe_fd: None,
            args: None,
            stdin: None,
            stdout: None,
        }
    }
}

/// What happened in the course of a launch.
pub enum LaunchEvent {
    Start,
    /// The parent has handed down this sync pipe, if any.
    SyncPipe(Option<i32>),
    /// The parent has handed down this attach pipe, if any.
    AttachPipe(Option<i32>),
    /// The attach socket is bound.
    AttachBound(UnixSocket),
    /// The attach socket is listened on.
    AttachListening(UnixSocket),
    /// The `ctl` fifo is open.
    CtlFifo(RemoteSocket),
    /// The `winsz` fifo is open.
    WinszFifo(RemoteSocket),
    /// The parent was told that the attach socket is ready.
    AttachReported,
    /// The parent has handed down this start pipe, if any.
    StartPipe(Option<i32>),
    /// The parent has written to the start pipe.
    StartMessage,
    /// The console socket is bound.
    ConsoleBound(UnixSocket),
    /// The console socket is listened on.
    ConsoleListening(UnixSocket),
    /// The notify socket is bound.
    NotifyBound(UnixSocket),
    /// This is the time, in seconds since the epoch.
    Now(u64),
    /// This is the command line of the runtime.
    Args(Vec<String>),
    /// The pipe for stdin.
    StdinPipe(PipeEnds),
    /// The pipe for stdout.
    StdoutPipe(PipeEnds),
    /// The pipe for stderr.
    StderrPipe(PipeEnds),
    /// The runtime was started and has this pid.
    Spawned(i32),
    /// Signals are read from this descriptor.
    SignalFd(i32),
    /// The last step failed, which ends the matter.
    Failed(ConmonError),
}

/// What a launch needs next.
pub enum LaunchStep {
    /// Look up a pipe in the environment.
    GetPipe(InheritedPipe),
    /// Bind the attach socket.
    BindAttach { socket: UnixSocket, request: BindRequest },
    /// Listen on the attach socket.
    ListenAttach(UnixSocket),
    /// Set up the `ctl` fifo.
    SetupCtlFifo,
    /// Set up the `winsz` fifo.
    SetupWinszFifo,
    /// Tell the parent that the attach socket is ready.
    ReportAttached(SyncReport),
    /// Read once from the start pipe, so many bytes at most. What is read does not matter.
    AwaitStart { fd: i32, limit: usize },
    /// Bind the console socket.
    BindConsole { socket: UnixSocket, request: BindRequest },
    /// Listen on the console socket.
    ListenConsole(UnixSocket),
    /// Bind the notify socket.
    BindNotify { socket: UnixSocket, request: BindRequest },
    /// Tell the time.
    AskTime,
    /// Generate the command line of the runtime, which names the console socket by its path
    /// if there is one.
    GenerateArgs { console: Option<Vec<u8>> },
    /// Create the pipe for stdin.
    CreateStdin,
    /// Create the pipe for stdout.
    CreateStdout,
    /// Create the pipe for stderr.
    CreateStderr,
    /// Start the runtime.
    Spawn(SpawnRequest),
    /// Block these signals, and open a descriptor from which they are read.
    CatchSignals(Vec<i32>),
    /// The runtime is launched.
    Done,
}

/// What a launch needs next, by the values.
#[verifier::ext_equal]
pub enum LaunchStepView {
    GetPipe(InheritedPipe),
    BindAttach { socket: UnixSocketView, request: BindRequestView },
    ListenAttach(UnixSocketView),
    SetupCtlFifo,
    SetupWinszFifo,
    ReportAttached(SyncReportView),
    AwaitStart { fd: i32, limit: usize },
    BindConsole { socket: UnixSocketView, request: BindRequestView },
    ListenConsole(UnixSocketView),
    BindNotify { socket: UnixSocketView, request: BindRequestView },
    AskTime,
    GenerateArgs { console: Option<Seq<u8>> },
    CreateStdin,
    CreateStdout,
    CreateStderr,
    Spawn(SpawnRequestView),
    CatchSignals(Seq<i32>),
    Done,
}

impl View for LaunchStep {
    type V = LaunchStepView;

    open spec fn view(&self) -> LaunchStepView {
        match self {
            LaunchStep::GetPipe(pipe) => LaunchStepView::GetPipe(*pipe),
            LaunchStep::BindAttach { socket, request } => LaunchStepView::BindAttach {
                socket: socket@,
                request: request@,
            },
            LaunchStep::ListenAttach(socket) => LaunchStepView::ListenAttach(socket@),
            LaunchStep::SetupCtlFifo => LaunchStepView::SetupCtlFifo,
            LaunchStep::SetupWinszFifo => LaunchStepView::SetupWinszFifo,
            LaunchStep::ReportAttached(report) => LaunchStepView::ReportAttached(report@),
            LaunchStep::AwaitStart { fd, limit } => LaunchStepView::AwaitStart {
                fd: *fd,
                limit: *limit,
            },
            LaunchStep::BindConsole { socket, request } => LaunchStepView::BindConsole {
                socket: socket@,
                request: request@,
            },
            LaunchStep::ListenConsole(socket) => LaunchStepView::ListenConsole(socket@),
            LaunchStep::BindNotify { socket, request } => LaunchStepView::BindNotify {
                socket: socket@,
                request: request@,
            },
            LaunchStep::AskTime => LaunchStepView::AskTime,
            LaunchStep::GenerateArgs { console } => LaunchStepView::GenerateArgs {
                console: bytes_view(*console),
            },
            LaunchStep::CreateStdin => LaunchStepView::CreateStdin,
            LaunchStep::CreateStdout => LaunchStepView::CreateStdout,
            LaunchStep::CreateStderr => LaunchStepView::CreateStderr,
            LaunchStep::Spawn(request) => LaunchStepView::Spawn(request@),
            LaunchStep::CatchSignals(signals) => LaunchStepView::CatchSignals(signals@),
            LaunchStep::Done => LaunchStepView::Done,
        }
    }
}

/// A socket that is not bound yet, below the bundle or the socket directory.
pub open spec fn unbound(
    common: CommonCfg,
    socket_type: SocketType,
    use_full_attach_path: bool,
    in_socket_dir: bool,
) -> UnixSocketView {
    UnixSocketView {
        use_full_attach_path,
        bundle_path: common.bundle@,
        socket_path: if in_socket_dir {
            Some(common.socket_dir_path@)
        } else {
            None
        },
        cuuid: if in_socket_dir {
            text_view(common.cuuid)
        } else {
            None
        },
        path: None,
        fd: None,
        socket_type,
    }
}

fn make_unbound(
    common: &CommonCfg,
    socket_type: SocketType,
    use_full_attach_path: bool,
    in_socket_dir: bool,
) -> (socket: UnixSocket)
    ensures
        socket@ == unbound(*common, socket_type, use_full_attach_path, in_socket_dir),
{
    let bundle = copy_bytes(common.bundle.as_slice());
    if in_socket_dir {
        UnixSocket::new(
            socket_type,
            use_full_attach_path,
            bundle,
            Some(copy_bytes(common.socket_dir_path.as_slice())),
            copy_optional_text(&common.cuuid),
        )
    } else {
        UnixSocket::new(socket_type, use_full_attach_path, bundle, None, None)
    }
}

/// The step that binds the attach socket.
pub open spec fn attach_binding(common: CommonCfg) -> LaunchStepView {
    LaunchStepView::BindAttach {
        socket: unbound(common, SocketType::Console, common.full_attach, true),
        request: BindRequestView {
            path: Some(encode_utf8("attach"@)),
            sock_type: SockType::SeqPacket,
            nonblocking: true,
            close_on_exec: true,
            perms: 0o700u32,
        },
    }
}

/// The step that binds the console socket, under a name of its own.
pub open spec fn console_binding(common: CommonCfg) -> LaunchStepView {
    LaunchStepView::BindConsole {
        socket: unbound(common, SocketType::Terminal, common.full_attach, false),
        request: BindRequestView {
            path: None,
            sock_type: SockType::Stream,
            nonblocking: false,
            close_on_exec: true,
            perms: 0o700u32,
        },
    }
}

/// The step that binds the notify socket, always in the bundle itself.
pub open spec fn notify_binding(common: CommonCfg) -> LaunchStepView {
    LaunchStepView::BindNotify {
        socket: unbound(common, SocketType::Notify, true, true),
        request: BindRequestView {
            path: Some(encode_utf8("notify/notify.sock"@)),
            sock_type: SockType::Datagram,
            nonblocking: true,
            close_on_exec: true,
            perms: 0o777u32,
        },
    }
}

/// What is needed once the attach pipe is known: the attach socket, unless the container
/// writes its logs itself.
pub open spec fn need_attach_socket(common: CommonCfg) -> LaunchStepView {
    if common.logging_passthrough {
        LaunchStepView::GetPipe(InheritedPipe::Start)
    } else {
        attach_binding(common)
    }
}

/// What is needed once the parent lets the launch go on: the console socket, if there is
/// a terminal.
pub open spec fn need_console(common: CommonCfg, console: Option<Seq<u8>>) -> LaunchStepView {
    if common.terminal {
        console_binding(common)
    } else {
        need_notify(common, console)
    }
}

/// What is needed after the console socket: the notify socket, if the host has one.
pub open spec fn need_notify(common: CommonCfg, console: Option<Seq<u8>>) -> LaunchStepView {
    if common.sdnotify_socket is Some {
        notify_binding(common)
    } else {
        need_timeout(common, console)
    }
}

/// What is needed after the sockets: the time, if there is a timeout, and then the
/// command line.
pub open spec fn need_timeout(common: CommonCfg, console: Option<Seq<u8>>) -> LaunchStepView {
    if common.timeout is Some {
        LaunchStepView::AskTime
    } else {
        LaunchStepView::GenerateArgs { console }
    }
}

/// The path of the console socket, if there is one.
pub open spec fn console_path(socket: Option<UnixSocket>) -> Option<Seq<u8>> {
    match socket {
        Some(socket) => bytes_view(socket.path),
        None => None,
    }
}

/// What is needed after the command line: pipes for stdin and stdout, unless there is a
/// terminal. There is a pipe for stdin only if it is wanted.
pub open spec fn need_stdio(common: CommonCfg) -> LaunchStepView {
    if common.terminal {
        LaunchStepView::CreateStderr
    } else if common.stdin {
        LaunchStepView::CreateStdin
    } else {
        LaunchStepView::CreateStdout
    }
}

/// `fds` without `fd`, if there is one.
pub open spec fn without_pipe(fds: Seq<i32>, fd: Option<i32>) -> Seq<i32> {
    match fd {
        Some(fd) => without_fd(fds, fd),
        None => fds,
    }
}

fn attach_step(common: &CommonCfg) -> (step: LaunchStep)
    ensures
        step@ == need_attach_socket(*common),
{
    // If logging is not passthrough, we will create attach UNIX socket and other
    // sockets that control the terminal.
    if common.logging_passthrough {
        return LaunchStep::GetPipe(InheritedPipe::Start);
    }
    LaunchStep::BindAttach {
        socket: make_unbound(common, SocketType::Console, common.full_attach, true),
        request: BindRequest {
            path: Some(copy_bytes("attach".as_bytes())),
            sock_type: SockType::SeqPacket,
            nonblocking: true,
            close_on_exec: true,
            perms: 0o700,
        },
    }
}

fn console_step(common: &CommonCfg, console: &Option<UnixSocket>) -> (step: LaunchStep)
    ensures
        step@ == need_console(*common, console_path(*console)),
{
    // Create console socket if the --terminal option is used.
    // We later pass the path to the socket to runtime and it sends a fd
    // through it which will be used to communicate with the container.
    if !common.terminal {
        return notify_step(common, console);
    }
    LaunchStep::BindConsole {
        socket: make_unbound(common, SocketType::Terminal, common.full_attach, false),
        // The path is None here - the socket gets a unique random name.
        request: BindRequest {
            path: None,
            sock_type: SockType::Stream,
            nonblocking: false,
            close_on_exec: true,
            perms: 0o700,
        },
    }
}

fn notify_step(common: &CommonCfg, console: &Option<UnixSocket>) -> (step: LaunchStep)
    ensures
        step@ == need_notify(*common, console_path(*console)),
{
    // Create systemd notify.socket if requested.
    if common.sdnotify_socket.is_none() {
        return timeout_step(common, console);
    }
    LaunchStep::BindNotify {
        socket: make_unbound(common, SocketType::Notify, true, true),
        request: BindRequest {
            path: Some(copy_bytes("notify/notify.sock".as_bytes())),
            sock_type: SockType::Datagram,
            nonblocking: true,
            close_on_exec: true,
            perms: 0o777,
        },
    }
}

fn timeout_step(common: &CommonCfg, console: &Option<UnixSocket>) -> (step: LaunchStep)
    ensures
        step@ == need_timeout(*common, console_path(*console)),
{
    // Set the timeout if --timeout is used.
    if common.timeout.is_some() {
        LaunchStep::AskTime
    } else {
        args_step(console)
    }
}

fn args_step(console: &Option<UnixSocket>) -> (step: LaunchStep)
    ensures
        step@ == (LaunchStepView::GenerateArgs { console: console_path(*console) }),
{
    match console {
        Some(socket) => LaunchStep::GenerateArgs { console: copy_optional_bytes(&socket.path) },
        None => LaunchStep::GenerateArgs { console: None },
    }
}

impl RuntimeSession {
    /// What a launch needs after `event`.
    pub open spec fn launch_outcome(
        self,
        common: CommonCfg,
        attach: bool,
        progress: LaunchProgress,
        event: LaunchEvent,
    ) -> Result<LaunchStepView, ErrorView> {
        match event {
            LaunchEvent::Start => Ok(LaunchStepView::GetPipe(InheritedPipe::Sync)),
            LaunchEvent::SyncPipe(_) => if attach {
                Ok(LaunchStepView::GetPipe(InheritedPipe::Attach))
            } else {
                Ok(need_attach_socket(common))
            },
            LaunchEvent::AttachPipe(None) => Err(
                failure("--attach specified but _OCI_ATTACHPIPE was not set"@),
            ),
            LaunchEvent::AttachPipe(Some(_)) => Ok(need_attach_socket(common)),
            LaunchEvent::AttachBound(socket) => Ok(LaunchStepView::ListenAttach(socket@)),
            LaunchEvent::AttachListening(_) => Ok(LaunchStepView::SetupCtlFifo),
            LaunchEvent::CtlFifo(_) => Ok(LaunchStepView::SetupWinszFifo),
            LaunchEvent::WinszFifo(_) => match progress.attach_pipe_fd {
                Some(fd) => Ok(
                    LaunchStepView::ReportAttached(
                        SyncReportView {
                            fd,
                            data: 0,
                            message: None,
                            api_version: common.api_version,
                            as_exit_code: true,
                        },
                    ),
                ),
                None => Ok(LaunchStepView::GetPipe(InheritedPipe::Start)),
            },
            LaunchEvent::AttachReported => Ok(LaunchStepView::GetPipe(InheritedPipe::Start)),
            LaunchEvent::StartPipe(Some(fd)) => Ok(
                LaunchStepView::AwaitStart { fd, limit: PIPE_READ_SIZE },
            ),
            LaunchEvent::StartPipe(None) => Ok(
                need_console(common, console_path(self.console_socket)),
            ),
            LaunchEvent::StartMessage => Ok(
                need_console(common, console_path(self.console_socket)),
            ),
            LaunchEvent::ConsoleBound(socket) => Ok(LaunchStepView::ListenConsole(socket@)),
            LaunchEvent::ConsoleListening(socket) => Ok(
                need_notify(common, bytes_view(socket.path)),
            ),
            LaunchEvent::NotifyBound(_) => Ok(
                need_timeout(common, console_path(self.console_socket)),
            ),
            LaunchEvent::Now(_) => Ok(
                LaunchStepView::GenerateArgs { console: console_path(self.console_socket) },
            ),
            LaunchEvent::Args(_) => Ok(need_stdio(common)),
            LaunchEvent::StdinPipe(_) => Ok(LaunchStepView::CreateStdout),
            LaunchEvent::StdoutPipe(_) => Ok(LaunchStepView::CreateStderr),
            LaunchEvent::StderrPipe(ends) => Ok(
                LaunchStepView::Spawn(
                    SpawnRequestView {
                        args: match progress.args {
                            Some(args) => args@,
                            None => Seq::empty(),
                        },
                        stdin: progress.stdin,
                        stdout: progress.stdout,
                        stderr: ends.in_fd,
                        start_pipe_fd: progress.start_pipe_fd,
                        replace_listen_pid: common.replace_listen_pid,
                        logging_passthrough: common.logging_passthrough,
                        detach: !common.sync_flag,
                        conmon_pidfile: bytes_view(common.conmon_pidfile),
                    },
                ),
            ),
            LaunchEvent::Spawned(_) => Ok(
                LaunchStepView::CatchSignals(seq![SIGTERM, SIGQUIT, SIGINT]),
            ),
            LaunchEvent::SignalFd(_) => Ok(LaunchStepView::Done),
            LaunchEvent::Failed(e) => Err(e@),
        }
    }

    /// What a launch has gathered after `event`.
    pub open spec fn launch_progress(
        attach: bool,
        progress: LaunchProgress,
        event: LaunchEvent,
    ) -> LaunchProgress {
        match event {
            LaunchEvent::AttachPipe(fd) => LaunchProgress { attach_pipe_fd: fd, ..progress },
            LaunchEvent::WinszFifo(_) => LaunchProgress { attach_pipe_fd: None, ..progress },
            LaunchEvent::StartPipe(fd) => LaunchProgress { start_pipe_fd: fd, ..progress },
            LaunchEvent::StartMessage => if attach {
                progress
            } else {
                LaunchProgress { start_pipe_fd: None, ..progress }
            },
            LaunchEvent::Args(args) => LaunchProgress { args: Some(args), ..progress },
            LaunchEvent::StdinPipe(ends) => LaunchProgress {
                stdin: Some(ends.out_fd),
                ..progress
            },
            LaunchEvent::StdoutPipe(ends) => LaunchProgress {
                stdout: Some(ends.in_fd),
                ..progress
            },
            LaunchEvent::StderrPipe(_) => LaunchProgress { args: None, ..progress },
            _ => progress,
        }
    }

    /// Whether `next` is the session after `event` in the course of a launch.
    pub open spec fn launched(
        self,
        common: CommonCfg,
        event: LaunchEvent,
        next: RuntimeSession,
    ) -> bool {
        match event {
            LaunchEvent::SyncPipe(fd) => {
                &&& next == (RuntimeSession {
                    sync_pipe_fd: fd,
                    open_files: next.open_files,
                    ..self
                })
                &&& next.open_files.fds@ == without_pipe(self.open_files.fds@, fd)
            },
            LaunchEvent::AttachPipe(fd) | LaunchEvent::StartPipe(fd) => {
                &&& next == (RuntimeSession { open_files: next.open_files, ..self })
                &&& next.open_files.fds@ == without_pipe(self.open_files.fds@, fd)
            },
            LaunchEvent::AttachListening(socket) => next == (RuntimeSession {
                attach_socket: Some(socket),
                ..self
            }),
            LaunchEvent::CtlFifo(fifo) => next == (RuntimeSession { ctl_fifo: Some(fifo), ..self }),
            LaunchEvent::WinszFifo(fifo) => next == (RuntimeSession {
                winsz_fifo: Some(fifo),
                ..self
            }),
            LaunchEvent::ConsoleListening(socket) => next == (RuntimeSession {
                console_socket: Some(socket),
                ..self
            }),
            LaunchEvent::NotifyBound(socket) => {
                &&& next.notify_socket matches Some(remote)
                &&& remote.fresh(socket.socket_type, socket.fd->0)
                &&& bytes_view(next.sdnotify_socket_path) == bytes_view(common.sdnotify_socket)
                &&& next == (RuntimeSession {
                    notify_socket: next.notify_socket,
                    sdnotify_socket_path: next.sdnotify_socket_path,
                    ..self
                })
            },
            LaunchEvent::Now(now) => next == (RuntimeSession {
                timeout: match common.timeout {
                    Some(seconds) => (now + seconds) as u64,
                    None => self.timeout,
                },
                ..self
            }),
            LaunchEvent::StdinPipe(ends) => next == (RuntimeSession {
                workerfd_stdin: Some(ends.in_fd),
                ..self
            }),
            LaunchEvent::StdoutPipe(ends) => next == (RuntimeSession {
                mainfd_stdout: Some(ends.out_fd),
                ..self
            }),
            LaunchEvent::StderrPipe(ends) => next == (RuntimeSession {
                mainfd_stderr: Some(ends.out_fd),
                ..self
            }),
            LaunchEvent::Spawned(pid) => next == (RuntimeSession { process_pid: pid, ..self }),
            LaunchEvent::SignalFd(fd) => next == (RuntimeSession { signals: Some(fd), ..self }),
            _ => next == self,
        }
    }

    /// Takes an inherited pipe out of `open_files` snapshot, otherwise we would close this
    /// fd prematurely before exit.
    fn keep_open(&mut self, fd: Option<i32>)
        ensures
            *final(self) == (RuntimeSession { open_files: final(self).open_files, ..*old(self) }),
            final(self).open_files.fds@ == without_pipe(old(self).open_files.fds@, fd),
    {
        if let Some(fd) = fd {
            self.open_files.remove(fd);
        }
    }

    /// Launches the "runtime" binary.
    ///
    /// This function prepares the complete environment for the "runtime" binary,
    /// including the stdio pipes, sd-notify socket, attach socket, signal-fd and
    /// many more.
    ///
    /// # Arguments
    ///
    /// * `common` - The Conmon common configuration.
    /// * `attach` - True if `--attach` Conmon flag is used.
    /// * `progress` - What the launch has gathered so far.
    /// * `event` - What happened.
    pub fn launch(
        &mut self,
        common: &CommonCfg,
        attach: bool,
        progress: &mut LaunchProgress,
        event: LaunchEvent,
    ) -> (step: ConmonResult<LaunchStep>)
        requires
            event matches LaunchEvent::NotifyBound(socket) ==> socket.fd is Some,
            event matches LaunchEvent::Now(now) ==> (common.timeout matches Some(seconds)
                ==> now + seconds <= u64::MAX),
        ensures
            result_view(step) == old(self).launch_outcome(*common, attach, *old(progress), event),
            *final(progress) == Self::launch_progress(attach, *old(progress), event),
            old(self).launched(*common, event, *final(self)),
    {
        match event {
            // Get the sync_pipe FD. It is used by the Conmon caller to obtain the
            // container_pid or the runtime error message later.
            LaunchEvent::Start => Ok(LaunchStep::GetPipe(InheritedPipe::Sync)),
            LaunchEvent::SyncPipe(fd) => {
                self.sync_pipe_fd = fd;
                self.keep_open(fd);
                // Get the attach pipe FD. We use it later to inform parent that attach
                // socket is ready.
                if attach {
                    return Ok(LaunchStep::GetPipe(InheritedPipe::Attach));
                }
                Ok(attach_step(common))
            },
            LaunchEvent::AttachPipe(fd) => {
                progress.attach_pipe_fd = fd;
                if fd.is_none() {
                    return Err(
                        fail("--attach specified but _OCI_ATTACHPIPE was not set".to_owned()),
                    );
                }
                self.keep_open(fd);
                // Create the `attach` socket which is used to send data to container's stdin.
                Ok(attach_step(common))
            },
            LaunchEvent::AttachBound(socket) => Ok(LaunchStep::ListenAttach(socket)),
            LaunchEvent::AttachListening(socket) => {
                self.attach_socket = Some(socket);
                // Create `ctl` fifo - this is used to control Conmon using simple commands
                // sent to it.
                Ok(LaunchStep::SetupCtlFifo)
            },
            LaunchEvent::CtlFifo(fifo) => {
                self.ctl_fifo = Some(fifo);
                // Create `winsz` fifo - this is the outdated way to control terminal
                // size. It is replaced with the `ctl`, but we still support this old way.
                Ok(LaunchStep::SetupWinszFifo)
            },
            LaunchEvent::WinszFifo(fifo) => {
                self.winsz_fifo = Some(fifo);
                // Inform the parent that the attach socket is ready.
                match progress.attach_pipe_fd.take() {
                    Some(fd) => Ok(
                        LaunchStep::ReportAttached(
                            SyncReport {
                                fd,
                                data: 0,
                                message: None,
                                api_version: common.api_version,
                                as_exit_code: true,
                            },
                        ),
                    ),
                    None => Ok(LaunchStep::GetPipe(InheritedPipe::Start)),
                }
            },
            // Get the start pipe FD. We wait for the parent to write some data into it
            // before continuing with the runtime process execution. This is a simple
            // sync mechanism between parent and us.
            LaunchEvent::AttachReported => Ok(LaunchStep::GetPipe(InheritedPipe::Start)),
            LaunchEvent::StartPipe(fd) => {
                self.keep_open(fd);
                progress.start_pipe_fd = fd;
                match fd {
                    // It is OK to read just once from the pipe here. The pipe is used as a
                    // sync mechanism. We do not care about the read data at all.
                    Some(fd) => Ok(LaunchStep::AwaitStart { fd, limit: PIPE_READ_SIZE }),
                    None => Ok(console_step(common, &self.console_socket)),
                }
            },
            LaunchEvent::StartMessage => {
                // If we are using attach, we want to keep the start_pipe_fd valid,
                // so it can be passed to the runtime and block its execution for the
                // second time. Parent uses that to inform us that it is attached to
                // container.
                if !attach {
                    progress.start_pipe_fd = None;
                }
                Ok(console_step(common, &self.console_socket))
            },
            LaunchEvent::ConsoleBound(socket) => Ok(LaunchStep::ListenConsole(socket)),
            LaunchEvent::ConsoleListening(socket) => {
                self.console_socket = Some(socket);
                Ok(notify_step(common, &self.console_socket))
            },
            LaunchEvent::NotifyBound(socket) => {
                self.notify_socket = Some(RemoteSocket::from(socket));
                self.sdnotify_socket_path = copy_optional_bytes(&common.sdnotify_socket);
                Ok(timeout_step(common, &self.console_socket))
            },
            LaunchEvent::Now(now) => {
                if let Some(seconds) = common.timeout {
                    self.timeout = now + seconds as u64;
                }
                // Generate the list of arguments for runtime.
                Ok(args_step(&self.console_socket))
            },
            LaunchEvent::Args(args) => {
                progress.args = Some(args);
                // If we are using a terminal, we pass the console-socket to runtime
                // and the communication will happen using that socket. So there is no
                // need to create custom stdin/stdout pipes.
                if common.terminal {
                    Ok(LaunchStep::CreateStderr)
                } else if common.stdin {
                    // Create the pipe to handle stdin in case the --stdin is used.
                    Ok(LaunchStep::CreateStdin)
                } else {
                    Ok(LaunchStep::CreateStdout)
                }
            },
            LaunchEvent::StdinPipe(ends) => {
                // We keep the "in" part of the pipe, so anything written to it can be sent
                // to container's stdin. We pass the "out" part of the pipe to the runtime,
                // so the container can read from it.
                self.workerfd_stdin = Some(ends.in_fd);
                progress.stdin = Some(ends.out_fd);
                // Create the pipe to handle stdout.
                Ok(LaunchStep::CreateStdout)
            },
            LaunchEvent::StdoutPipe(ends) => {
                // We pass the "in" part of the pipe to the runtime, so the container can
                // write to it. We keep the "out" part of the pipe, so anything written to
                // it can be treated as container's stdout.
                progress.stdout = Some(ends.in_fd);
                self.mainfd_stdout = Some(ends.out_fd);
                Ok(LaunchStep::CreateStderr)
            },
            // We create stderr every time, because we need to capture the runtime error log.
            LaunchEvent::StderrPipe(ends) => {
                self.mainfd_stderr = Some(ends.out_fd);
                let args = match progress.args.take() {
                    Some(args) => args,
                    None => Vec::new(),
                };
                // Run the `runtime create` and store our PID after first fork to
                // `conmon_pidfile`.
                Ok(
                    LaunchStep::Spawn(
                        SpawnRequest {
                            args,
                            stdin: progress.stdin,
                            stdout: progress.stdout,
                            stderr: ends.in_fd,
                            start_pipe_fd: progress.start_pipe_fd,
                            replace_listen_pid: common.replace_listen_pid,
                            logging_passthrough: common.logging_passthrough,
                            detach: !common.sync_flag,
                            conmon_pidfile: copy_optional_bytes(&common.conmon_pidfile),
                        },
                    ),
                )
            },
            LaunchEvent::Spawned(pid) => {
                self.process_pid = pid;
                // Setup the signal-fd for the signals we want to handle.
                let mut signals: Vec<i32> = Vec::new();
                signals.push(SIGTERM);
                signals.push(SIGQUIT);
                signals.push(SIGINT);
                assert(signals@ =~= seq![SIGTERM, SIGQUIT, SIGINT]);
                Ok(LaunchStep::CatchSignals(signals))
            },
            LaunchEvent::SignalFd(fd) => {
                self.signals = Some(fd);
                Ok(LaunchStep::Done)
            },
            LaunchEvent::Failed(e) => Err(e),
        }
    }
}

/// The place of a step in a launch.
pub open spec fn step_place(step: LaunchStepView) -> nat {
    match step {
        LaunchStepView::GetPipe(InheritedPipe::Sync) => 1,
        LaunchStepView::GetPipe(InheritedPipe::Attach) => 2,
        LaunchStepView::BindAttach { .. } => 3,
        LaunchStepView::ListenAttach(_) => 4,
        LaunchStepView::SetupCtlFifo => 5,
        LaunchStepView::SetupWinszFifo => 6,
        LaunchStepView::ReportAttached(_) => 7,
        LaunchStepView::GetPipe(InheritedPipe::Start) => 8,
        LaunchStepView::AwaitStart { .. } => 9,
        LaunchStepView::BindConsole { .. } => 10,
        LaunchStepView::ListenConsole(_) => 11,
        LaunchStepView::BindNotify { .. } => 12,
        LaunchStepView::AskTime => 13,
        LaunchStepView::GenerateArgs { .. } => 14,
        LaunchStepView::CreateStdin => 15,
        LaunchStepView::CreateStdout => 16,
        LaunchStepView::CreateStderr => 17,
        LaunchStepView::Spawn(_) => 18,
        LaunchStepView::CatchSignals(_) => 19,
        LaunchStepView::Done => 20,
    }
}

/// The place of the step to which an event is the answer. A launch starts at place 0; a
/// failure can come at any place, and is put behind all others.
pub open spec fn event_place(event: LaunchEvent) -> nat {
    match event {
        LaunchEvent::Start => 0,
        LaunchEvent::SyncPipe(_) => 1,
        LaunchEvent::AttachPipe(_) => 2,
        LaunchEvent::AttachBound(_) => 3,
        LaunchEvent::AttachListening(_) => 4,
        LaunchEvent::CtlFifo(_) => 5,
        LaunchEvent::WinszFifo(_) => 6,
        LaunchEvent::AttachReported => 7,
        LaunchEvent::StartPipe(_) => 8,
        LaunchEvent::StartMessage => 9,
        LaunchEvent::ConsoleBound(_) => 10,
        LaunchEvent::ConsoleListening(_) => 11,
        LaunchEvent::NotifyBound(_) => 12,
        LaunchEvent::Now(_) => 13,
        LaunchEvent::Args(_) => 14,
        LaunchEvent::StdinPipe(_) => 15,
        LaunchEvent::StdoutPipe(_) => 16,
        LaunchEvent::StderrPipe(_) => 17,
        LaunchEvent::Spawned(_) => 18,
        LaunchEvent::SignalFd(_) => 19,
        LaunchEvent::Failed(_) => 20,
    }
}

/// A launch only moves forward: no step comes twice, the steps come in one order, and a
/// launch is over after at most twenty of them.
pub proof fn law_launch_moves_forward(
    session: RuntimeSession,
    common: CommonCfg,
    attach: bool,
    progress: LaunchProgress,
    event: LaunchEvent,
)
    ensures
        session.launch_outcome(common, attach, progress, event) matches Ok(step)
            ==> event_place(event) < step_place(step) <= 20,
{
}

/// Whether a descriptor is not among those that are closed before the monitor exits.
pub open spec fn spared(session: RuntimeSession, fd: Option<i32>) -> bool {
    fd matches Some(fd) ==> !session.open_files.fds@.contains(fd)
}

/// Whether a launch comes by a place at all, as it is configured.
pub open spec fn comes_by(common: CommonCfg, attach: bool, place: nat) -> bool {
    &&& place == 2 || place == 7 ==> attach
    &&& 3 <= place <= 7 ==> !common.logging_passthrough
    &&& place == 10 || place == 11 ==> common.terminal
    &&& place == 12 ==> common.sdnotify_socket is Some
    &&& place == 13 ==> common.timeout is Some
    &&& place == 15 ==> !common.terminal && common.stdin
    &&& place == 16 ==> !common.terminal
}

/// Whether everything is there that comes before a place in a launch, and nothing else.
pub open spec fn prepared(
    session: RuntimeSession,
    common: CommonCfg,
    attach: bool,
    progress: LaunchProgress,
    place: nat,
) -> bool {
    &&& comes_by(common, attach, place)
    &&& place <= 1 ==> session.sync_pipe_fd is None
    &&& spared(session, session.sync_pipe_fd)
    &&& progress.attach_pipe_fd is Some <==> attach && place > 2 && (place <= 6
        || common.logging_passthrough)
    &&& spared(session, progress.attach_pipe_fd)
    &&& session.attach_socket is Some <==> !common.logging_passthrough && place > 4
    &&& session.ctl_fifo is Some <==> !common.logging_passthrough && place > 5
    &&& session.winsz_fifo is Some <==> !common.logging_passthrough && place > 6
    &&& place <= 8 ==> progress.start_pipe_fd is None
    &&& place == 9 ==> progress.start_pipe_fd is Some
    &&& place > 9 ==> attach || progress.start_pipe_fd is None
    &&& spared(session, progress.start_pipe_fd)
    &&& session.console_socket is Some <==> common.terminal && place > 11
    &&& session.notify_socket is Some <==> common.sdnotify_socket is Some && place > 12
    &&& bytes_view(session.sdnotify_socket_path) == (if place > 12 {
        bytes_view(common.sdnotify_socket)
    } else {
        None
    })
    &&& match common.timeout {
        Some(seconds) => place > 13 ==> session.timeout >= seconds,
        None => session.timeout == 0,
    }
    &&& place <= 13 ==> session.timeout == 0
    &&& progress.args is Some <==> 14 < place <= 17
    &&& session.workerfd_stdin is Some <==> !common.terminal && common.stdin && place > 15
    &&& progress.stdin is Some <==> !common.terminal && common.stdin && place > 15
    &&& session.mainfd_stdout is Some <==> !common.terminal && place > 16
    &&& progress.stdout is Some <==> !common.terminal && place > 16
    &&& session.mainfd_stderr is Some <==> place > 17
    &&& place <= 18 ==> session.process_pid == NO_PROCESS
    &&& session.signals is Some <==> place > 19
}

/// A launch of a new session begins with nothing.
pub proof fn law_launch_begins_prepared(
    open_files: OpenFilesSnapshot,
    common: CommonCfg,
    attach: bool,
)
    ensures
        prepared(
            RuntimeSession::fresh(open_files),
            common,
            attach,
            LaunchProgress::fresh(),
            event_place(LaunchEvent::Start),
        ),
{
}

/// Each step of a launch comes only when everything before it is there, and nothing is there
/// that is not configured. So the parent is told that the attach socket is ready when the
/// socket and both fifos are, and the runtime is started when all that it is given, and all
/// that listens to it, exists; without a terminal there is no console socket, with one there
/// are no pipes for stdin and stdout, and so on. Only with `--attach` does the start pipe
/// reach the runtime.
pub proof fn law_launch_prepares(
    session: RuntimeSession,
    common: CommonCfg,
    attach: bool,
    progress: LaunchProgress,
    event: LaunchEvent,
    next: RuntimeSession,
)
    requires
        prepared(session, common, attach, progress, event_place(event)),
        session.launched(common, event, next),
        event matches LaunchEvent::Now(now) ==> (common.timeout matches Some(seconds) ==> now
            + seconds <= u64::MAX),
    ensures
        session.launch_outcome(common, attach, progress, event) matches Ok(step) ==> prepared(
            next,
            common,
            attach,
            RuntimeSession::launch_progress(attach, progress, event),
            step_place(step),
        ),
{
    match event {
        LaunchEvent::SyncPipe(Some(fd))
        | LaunchEvent::AttachPipe(Some(fd))
        | LaunchEvent::StartPipe(Some(fd)) => {
            law_without_fd(session.open_files.fds@, fd);
        },
        _ => {},
    }
}

/// A stage of a launch: what the session and the launch have, and what happens then.
pub struct LaunchStage {
    pub session: RuntimeSession,
    pub progress: LaunchProgress,
    pub event: LaunchEvent,
}

impl LaunchStage {
    /// What is needed after this stage.
    pub open spec fn outcome(self, common: CommonCfg, attach: bool) -> Result<
        LaunchStepView,
        ErrorView,
    > {
        self.session.launch_outcome(common, attach, self.progress, self.event)
    }

    /// Whether `next` can be the stage after this one: what happens then answers the step
    /// that was needed.
    pub open spec fn leads_to(self, common: CommonCfg, attach: bool, next: LaunchStage) -> bool {
        &&& self.session.launched(common, self.event, next.session)
        &&& next.progress == RuntimeSession::launch_progress(attach, self.progress, self.event)
        &&& self.outcome(common, attach) matches Ok(step) && step_place(step) == event_place(
            next.event,
        )
    }

    /// Whether the deadline of the session can be written down, if this is where it is set.
    pub open spec fn in_range(self, common: CommonCfg) -> bool {
        self.event matches LaunchEvent::Now(now) ==> (common.timeout matches Some(seconds) ==> now
            + seconds <= u64::MAX)
    }
}

/// Whether `stages` are the first stages of a launch of a new session.
pub open spec fn whole_launch(
    common: CommonCfg,
    attach: bool,
    open_files: OpenFilesSnapshot,
    stages: Seq<LaunchStage>,
) -> bool {
    &&& stages.len() > 0
    &&& stages[0].session == RuntimeSession::fresh(open_files)
    &&& stages[0].progress == LaunchProgress::fresh()
    &&& stages[0].event == LaunchEvent::Start
    &&& forall|k: int| 0 <= k < stages.len() ==> (#[trigger] stages[k]).in_range(common)
    &&& forall|k: int|
        0 <= k < stages.len() - 1 ==> (#[trigger] stages[k]).leads_to(
            common,
            attach,
            stages[k + 1],
        )
}

/// At every stage of a launch of a new session there is exactly what is configured and was
/// reached: all that comes before, and nothing else.
pub proof fn law_whole_launch_is_prepared(
    common: CommonCfg,
    attach: bool,
    open_files: OpenFilesSnapshot,
    stages: Seq<LaunchStage>,
    k: int,
)
    requires
        whole_launch(common, attach, open_files, stages),
        0 <= k < stages.len(),
    ensures
        prepared(
            stages[k].session,
            common,
            attach,
            stages[k].progress,
            event_place(stages[k].event),
        ),
    decreases k,
{
    if k == 0 {
        law_launch_begins_prepared(open_files, common, attach);
    } else {
        let before = stages[k - 1];
        law_whole_launch_is_prepared(common, attach, open_files, stages, k - 1);
        assert(before.in_range(common));
        assert(before.leads_to(common, attach, stages[k - 1 + 1]));
        law_launch_prepares(
            before.session,
            common,
            attach,
            before.progress,
            before.event,
            stages[k].session,
        );
    }
}

/// The pipe that the parent has handed down, if that is what happened.
pub open spec fn handed_down(event: LaunchEvent) -> Option<i32> {
    match event {
        LaunchEvent::SyncPipe(fd) | LaunchEvent::AttachPipe(fd) | LaunchEvent::StartPipe(fd) => fd,
        _ => None,
    }
}

/// Whether `sessions` are those before, between and after `events` in the course of a launch.
pub open spec fn launch_course(
    common: CommonCfg,
    sessions: Seq<RuntimeSession>,
    events: Seq<LaunchEvent>,
) -> bool {
    &&& sessions.len() == events.len() + 1
    &&& forall|k: int|
        0 <= k < events.len() ==> sessions[k].launched(
            common,
            #[trigger] events[k],
            sessions[k + 1],
        )
}

/// No pipe that the parent has handed down is ever among the descriptors that are closed
/// before the monitor exits: from the moment it is handed down to the end of the launch,
/// whether or not it is used up in between.
pub proof fn law_inherited_pipes_are_spared(
    common: CommonCfg,
    sessions: Seq<RuntimeSession>,
    events: Seq<LaunchEvent>,
    handed: int,
    later: int,
)
    requires
        launch_course(common, sessions, events),
        0 <= handed < later < sessions.len(),
    ensures
        spared(sessions[later], handed_down(events[handed])),
    decreases later,
{
    let before = sessions[later - 1];
    assert(before.launched(common, events[later - 1], sessions[later]));
    if let Some(fd) = handed_down(events[later - 1]) {
        law_without_fd(before.open_files.fds@, fd);
    }
    if handed < later - 1 {
        law_inherited_pipes_are_spared(common, sessions, events, handed, later - 1);
    }
}

/// What each step of a launch asks for, in terms of the configuration and of what the parent
/// and the system have answered.
pub proof fn law_what_steps_ask_for(
    session: RuntimeSession,
    common: CommonCfg,
    attach: bool,
    progress: LaunchProgress,
    event: LaunchEvent,
)
    ensures
        session.launch_outcome(common, attach, progress, event) matches Ok(step) ==> match step {
            LaunchStepView::BindAttach { socket, request } => {
                &&& socket.socket_type == SocketType::Console
                &&& socket.use_full_attach_path == common.full_attach
                &&& socket.bundle_path == common.bundle@
                &&& socket.socket_path == Some(common.socket_dir_path@)
                &&& socket.cuuid == text_view(common.cuuid)
                &&& socket.path is None && socket.fd is None
                &&& request.path == Some(encode_utf8("attach"@))
                &&& request.sock_type == SockType::SeqPacket
                &&& request.nonblocking && request.close_on_exec
                &&& request.perms == 0o700
            },
            LaunchStepView::BindConsole { socket, request } => {
                &&& socket.socket_type == SocketType::Terminal
                &&& socket.use_full_attach_path == common.full_attach
                &&& socket.bundle_path == common.bundle@
                &&& socket.socket_path is None && socket.cuuid is None
                &&& socket.path is None && socket.fd is None
                &&& request.path is None
                &&& request.sock_type == SockType::Stream
                &&& !request.nonblocking && request.close_on_exec
                &&& request.perms == 0o700
            },
            LaunchStepView::BindNotify { socket, request } => {
                &&& socket.socket_type == SocketType::Notify
                &&& socket.use_full_attach_path
                &&& socket.bundle_path == common.bundle@
                &&& socket.socket_path == Some(common.socket_dir_path@)
                &&& socket.cuuid == text_view(common.cuuid)
                &&& socket.path is None && socket.fd is None
                &&& request.path == Some(encode_utf8("notify/notify.sock"@))
                &&& request.sock_type == SockType::Datagram
                &&& request.nonblocking && request.close_on_exec
                &&& request.perms == 0o777
            },
            LaunchStepView::ListenAttach(socket) => event matches LaunchEvent::AttachBound(bound)
                && socket == bound@,
            LaunchStepView::ListenConsole(socket) => event matches LaunchEvent::ConsoleBound(bound)
                && socket == bound@,
            LaunchStepView::ReportAttached(report) => {
                &&& event is WinszFifo
                &&& Some(report.fd) == progress.attach_pipe_fd
                &&& report.data == 0
                &&& report.message is None
                &&& report.api_version == common.api_version
                &&& report.as_exit_code
            },
            LaunchStepView::AwaitStart { fd, limit } => event == LaunchEvent::StartPipe(Some(fd))
                && limit == 8192,
            LaunchStepView::GenerateArgs { console } => match event {
                LaunchEvent::ConsoleListening(socket) => console == bytes_view(socket.path),
                _ => console == (match session.console_socket {
                    Some(socket) => bytes_view(socket.path),
                    None => None,
                }),
            },
            LaunchStepView::Spawn(request) => {
                &&& event matches LaunchEvent::StderrPipe(ends) && request.stderr == ends.in_fd
                &&& progress.args is Some ==> request.args == progress.args->0@
                &&& request.stdin == progress.stdin
                &&& request.stdout == progress.stdout
                &&& request.start_pipe_fd == progress.start_pipe_fd
                &&& request.replace_listen_pid == common.replace_listen_pid
                &&& request.logging_passthrough == common.logging_passthrough
                &&& request.detach == !common.sync_flag
                &&& request.conmon_pidfile == bytes_view(common.conmon_pidfile)
            },
            LaunchStepView::CatchSignals(signals) => signals == seq![15i32, 3i32, 2i32],
            _ => true,
        },
        session.launch_outcome(common, attach, progress, event) matches Err(e) ==> {
            ||| event == LaunchEvent::AttachPipe(None) && e == failure(
                "--attach specified but _OCI_ATTACHPIPE was not set"@,
            )
            ||| event matches LaunchEvent::Failed(cause) && e == cause@
        },
        event == LaunchEvent::AttachPipe(None) || event is Failed ==> session.launch_outcome(
            common,
            attach,
            progress,
            event,
        ) is Err,
{
}

/// The environment variables by which the parent names its pipes.
pub proof fn law_names_of_pipes()
    ensures
        InheritedPipe::Sync.named() == "_OCI_SYNCPIPE"@,
        InheritedPipe::Attach.named() == "_OCI_ATTACHPIPE"@,
        InheritedPipe::Start.named() == "_OCI_STARTPIPE"@,
{
}

/// What a launch records in the session: each field takes what its own event has brought, and
/// changes on no other. Of a pipe between the monitor and the runtime, the session keeps the
/// end of the monitor: the one to write to for stdin, the one to read from for stdout and
/// stderr.
pub proof fn law_what_session_records(
    session: RuntimeSession,
    common: CommonCfg,
    event: LaunchEvent,
    next: RuntimeSession,
)
    requires
        session.launched(common, event, next),
    ensures
        next.sync_pipe_fd == (match event {
            LaunchEvent::SyncPipe(fd) => fd,
            _ => session.sync_pipe_fd,
        }),
        next.workerfd_stdin == (match event {
            LaunchEvent::StdinPipe(ends) => Some(ends.in_fd),
            _ => session.workerfd_stdin,
        }),
        next.mainfd_stdout == (match event {
            LaunchEvent::StdoutPipe(ends) => Some(ends.out_fd),
            _ => session.mainfd_stdout,
        }),
        next.mainfd_stderr == (match event {
            LaunchEvent::StderrPipe(ends) => Some(ends.out_fd),
            _ => session.mainfd_stderr,
        }),
        next.attach_socket == (match event {
            LaunchEvent::AttachListening(socket) => Some(socket),
            _ => session.attach_socket,
        }),
        next.console_socket == (match event {
            LaunchEvent::ConsoleListening(socket) => Some(socket),
            _ => session.console_socket,
        }),
        next.ctl_fifo == (match event {
            LaunchEvent::CtlFifo(fifo) => Some(fifo),
            _ => session.ctl_fifo,
        }),
        next.winsz_fifo == (match event {
            LaunchEvent::WinszFifo(fifo) => Some(fifo),
            _ => session.winsz_fifo,
        }),
        event matches LaunchEvent::NotifyBound(socket) ==> {
            &&& next.notify_socket is Some
            &&& next.notify_socket->0.fresh(socket.socket_type, socket.fd->0)
            &&& bytes_view(next.sdnotify_socket_path) == bytes_view(common.sdnotify_socket)
        },
        !(event is NotifyBound) ==> next.notify_socket == session.notify_socket
            && next.sdnotify_socket_path == session.sdnotify_socket_path,
        event matches LaunchEvent::Now(now) ==> (common.timeout matches Some(seconds) ==> (now
            + seconds <= u64::MAX ==> next.timeout == now + seconds)),
        !(event is Now) || common.timeout is None ==> next.timeout == session.timeout,
        next.process_pid == (match event {
            LaunchEvent::Spawned(pid) => pid,
            _ => session.process_pid,
        }),
        next.signals == (match event {
            LaunchEvent::SignalFd(fd) => Some(fd),
            _ => session.signals,
        }),
        next.open_files.fds@ == (match event {
            LaunchEvent::SyncPipe(Some(fd))
            | LaunchEvent::AttachPipe(Some(fd))
            | LaunchEvent::StartPipe(Some(fd)) => session.open_files.fds@.filter(
                |other: i32| other != fd,
            ),
            _ => session.open_files.fds@,
        }),
        next.exit_code == session.exit_code,
        next.terminal_socket == session.terminal_socket,
        next.container_started == session.container_started,
        next.container_pid == session.container_pid,
        next.container_status == session.container_status,
        next.timed_out == session.timed_out,
        next.oom_socket == session.oom_socket,
{
    match event {
        LaunchEvent::SyncPipe(Some(fd))
        | LaunchEvent::AttachPipe(Some(fd))
        | LaunchEvent::StartPipe(Some(fd)) => {
            law_without_fd_keeps_order(session.open_files.fds@, fd);
        },
        _ => {},
    }
}

/// What a launch gathers for the runtime, in the same way: the ends of the runtime of the
/// pipes for stdin and stdout, the command line until it is used, the attach pipe until the
/// parent is told, and the start pipe, which is given up after the message of the parent
/// unless the runtime is to wait on it too.
pub proof fn law_what_launch_gathers(attach: bool, progress: LaunchProgress, event: LaunchEvent)
    ensures
        ({
            let next = RuntimeSession::launch_progress(attach, progress, event);
            &&& next.attach_pipe_fd == (match event {
                LaunchEvent::AttachPipe(fd) => fd,
                LaunchEvent::WinszFifo(_) => None,
                _ => progress.attach_pipe_fd,
            })
            &&& next.start_pipe_fd == (match event {
                LaunchEvent::StartPipe(fd) => fd,
                LaunchEvent::StartMessage if !attach => None,
                _ => progress.start_pipe_fd,
            })
            &&& next.args == (match event {
                LaunchEvent::Args(args) => Some(args),
                LaunchEvent::StderrPipe(_) => None,
                _ => progress.args,
            })
            &&& next.stdin == (match event {
                LaunchEvent::StdinPipe(ends) => Some(ends.out_fd),
                _ => progress.stdin,
            })
            &&& next.stdout == (match event {
                LaunchEvent::StdoutPipe(ends) => Some(ends.in_fd),
                _ => progress.stdout,
            })
        }),
{
}

/// A launch skips no step that its configuration asks for. Only the start message is not
/// waited for if there is no start pipe.
pub proof fn law_no_step_is_skipped(
    session: RuntimeSession,
    common: CommonCfg,
    attach: bool,
    progress: LaunchProgress,
    event: LaunchEvent,
    place: nat,
)
    requires
        prepared(session, common, attach, progress, event_place(event)),
        session.launch_outcome(common, attach, progress, event) is Ok,
        event_place(event) < place < step_place(
            session.launch_outcome(common, attach, progress, event)->Ok_0,
        ),
    ensures
        !comes_by(common, attach, place) || (place == 9 && event == LaunchEvent::StartPipe(None)),
{
}

proof fn lemma_stage(
    common: CommonCfg,
    attach: bool,
    open_files: OpenFilesSnapshot,
    stages: Seq<LaunchStage>,
    k: int,
)
    requires
        whole_launch(common, attach, open_files, stages),
        0 <= k < stages.len() - 1,
    ensures
        stages[k].leads_to(common, attach, stages[k + 1]),
        event_place(stages[k].event) < event_place(stages[k + 1].event),
{
    let stage = stages[k];
    assert(stage.leads_to(common, attach, stages[k + 1]));
    law_launch_moves_forward(stage.session, common, attach, stage.progress, stage.event);
}

proof fn lemma_places_grow(
    common: CommonCfg,
    attach: bool,
    open_files: OpenFilesSnapshot,
    stages: Seq<LaunchStage>,
    j: int,
    k: int,
)
    requires
        whole_launch(common, attach, open_files, stages),
        0 <= j < k < stages.len(),
    ensures
        event_place(stages[j].event) < event_place(stages[k].event),
    decreases k,
{
    lemma_stage(common, attach, open_files, stages, k - 1);
    if j < k - 1 {
        lemma_places_grow(common, attach, open_files, stages, j, k - 1);
    }
}

/// Every step that the configuration asks for was taken before any later one: a launch that
/// has come past a place has been there. (The place of the start message is reached only if
/// there is a start pipe.)
pub proof fn law_every_step_is_taken(
    common: CommonCfg,
    attach: bool,
    open_files: OpenFilesSnapshot,
    stages: Seq<LaunchStage>,
    k: int,
    place: nat,
)
    requires
        whole_launch(common, attach, open_files, stages),
        0 <= k < stages.len(),
        place < event_place(stages[k].event),
        comes_by(common, attach, place),
        place != 9,
    ensures
        exists|j: int| 0 <= j < k && event_place((#[trigger] stages[j]).event) == place,
    decreases k,
{
    if k > 0 {
        let before = stages[k - 1];
        lemma_stage(common, attach, open_files, stages, k - 1);
        law_whole_launch_is_prepared(common, attach, open_files, stages, k - 1);
        if event_place(before.event) > place {
            law_every_step_is_taken(common, attach, open_files, stages, k - 1, place);
        } else if event_place(before.event) < place {
            law_no_step_is_skipped(
                before.session,
                common,
                attach,
                before.progress,
                before.event,
                place,
            );
        }
    }
}

/// What an event has brought to the session stays there to the end of the launch.
pub proof fn law_what_was_recorded_stays(
    common: CommonCfg,
    attach: bool,
    open_files: OpenFilesSnapshot,
    stages: Seq<LaunchStage>,
    j: int,
    k: int,
)
    requires
        whole_launch(common, attach, open_files, stages),
        0 <= j < k < stages.len(),
    ensures
        ({
            let later = stages[k].session;
            match stages[j].event {
                LaunchEvent::SyncPipe(fd) => later.sync_pipe_fd == fd,
                LaunchEvent::AttachListening(socket) => later.attach_socket == Some(socket),
                LaunchEvent::CtlFifo(fifo) => later.ctl_fifo == Some(fifo),
                LaunchEvent::WinszFifo(fifo) => later.winsz_fifo == Some(fifo),
                LaunchEvent::ConsoleListening(socket) => later.console_socket == Some(socket),
                LaunchEvent::NotifyBound(socket) => {
                    &&& later.notify_socket is Some
                    &&& later.notify_socket->0.fresh(socket.socket_type, socket.fd->0)
                    &&& bytes_view(later.sdnotify_socket_path) == bytes_view(common.sdnotify_socket)
                },
                LaunchEvent::Now(now) => common.timeout matches Some(seconds) ==> later.timeout
                    == now + seconds,
                LaunchEvent::StdinPipe(ends) => later.workerfd_stdin == Some(ends.in_fd),
                LaunchEvent::StdoutPipe(ends) => later.mainfd_stdout == Some(ends.out_fd),
                LaunchEvent::StderrPipe(ends) => later.mainfd_stderr == Some(ends.out_fd),
                LaunchEvent::Spawned(pid) => later.process_pid == pid,
                LaunchEvent::SignalFd(fd) => later.signals == Some(fd),
                _ => true,
            }
        }),
    decreases k,
{
    let before = stages[k - 1];
    lemma_stage(common, attach, open_files, stages, k - 1);
    assert(before.in_range(common));
    law_what_session_records(before.session, common, before.event, stages[k].session);
    if j < k - 1 {
        law_what_was_recorded_stays(common, attach, open_files, stages, j, k - 1);
        lemma_places_grow(common, attach, open_files, stages, j, k - 1);
    }
}

proof fn lemma_what_was_gathered_stays(
    common: CommonCfg,
    attach: bool,
    open_files: OpenFilesSnapshot,
    stages: Seq<LaunchStage>,
    j: int,
    k: int,
)
    requires
        whole_launch(common, attach, open_files, stages),
        0 <= j < k < stages.len(),
    ensures
        ({
            let later = stages[k].progress;
            let place = event_place(stages[k].event);
            match stages[j].event {
                LaunchEvent::StartPipe(fd) => later.start_pipe_fd == (if place > 9 && !attach {
                    None
                } else {
                    fd
                }),
                LaunchEvent::Args(args) => place <= 17 ==> later.args == Some(args),
                LaunchEvent::StdinPipe(ends) => later.stdin == Some(ends.out_fd),
                LaunchEvent::StdoutPipe(ends) => later.stdout == Some(ends.in_fd),
                _ => true,
            }
        }),
    decreases k,
{
    let before = stages[k - 1];
    lemma_stage(common, attach, open_files, stages, k - 1);
    law_what_launch_gathers(attach, before.progress, before.event);
    law_whole_launch_is_prepared(common, attach, open_files, stages, k);
    if j < k - 1 {
        lemma_what_was_gathered_stays(common, attach, open_files, stages, j, k - 1);
        lemma_places_grow(common, attach, open_files, stages, j, k - 1);
    }
}

/// What the runtime is started with. In every launch of a new session that comes to start the
/// runtime, the parent was asked for the start pipe before; with `--attach` the runtime gets
/// that very pipe, if there is one, so that it waits until the parent has attached, and
/// without it the runtime gets none, whatever else is configured. It reads from and writes
/// to its ends of the pipes that were created for it, and has none where there is a
/// terminal. It is started with the command line that was generated.
pub proof fn law_what_runtime_is_started_with(
    common: CommonCfg,
    attach: bool,
    open_files: OpenFilesSnapshot,
    stages: Seq<LaunchStage>,
    j: int,
    k: int,
)
    requires
        whole_launch(common, attach, open_files, stages),
        0 <= j < k < stages.len(),
        stages[k].outcome(common, attach) is Ok,
        stages[k].outcome(common, attach)->Ok_0 is Spawn,
    ensures
        ({
            let request = stages[k].outcome(common, attach)->Ok_0->Spawn_0;
            &&& exists|i: int| 0 <= i < k && (#[trigger] stages[i]).event is StartPipe
            &&& exists|i: int| 0 <= i < k && (#[trigger] stages[i]).event is Args
            &&& match stages[j].event {
                LaunchEvent::StartPipe(fd) => request.start_pipe_fd == (if attach {
                    fd
                } else {
                    None
                }),
                LaunchEvent::Args(args) => request.args == args@,
                LaunchEvent::StdinPipe(ends) => request.stdin == Some(ends.out_fd),
                LaunchEvent::StdoutPipe(ends) => request.stdout == Some(ends.in_fd),
                _ => true,
            }
            &&& stages[k].event matches LaunchEvent::StderrPipe(ends) && request.stderr
                == ends.in_fd
            &&& request.stdin is Some <==> !common.terminal && common.stdin
            &&& request.stdout is Some <==> !common.terminal
            &&& !attach ==> request.start_pipe_fd is None
            &&& request.replace_listen_pid == common.replace_listen_pid
            &&& request.logging_passthrough == common.logging_passthrough
            &&& request.detach == !common.sync_flag
            &&& request.conmon_pidfile == bytes_view(common.conmon_pidfile)
        }),
{
    let stage = stages[k];
    law_what_steps_ask_for(stage.session, common, attach, stage.progress, stage.event);
    law_whole_launch_is_prepared(common, attach, open_files, stages, k);
    lemma_what_was_gathered_stays(common, attach, open_files, stages, j, k);
    law_every_step_is_taken(common, attach, open_files, stages, k, 8);
    law_every_step_is_taken(common, attach, open_files, stages, k, 14);
    let at_start = choose|i: int| 0 <= i < k && event_place((#[trigger] stages[i]).event) == 8;
    assert(stages[at_start].event is StartPipe);
    let at_args = choose|i: int| 0 <= i < k && event_place((#[trigger] stages[i]).event) == 14;
    assert(stages[at_args].event is Args);
}

/// A step of a launch is seen as what it names, and so is the request to start the runtime.
pub proof fn law_launch_views(step: LaunchStep, request: SpawnRequest)
    ensures
        request@.args == request.args@,
        request@.stdin == request.stdin,
        request@.stdout == request.stdout,
        request@.stderr == request.stderr,
        request@.start_pipe_fd == request.start_pipe_fd,
        request@.replace_listen_pid == request.replace_listen_pid,
        request@.logging_passthrough == request.logging_passthrough,
        request@.detach == request.detach,
        request@.conmon_pidfile == bytes_view(request.conmon_pidfile),
        match step {
            LaunchStep::GetPipe(pipe) => step@ == LaunchStepView::GetPipe(pipe),
            LaunchStep::BindAttach { socket, request } => step@ == (LaunchStepView::BindAttach {
                socket: socket@,
                request: request@,
            }),
            LaunchStep::ListenAttach(socket) => step@ == LaunchStepView::ListenAttach(socket@),
            LaunchStep::SetupCtlFifo => step@ == LaunchStepView::SetupCtlFifo,
            LaunchStep::SetupWinszFifo => step@ == LaunchStepView::SetupWinszFifo,
            LaunchStep::ReportAttached(report) => step@ == LaunchStepView::ReportAttached(report@),
            LaunchStep::AwaitStart { fd, limit } => step@ == (LaunchStepView::AwaitStart {
                fd,
                limit,
            }),
            LaunchStep::BindConsole { socket, request } => step@ == (LaunchStepView::BindConsole {
                socket: socket@,
                request: request@,
            }),
            LaunchStep::ListenConsole(socket) => step@ == LaunchStepView::ListenConsole(socket@),
            LaunchStep::BindNotify { socket, request } => step@ == (LaunchStepView::BindNotify {
                socket: socket@,
                request: request@,
            }),
            LaunchStep::AskTime => step@ == LaunchStepView::AskTime,
            LaunchStep::GenerateArgs { console } => step@ == (LaunchStepView::GenerateArgs {
                console: bytes_view(console),
            }),
            LaunchStep::CreateStdin => step@ == LaunchStepView::CreateStdin,
            LaunchStep::CreateStdout => step@ == LaunchStepView::CreateStdout,
            LaunchStep::CreateStderr => step@ == LaunchStepView::CreateStderr,
            LaunchStep::Spawn(spawn) => step@ == LaunchStepView::Spawn(spawn@),
            LaunchStep::CatchSignals(signals) => step@ == LaunchStepView::CatchSignals(signals@),
            LaunchStep::Done => step@ == LaunchStepView::Done,
        },
        LaunchProgress::fresh().attach_pipe_fd is None,
        LaunchProgress::fresh().start_pipe_fd is None,
        LaunchProgress::fresh().args is None,
        LaunchProgress::fresh().stdin is None,
        LaunchProgress::fresh().stdout is None,
{
}

} // verus!
