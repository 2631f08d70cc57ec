//! The session of a runtime: what is known of it, and what is done in its course.
use vstd::prelude::*;

use crate::remote_socket::RemoteSocket;
use crate::unix_socket::UnixSocket;

pub mod children;
pub mod exit;
pub mod idle;
pub mod launch;
pub mod start;

verus! {

/// The descriptors that were open before the monitor opened its own.
#[derive(Debug)]
pub struct OpenFilesSnapshot {
    pub fds: Vec<i32>,
}

/// `fds` without `fd`.
pub open spec fn without_fd(fds: Seq<i32>, fd: i32) -> Seq<i32>
    decreases fds.len(),
{
    if fds.len() == 0 {
        Seq::empty()
    } else if fds.last() == fd {
        without_fd(fds.drop_last(), fd)
    } else {
        without_fd(fds.drop_last(), fd).push(fds.last())
    }
}

/// What is left holds the descriptor no more, and all others as before.
pub proof fn law_without_fd(fds: Seq<i32>, fd: i32)
    ensures
        forall|other: i32| #[trigger]
            without_fd(fds, fd).contains(other) <==> fds.contains(other) && other != fd,
    decreases fds.len(),
{
    if fds.len() > 0 {
        let rest = fds.drop_last();
        law_without_fd(rest, fd);
        assert(fds =~= rest.push(fds.last()));
        assert forall|other: i32| #[trigger]
            without_fd(fds, fd).contains(other) <==> fds.contains(other) && other != fd by {
            assert(fds.contains(other) <==> rest.contains(other) || other == fds.last()) by {
                lemma_push_contains(rest, fds.last(), other);
            }
            lemma_push_contains(without_fd(rest, fd), fds.last(), other);
        }
    }
}

/// What is left are the descriptors other than the one taken out, each as often as before and
/// in the same order.
pub proof fn law_without_fd_keeps_order(fds: Seq<i32>, fd: i32)
    ensures
        without_fd(fds, fd) == fds.filter(|other: i32| other != fd),
    decreases fds.len(),
{
    let keep = |other: i32| other != fd;
    reveal(Seq::filter);
    if fds.len() > 0 {
        law_without_fd_keeps_order(fds.drop_last(), fd);
    }
    assert(without_fd(fds, fd) =~= fds.filter(keep));
}

proof fn lemma_push_contains(s: Seq<i32>, last: i32, x: i32)
    ensures
        s.push(last).contains(x) <==> s.contains(x) || x == last,
{
    if s.contains(x) {
        let k = choose|k: int| 0 <= k < s.len() && s[k] == x;
        assert(s.push(last)[k] == x);
    }
    if x == last {
        assert(s.push(last)[s.len() as int] == x);
    }
    if s.push(last).contains(x) && x != last {
        let k = choose|k: int| 0 <= k < s.push(last).len() && s.push(last)[k] == x;
        assert(s[k] == x);
    }
}

impl OpenFilesSnapshot {
    /// Takes a descriptor out of the snapshot, so that it is not closed with the others.
    pub fn remove(&mut self, fd: i32)
        ensures
            final(self).fds@ == without_fd(old(self).fds@, fd),
    {
        let mut kept: Vec<i32> = Vec::new();
        let mut n: usize = 0;
        while n < self.fds.len()
            invariant
                n <= self.fds@.len(),
                kept@ == without_fd(self.fds@.take(n as int), fd),
            decreases self.fds@.len() - n,
        {
            proof {
                assert(self.fds@.take(n + 1).drop_last() =~= self.fds@.take(n as int));
            }
            let other: i32 = self.fds[n];
            if other != fd {
                kept.push(other);
            }
            n = n + 1;
        }
        assert(self.fds@.take(n as int) =~= self.fds@);
        self.fds = kept;
    }
}

impl Default for OpenFilesSnapshot {
    fn default() -> (snapshot: Self)
        ensures
            snapshot.fds@ == Seq::<i32>::empty(),
    {
        OpenFilesSnapshot { fds: Vec::new() }
    }
}

/// Represents Runtime session.
///
/// Knows the descriptors of the runtime's stdio, its pid and exit code, and those of the
/// container, as well as the sockets that the event loop reads.
pub struct RuntimeSession {
    /// The pid of the low-level runtime process.
    pub process_pid: i32,
    /// File descriptor for synchronization pipe.
    /// The process executing `conmon` uses this pipe to receive the container PID
    /// or error message in case the runtime cannot be executed.
    pub sync_pipe_fd: Option<i32>,
    /// Represents container's stdin.
    /// Any data written here are sent to container's input.
    pub workerfd_stdin: Option<i32>,
    /// Represents container's stdout.
    /// Any data read from here should be treated as container's standard output.
    pub mainfd_stdout: Option<i32>,
    /// Represents container's stderr.
    /// Any data read from here should be treated as container's standard error.
    pub mainfd_stderr: Option<i32>,
    /// Exit code of the runtime process, or `None` until it is known.
    pub exit_code: Option<i32>,
    /// UnixSocket for `attach`.
    /// The process executing conmon uses it to attach to container. It opens new
    /// connection to socket and any data read from it are forwarded to
    /// container's stdin (`workerfd_stdin`). Any data read from `mainfd_stdout`
    /// and `mainfd_stderr` are forwarded to that `attach` connection, so
    /// the process executing conmon can handle them.
    pub attach_socket: Option<UnixSocket>,
    /// UnixSocket for runtime `--console-socket`. The runtime connects to it
    /// and sends a `terminal_socket` of terminal to that connection. This is used if
    /// `--terminal` is used.
    pub console_socket: Option<UnixSocket>,
    /// Terminal created by runtime and received using `console_socket`. Anything written
    /// to this socket is forwarded to container's stdin. Anything read from it is treated
    /// as container's stdout.
    pub terminal_socket: Option<RemoteSocket>,
    /// Fifo for `ctl` file used by parent to control conmon session.
    pub ctl_fifo: Option<RemoteSocket>,
    /// Fifo for `winsz` file used by parent to control terminal window size.
    pub winsz_fifo: Option<RemoteSocket>,
    /// True if container started.
    pub container_started: bool,
    /// The PID of container created by the runtime, or `None` until known / after reap.
    pub container_pid: Option<i32>,
    /// The exit status of container, or `None` until known.
    pub container_status: Option<i32>,
    /// Time (unix timestamp) after which the session should terminate.
    pub timeout: u64,
    /// True if timeout occured.
    pub timed_out: bool,
    /// RemoteSocket for OOM handling.
    pub oom_socket: Option<RemoteSocket>,
    /// RemoteSocket for systemd notify.socket.
    pub notify_socket: Option<RemoteSocket>,
    /// Host counter-part of `notify_socket`.
    pub sdnotify_socket_path: Option<Vec<u8>>,
    /// The signal-fd to handle incoming UNIX signals.
    pub signals: Option<i32>,
    /// Open file descriptor snapshot.
    pub open_files: OpenFilesSnapshot,
}

/// So many bytes at most are read from a pipe at once.
pub const PIPE_READ_SIZE: usize = 8192;

/// The pid of a process that was not started.
pub const NO_PROCESS: i32 = -1;

impl Default for RuntimeSession {
    fn default() -> (session: Self)
        ensures
            session == RuntimeSession::fresh(session.open_files),
            session.open_files.fds@ == Seq::<i32>::empty(),
    {
        RuntimeSession::new(OpenFilesSnapshot::default())
    }
}

impl RuntimeSession {
    /// A session in which nothing has happened.
    pub open spec fn fresh(open_files: OpenFilesSnapshot) -> RuntimeSession {
        RuntimeSession {
            process_pid: NO_PROCESS,
            sync_pipe_fd: None,
            workerfd_stdin: None,
            mainfd_stdout: None,
            mainfd_stderr: None,
            exit_code: None,
            attach_socket: None,
            console_socket: None,
            terminal_socket: None,
            ctl_fifo: None,
            winsz_fifo: None,
            container_started: false,
            container_pid: None,
            container_status: None,
            timeout: 0,
            timed_out: false,
            oom_socket: None,
            notify_socket: None,
            sdnotify_socket_path: None,
            signals: None,
            open_files,
        }
    }

    /// A session in which nothing has happened.
    pub fn new(open_files: OpenFilesSnapshot) -> (session: Self)
        ensures
            session == RuntimeSession::fresh(open_files),
    {
        RuntimeSession {
            process_pid: NO_PROCESS,
            sync_pipe_fd: None,
            workerfd_stdin: None,
            mainfd_stdout: None,
            mainfd_stderr: None,
            exit_code: None,
            attach_socket: None,
            console_socket: None,
            terminal_socket: None,
            ctl_fifo: None,
            winsz_fifo: None,
            container_started: false,
            container_pid: None,
            container_status: None,
            timeout: 0,
            timed_out: false,
            oom_socket: None,
            notify_socket: None,
            sdnotify_socket_path: None,
            signals: None,
            open_files,
        }
    }

    /// Returns the exit code of the "runtime" process.
    ///
    /// # Returns
    ///
    /// * `Some(code)` once the runtime has exited, or `None` if still unknown.
    pub fn exit_code(&self) -> (code: Option<i32>)
        ensures
            code == self.exit_code,
    {
        self.exit_code
    }

    /// Returns the container's exit code.
    ///
    /// Timeout is reported as `Some(-1)`. An unset status is `None` rather than a
    /// sentinel `-1`.
    ///
    /// # Returns
    ///
    /// * `Some(code)` when the container exit status is known (or timed out)
    /// * `None` when the status is still unknown
    pub fn container_exit_code(&self) -> (code: Option<i32>)
        ensures
            code == (if self.timed_out {
                Some(-1i32)
            } else {
                self.container_status
            }),
    {
        if self.timed_out {
            Some(-1)
        } else {
            self.container_status
        }
    }
}

/// A session in which nothing has happened has nothing open, knows nothing of the runtime or
/// of the container, and has no timeout; it holds the descriptors that were open before.
pub proof fn law_fresh_session(open_files: OpenFilesSnapshot)
    ensures
        ({
            let session = RuntimeSession::fresh(open_files);
            &&& session.process_pid == -1
            &&& session.sync_pipe_fd is None
            &&& session.workerfd_stdin is None
            &&& session.mainfd_stdout is None
            &&& session.mainfd_stderr is None
            &&& session.exit_code is None
            &&& session.attach_socket is None
            &&& session.console_socket is None
            &&& session.terminal_socket is None
            &&& session.ctl_fifo is None
            &&& session.winsz_fifo is None
            &&& !session.container_started
            &&& session.container_pid is None
            &&& session.container_status is None
            &&& session.timeout == 0
            &&& !session.timed_out
            &&& session.oom_socket is None
            &&& session.notify_socket is None
            &&& session.sdnotify_socket_path is None
            &&& session.signals is None
            &&& session.open_files == open_files
        }),
{
}

} // verus!
