use conmon::config::CommonCfg;
use conmon::error::{ConmonError, ConmonResult};
use conmon::remote_socket::{RemoteSocket, SocketType};
use conmon::session::launch::{
    InheritedPipe, LaunchEvent, LaunchProgress, LaunchStep, PipeEnds, SpawnRequest,
};
use conmon::session::{OpenFilesSnapshot, RuntimeSession};
use conmon::unix_socket::SockType;

fn config() -> CommonCfg {
    CommonCfg {
        api_version: 3,
        logging_passthrough: false,
        full_attach: false,
        bundle: b"/bundle".to_vec(),
        socket_dir_path: b"/sockets".to_vec(),
        cuuid: Some("cid".to_owned()),
        terminal: false,
        stdin: true,
        sdnotify_socket: None,
        timeout: None,
        replace_listen_pid: true,
        sync_flag: false,
        conmon_pidfile: Some(b"/pid".to_vec()),
        container_pidfile: b"/ctr-pid".to_vec(),
        persist_dir: None,
    }
}

struct Launched {
    session: RuntimeSession,
    steps: Vec<String>,
    spawned: Option<SpawnRequest>,
}

/// Launches with descriptors 20, 21 and 22 for the sync, attach and start pipe.
fn launch(cfg: &CommonCfg, attach: bool, start_pipe: bool) -> ConmonResult<Launched> {
    let mut session = RuntimeSession::new(OpenFilesSnapshot {
        fds: vec![20, 19, 21, 22],
    });
    let mut progress = LaunchProgress::new();
    let mut event = LaunchEvent::Start;
    let mut steps = Vec::new();
    let mut spawned = None;
    loop {
        let step = session.launch(cfg, attach, &mut progress, event)?;
        let (name, next) = match step {
            LaunchStep::GetPipe(pipe) => {
                let event = match pipe {
                    InheritedPipe::Sync => LaunchEvent::SyncPipe(Some(20)),
                    InheritedPipe::Attach => LaunchEvent::AttachPipe(Some(21)),
                    InheritedPipe::Start => {
                        LaunchEvent::StartPipe(if start_pipe { Some(22) } else { None })
                    }
                };
                (pipe.variable().to_owned(), event)
            }
            LaunchStep::BindAttach {
                mut socket,
                request,
            } => {
                assert_eq!(socket.socket_type, SocketType::Console);
                assert_eq!(socket.use_full_attach_path, cfg.full_attach);
                assert_eq!(socket.bundle_path, b"/bundle");
                assert_eq!(socket.socket_path.as_deref(), Some(&b"/sockets"[..]));
                assert_eq!(socket.cuuid.as_deref(), Some("cid"));
                assert_eq!(request.path.as_deref(), Some(&b"attach"[..]));
                assert_eq!(request.sock_type, SockType::SeqPacket);
                assert!(request.nonblocking && request.close_on_exec);
                assert_eq!(request.perms, 0o700);
                socket.fd = Some(30);
                ("bind attach".to_owned(), LaunchEvent::AttachBound(socket))
            }
            LaunchStep::ListenAttach(socket) => {
                assert_eq!(socket.listen(), Some(30));
                (
                    "listen attach".to_owned(),
                    LaunchEvent::AttachListening(socket),
                )
            }
            LaunchStep::SetupCtlFifo => (
                "ctl".to_owned(),
                LaunchEvent::CtlFifo(RemoteSocket::new(SocketType::TerminalFifo, 31)),
            ),
            LaunchStep::SetupWinszFifo => (
                "winsz".to_owned(),
                LaunchEvent::WinszFifo(RemoteSocket::new(SocketType::ConsoleFifo, 32)),
            ),
            LaunchStep::ReportAttached(report) => {
                assert_eq!((report.fd, report.data), (21, 0));
                assert_eq!(report.message, None);
                assert_eq!(report.api_version, 3);
                assert!(report.as_exit_code);
                assert!(session.attach_socket.is_some());
                assert!(session.ctl_fifo.is_some());
                assert!(session.winsz_fifo.is_some());
                ("report".to_owned(), LaunchEvent::AttachReported)
            }
            LaunchStep::AwaitStart { fd, limit } => {
                assert_eq!((fd, limit), (22, 8192));
                ("await".to_owned(), LaunchEvent::StartMessage)
            }
            LaunchStep::BindConsole {
                mut socket,
                request,
            } => {
                assert_eq!(socket.socket_type, SocketType::Terminal);
                assert_eq!(socket.socket_path, None);
                assert_eq!(socket.cuuid, None);
                assert_eq!(request.path, None);
                assert_eq!(request.sock_type, SockType::Stream);
                assert!(!request.nonblocking && request.close_on_exec);
                assert_eq!(request.perms, 0o700);
                socket.fd = Some(33);
                socket.path = Some(b"/tmp/conmon-term.abcdef".to_vec());
                ("bind console".to_owned(), LaunchEvent::ConsoleBound(socket))
            }
            LaunchStep::ListenConsole(socket) => (
                "listen console".to_owned(),
                LaunchEvent::ConsoleListening(socket),
            ),
            LaunchStep::BindNotify {
                mut socket,
                request,
            } => {
                assert_eq!(socket.socket_type, SocketType::Notify);
                assert!(socket.use_full_attach_path);
                assert_eq!(request.path.as_deref(), Some(&b"notify/notify.sock"[..]));
                assert_eq!(request.sock_type, SockType::Datagram);
                assert!(request.nonblocking && request.close_on_exec);
                assert_eq!(request.perms, 0o777);
                socket.fd = Some(34);
                ("bind notify".to_owned(), LaunchEvent::NotifyBound(socket))
            }
            LaunchStep::AskTime => ("time".to_owned(), LaunchEvent::Now(1_000)),
            LaunchStep::GenerateArgs { console } => {
                let expected = if cfg.terminal {
                    Some(&b"/tmp/conmon-term.abcdef"[..])
                } else {
                    None
                };
                assert_eq!(console.as_deref(), expected);
                (
                    "args".to_owned(),
                    LaunchEvent::Args(vec!["runc".to_owned(), "create".to_owned()]),
                )
            }
            LaunchStep::CreateStdin => (
                "stdin".to_owned(),
                LaunchEvent::StdinPipe(PipeEnds {
                    out_fd: 40,
                    in_fd: 41,
                }),
            ),
            LaunchStep::CreateStdout => (
                "stdout".to_owned(),
                LaunchEvent::StdoutPipe(PipeEnds {
                    out_fd: 42,
                    in_fd: 43,
                }),
            ),
            LaunchStep::CreateStderr => (
                "stderr".to_owned(),
                LaunchEvent::StderrPipe(PipeEnds {
                    out_fd: 44,
                    in_fd: 45,
                }),
            ),
            LaunchStep::Spawn(request) => {
                spawned = Some(request);
                ("spawn".to_owned(), LaunchEvent::Spawned(777))
            }
            LaunchStep::CatchSignals(signals) => {
                assert_eq!(signals, [15, 3, 2]);
                ("signals".to_owned(), LaunchEvent::SignalFd(46))
            }
            LaunchStep::Done => {
                return Ok(Launched {
                    session,
                    steps,
                    spawned,
                })
            }
        };
        steps.push(name);
        event = next;
    }
}

#[test]
fn a_plain_launch_takes_its_steps_in_order() -> ConmonResult<()> {
    let done = launch(&config(), false, false)?;
    assert_eq!(
        done.steps,
        [
            "_OCI_SYNCPIPE",
            "bind attach",
            "listen attach",
            "ctl",
            "winsz",
            "_OCI_STARTPIPE",
            "args",
            "stdin",
            "stdout",
            "stderr",
            "spawn",
            "signals"
        ]
    );
    let sess = done.session;
    assert_eq!(sess.sync_pipe_fd, Some(20));
    assert_eq!(sess.open_files.fds, [19, 21, 22]);
    assert_eq!(sess.attach_socket.as_ref().and_then(|s| s.fd()), Some(30));
    assert_eq!(sess.workerfd_stdin, Some(41));
    assert_eq!(sess.mainfd_stdout, Some(42));
    assert_eq!(sess.mainfd_stderr, Some(44));
    assert_eq!(sess.process_pid, 777);
    assert_eq!(sess.signals, Some(46));
    assert_eq!(sess.timeout, 0);
    assert!(sess.console_socket.is_none());
    assert!(sess.notify_socket.is_none());

    let spawn = done.spawned.unwrap();
    assert_eq!(spawn.args, ["runc", "create"]);
    assert_eq!(spawn.stdin, Some(40));
    assert_eq!(spawn.stdout, Some(43));
    assert_eq!(spawn.stderr, 45);
    assert_eq!(spawn.start_pipe_fd, None);
    assert!(spawn.replace_listen_pid);
    assert!(!spawn.logging_passthrough);
    assert!(spawn.detach);
    assert_eq!(spawn.conmon_pidfile.as_deref(), Some(&b"/pid"[..]));
    Ok(())
}

#[test]
fn a_launch_with_everything_takes_every_step() -> ConmonResult<()> {
    let mut cfg = config();
    cfg.terminal = true;
    cfg.sdnotify_socket = Some(b"/run/notify".to_vec());
    cfg.timeout = Some(30);
    cfg.sync_flag = true;
    let done = launch(&cfg, true, true)?;
    assert_eq!(
        done.steps,
        [
            "_OCI_SYNCPIPE",
            "_OCI_ATTACHPIPE",
            "bind attach",
            "listen attach",
            "ctl",
            "winsz",
            "report",
            "_OCI_STARTPIPE",
            "await",
            "bind console",
            "listen console",
            "bind notify",
            "time",
            "args",
            "stderr",
            "spawn",
            "signals"
        ]
    );
    let sess = done.session;
    assert_eq!((sess.workerfd_stdin, sess.mainfd_stdout), (None, None));
    // None of the pipes is closed with the inherited descriptors.
    assert_eq!(sess.open_files.fds, [19]);
    assert_eq!(sess.timeout, 1_030);
    assert_eq!(sess.console_socket.as_ref().and_then(|s| s.fd()), Some(33));
    assert_eq!(sess.notify_socket.as_ref().map(|s| s.fd), Some(34));
    assert_eq!(sess.sdnotify_socket_path.as_deref(), Some(&b"/run/notify"[..]));
    let spawn = done.spawned.unwrap();
    assert_eq!((spawn.stdin, spawn.stdout), (None, None));
    // With attach the start pipe blocks the runtime a second time.
    assert_eq!(spawn.start_pipe_fd, Some(22));
    assert!(!spawn.detach);
    Ok(())
}

#[test]
fn a_terminal_alone_is_named_to_the_runtime() -> ConmonResult<()> {
    let mut cfg = config();
    cfg.terminal = true;
    let done = launch(&cfg, false, true)?;
    assert!(!done.steps.contains(&"time".to_owned()));
    assert!(!done.steps.contains(&"stdin".to_owned()));
    // The start pipe is not used any more, and still is not closed with the others.
    assert_eq!(done.session.open_files.fds, [19, 21]);
    Ok(())
}

#[test]
fn the_start_pipe_stays_here_without_attach() -> ConmonResult<()> {
    let done = launch(&config(), false, true)?;
    assert!(done.steps.contains(&"await".to_owned()));
    assert_eq!(done.spawned.unwrap().start_pipe_fd, None);
    Ok(())
}

#[test]
fn passthrough_logging_needs_no_sockets() -> ConmonResult<()> {
    let mut cfg = config();
    cfg.logging_passthrough = true;
    cfg.stdin = false;
    let done = launch(&cfg, true, false)?;
    assert_eq!(
        done.steps,
        [
            "_OCI_SYNCPIPE",
            "_OCI_ATTACHPIPE",
            "_OCI_STARTPIPE",
            "args",
            "stdout",
            "stderr",
            "spawn",
            "signals"
        ]
    );
    assert!(done.session.attach_socket.is_none());
    assert!(done.session.ctl_fifo.is_none());
    assert!(done.session.winsz_fifo.is_none());
    assert_eq!(done.session.workerfd_stdin, None);
    let spawn = done.spawned.unwrap();
    assert_eq!((spawn.stdin, spawn.stdout), (None, Some(43)));
    assert!(spawn.logging_passthrough);
    Ok(())
}

#[test]
fn attach_without_its_pipe_is_an_error() {
    let mut session = RuntimeSession::new(OpenFilesSnapshot { fds: vec![3] });
    let mut progress = LaunchProgress::new();
    let result = session.launch(
        &config(),
        true,
        &mut progress,
        LaunchEvent::AttachPipe(None),
    );
    assert!(matches!(
        result,
        Err(e) if e.message() == "--attach specified but _OCI_ATTACHPIPE was not set"
            && e.exit_code() == 1
    ));
    assert_eq!(session.open_files.fds, [3]);
}

#[test]
fn a_launch_hands_failures_on() {
    let mut session = RuntimeSession::new(OpenFilesSnapshot { fds: Vec::new() });
    let mut progress = LaunchProgress::new();
    let failed = LaunchEvent::Failed(ConmonError::new("no such runtime".to_owned(), 4));
    assert!(matches!(
        session.launch(&config(), false, &mut progress, failed),
        Err(e) if e.message() == "no such runtime" && e.exit_code() == 4
    ));
}

#[test]
fn a_launch_goes_on_without_a_sync_pipe() -> ConmonResult<()> {
    let mut session = RuntimeSession::new(OpenFilesSnapshot { fds: vec![3] });
    let mut progress = LaunchProgress::new();
    let step = session.launch(
        &config(),
        true,
        &mut progress,
        LaunchEvent::SyncPipe(None),
    )?;
    assert!(matches!(step, LaunchStep::GetPipe(InheritedPipe::Attach)));
    assert_eq!(session.sync_pipe_fd, None);
    assert_eq!(session.open_files.fds, [3]);
    Ok(())
}
