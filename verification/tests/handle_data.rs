use conmon::error::{ConmonError, ConmonResult};
use conmon::os::{ErrorKind, OsFailure};
use conmon::remote_socket::{ReadCall, RemoteSocket, SocketType, SOCKET_BUFFER_SIZE};
use conmon::socket::{Action, DataEvent, DataStep, Socket};
use conmon::unix_socket::UnixSocket;

fn remote(socket_type: SocketType, fd: i32) -> Socket {
    Socket::Remote(RemoteSocket::new(socket_type, fd))
}

fn buffered(sockets: &[Socket], i: usize) -> Vec<u8> {
    match &sockets[i] {
        Socket::Remote(r) => r.buf.data().to_vec(),
        _ => panic!("no remote socket"),
    }
}

fn failure(kind: ErrorKind) -> OsFailure {
    OsFailure {
        kind,
        reason: "EIO: I/O error".to_owned(),
        subject: "Some(\"/b/attach\")".to_owned(),
    }
}

fn handle(sockets: &mut [Socket], i: usize, event: DataEvent) -> ConmonResult<DataStep> {
    let mut new_sockets = Vec::new();
    let notify = Some(b"/run/notify".to_vec());
    let step = Socket::handle_data(sockets, i, &mut new_sockets, Some(40), &notify, event);
    assert!(new_sockets.is_empty());
    step
}

/// Lets data arrive on a socket.
fn arrive(sockets: &mut [Socket], i: usize, data: &[u8]) -> ConmonResult<DataStep> {
    match handle(sockets, i, DataEvent::Start)? {
        DataStep::Read(_) => {}
        other => panic!("unexpected step: {other:?}"),
    }
    match &mut sockets[i] {
        Socket::Remote(r) => r.buf.spare_slice_mut()[..data.len()].copy_from_slice(data),
        _ => panic!("no remote socket"),
    }
    handle(sockets, i, DataEvent::Received(data.len()))
}

fn actions(step: DataStep) -> Vec<Action> {
    match step {
        DataStep::Perform(actions) => actions,
        other => panic!("unexpected step: {other:?}"),
    }
}

fn shown(actions: &[Action]) -> Vec<String> {
    actions
        .iter()
        .map(|action| match action {
            Action::Log { stdout, data } => {
                format!("log {stdout} {}", String::from_utf8_lossy(data))
            }
            Action::Packet { fd, prefix, chunk } => {
                format!("packet {fd} {prefix} {}", String::from_utf8_lossy(chunk))
            }
            Action::Write { fd, data } => format!("write {fd} {}", String::from_utf8_lossy(data)),
            Action::Notify { path, payload } => format!(
                "notify {} {}",
                String::from_utf8_lossy(path),
                String::from_utf8_lossy(payload)
            ),
            Action::TerminalLine { fd, line } => format!("ctl {fd} {line}"),
            Action::WindowLine { fd, line } => format!("winsz {fd} {line}"),
            Action::Warn(message) => format!("warn {message}"),
            Action::Error(message) => format!("error {message}"),
        })
        .collect()
}

#[test]
fn output_is_logged_and_sent_to_everyone_attached() -> ConmonResult<()> {
    let mut sockets = vec![
        remote(SocketType::Console, 10),
        remote(SocketType::Stdout, 11),
        remote(SocketType::Terminal, 12),
        remote(SocketType::Console, 13),
        Socket::Signal(14),
    ];
    let done = actions(arrive(&mut sockets, 1, b"hello")?);
    assert_eq!(
        shown(&done),
        ["log true hello", "packet 10 2 hello", "packet 13 2 hello"]
    );
    assert_eq!(buffered(&sockets, 1), b"hello");
    assert!(matches!(
        handle(&mut sockets, 1, DataEvent::Completed)?,
        DataStep::Done(true)
    ));
    assert!(buffered(&sockets, 1).is_empty());
    Ok(())
}

#[test]
fn error_output_is_marked() -> ConmonResult<()> {
    let mut sockets = vec![
        remote(SocketType::Stderr, 11),
        remote(SocketType::Console, 10),
    ];
    let done = actions(arrive(&mut sockets, 0, b"oops")?);
    assert_eq!(shown(&done), ["log false oops", "packet 10 3 oops"]);
    Ok(())
}

#[test]
fn terminal_output_counts_as_stdout() -> ConmonResult<()> {
    let mut sockets = vec![remote(SocketType::Terminal, 11)];
    let done = actions(arrive(&mut sockets, 0, b"x")?);
    assert_eq!(shown(&done), ["log true x"]);
    Ok(())
}

#[test]
fn output_goes_out_in_chunks_that_fit_the_client() -> ConmonResult<()> {
    let mut sockets = vec![
        remote(SocketType::Stdout, 11),
        remote(SocketType::Console, 20),
        remote(SocketType::Console, 21),
    ];
    let data: Vec<u8> = (0..20000u32).map(|k| (k % 251) as u8).collect();
    let done = actions(arrive(&mut sockets, 0, &data)?);
    let mut sizes = Vec::new();
    let mut received: Vec<(i32, Vec<u8>)> = vec![(20, Vec::new()), (21, Vec::new())];
    for action in &done[1..] {
        match action {
            Action::Packet { fd, prefix, chunk } => {
                assert_eq!(*prefix, 2);
                sizes.push((*fd, chunk.len()));
                for (to, bytes) in received.iter_mut() {
                    if to == fd {
                        bytes.extend_from_slice(chunk);
                    }
                }
            }
            other => panic!("unexpected action: {other:?}"),
        }
    }
    assert_eq!(
        sizes,
        [
            (20, 8192),
            (21, 8192),
            (20, 8192),
            (21, 8192),
            (20, 3616),
            (21, 3616)
        ]
    );
    for (_, bytes) in received {
        assert_eq!(bytes, data);
    }
    Ok(())
}

#[test]
fn a_failed_packet_ends_the_matter_and_keeps_the_data() -> ConmonResult<()> {
    let mut sockets = vec![
        remote(SocketType::Stdout, 11),
        remote(SocketType::Console, 20),
    ];
    arrive(&mut sockets, 0, b"data")?;
    let err = handle(
        &mut sockets,
        0,
        DataEvent::Failed(ConmonError::new("EPIPE".to_owned(), 1)),
    )
    .unwrap_err();
    assert_eq!(err.message(), "EPIPE");
    assert_eq!(buffered(&sockets, 0), b"data");
    Ok(())
}

#[test]
fn input_goes_to_stdin_and_to_open_terminals() -> ConmonResult<()> {
    let mut sockets = vec![
        remote(SocketType::Terminal, 30),
        remote(SocketType::Console, 31),
        remote(SocketType::Terminal, 32),
        remote(SocketType::Console, 33),
    ];
    if let Socket::Remote(r) = &mut sockets[2] {
        r.read_closed = true;
    }
    let done = actions(arrive(&mut sockets, 1, b"ls\n")?);
    assert_eq!(shown(&done), ["write 40 ls\n", "write 30 ls\n"]);
    assert!(matches!(
        handle(&mut sockets, 1, DataEvent::Completed)?,
        DataStep::Done(true)
    ));
    assert!(buffered(&sockets, 1).is_empty());

    let mut new_sockets = Vec::new();
    if let Socket::Remote(r) = &mut sockets[1] {
        r.buf.spare_slice_mut()[0] = b'q';
    }
    let step = Socket::handle_data(
        &mut sockets,
        1,
        &mut new_sockets,
        None,
        &None,
        DataEvent::Received(1),
    )?;
    assert_eq!(shown(&actions(step)), ["write 30 q"]);
    Ok(())
}

#[test]
fn notify_datagrams_are_filtered() -> ConmonResult<()> {
    let mut sockets = vec![remote(SocketType::Notify, 50)];
    let done = actions(arrive(&mut sockets, 0, b"READY=1\nBARRIER=1\n")?);
    assert_eq!(shown(&done), ["notify /run/notify READY=1\n"]);
    handle(&mut sockets, 0, DataEvent::Completed)?;
    let done = actions(arrive(&mut sockets, 0, b"BARRIER=1\n")?);
    assert!(done.is_empty());
    handle(&mut sockets, 0, DataEvent::Completed)?;

    // Nothing is relayed without a notify socket of the host.
    let mut new_sockets = Vec::new();
    if let Socket::Remote(r) = &mut sockets[0] {
        r.buf.spare_slice_mut()[..7].copy_from_slice(b"READY=1");
    }
    let step = Socket::handle_data(
        &mut sockets,
        0,
        &mut new_sockets,
        None,
        &None,
        DataEvent::Received(7),
    )?;
    assert!(actions(step).is_empty());
    Ok(())
}

#[test]
fn control_lines_go_to_the_terminal_if_there_is_one() -> ConmonResult<()> {
    let mut sockets = vec![
        remote(SocketType::Stdout, 60),
        remote(SocketType::TerminalFifo, 61),
        remote(SocketType::Terminal, 62),
        remote(SocketType::Terminal, 63),
    ];
    let done = actions(arrive(&mut sockets, 1, b"1 80 24\n2 0 0\n1 9")?);
    assert_eq!(shown(&done), ["ctl 62 1 80 24\n", "ctl 62 2 0 0\n"]);
    assert_eq!(buffered(&sockets, 1), b"1 9");
    assert!(matches!(
        handle(&mut sockets, 1, DataEvent::Completed)?,
        DataStep::Done(true)
    ));
    // An incomplete line waits for its end.
    let done = actions(arrive(&mut sockets, 1, b"0 7\n")?);
    assert_eq!(shown(&done), ["ctl 62 1 90 7\n"]);
    assert!(buffered(&sockets, 1).is_empty());
    Ok(())
}

#[test]
fn window_lines_go_to_stdout_without_a_terminal() -> ConmonResult<()> {
    let mut sockets = vec![
        remote(SocketType::ConsoleFifo, 61),
        remote(SocketType::Stdout, 60),
    ];
    let done = actions(arrive(&mut sockets, 0, b"80 24\n")?);
    assert_eq!(shown(&done), ["winsz 60 80 24\n"]);
    Ok(())
}

#[test]
fn control_lines_without_a_target_are_dropped() -> ConmonResult<()> {
    let mut sockets = vec![remote(SocketType::TerminalFifo, 61)];
    let done = actions(arrive(&mut sockets, 0, b"1 80 24\nrest")?);
    assert!(done.is_empty());
    assert_eq!(buffered(&sockets, 0), b"rest");
    Ok(())
}

#[test]
fn one_bad_line_does_not_stop_the_others() -> ConmonResult<()> {
    let mut sockets = vec![
        remote(SocketType::TerminalFifo, 61),
        remote(SocketType::Terminal, 62),
    ];
    let done = actions(arrive(&mut sockets, 0, b"ok\n\xff\nlater\n")?);
    assert_eq!(shown(&done), ["ctl 62 ok\n", BAD_LINE, "ctl 62 later\n"]);
    assert!(buffered(&sockets, 0).is_empty());

    // A bad line is warned of even where there is nothing to resize.
    let mut sockets = vec![remote(SocketType::ConsoleFifo, 61)];
    let done = actions(arrive(&mut sockets, 0, b"ok\n\xff\n")?);
    assert_eq!(shown(&done), [BAD_LINE]);
    Ok(())
}

const BAD_LINE: &str = "warn failed to decode control line: control line is not valid UTF-8: \
    invalid utf-8 sequence of 1 bytes from index 0";

#[test]
fn lines_can_arrive_in_any_pieces() -> ConmonResult<()> {
    let data = b"1 80 24\n\xff\n2 0 0\nx";
    for cut in 1..data.len() {
        let mut sockets = vec![
            remote(SocketType::TerminalFifo, 61),
            remote(SocketType::Terminal, 62),
        ];
        let mut done = shown(&actions(arrive(&mut sockets, 0, &data[..cut])?));
        done.extend(shown(&actions(arrive(&mut sockets, 0, &data[cut..])?)));
        assert_eq!(
            done,
            ["ctl 62 1 80 24\n", BAD_LINE, "ctl 62 2 0 0\n"],
            "{cut}"
        );
        assert_eq!(buffered(&sockets, 0), b"x");
    }
    Ok(())
}

#[test]
fn a_handler_gets_the_data_and_decides() -> ConmonResult<()> {
    let mut sockets = vec![remote(SocketType::Inotify, 70)];
    if let Socket::Remote(r) = &mut sockets[0] {
        r.set_handler();
    }
    assert!(matches!(
        arrive(&mut sockets, 0, b"event")?,
        DataStep::CallHandler
    ));
    assert_eq!(buffered(&sockets, 0), b"event");
    assert!(matches!(
        handle(&mut sockets, 0, DataEvent::HandlerReturned(false))?,
        DataStep::Done(false)
    ));
    assert!(matches!(
        handle(&mut sockets, 0, DataEvent::HandlerReturned(true))?,
        DataStep::Done(true)
    ));
    Ok(())
}

#[test]
fn sockets_without_a_purpose_are_kept() -> ConmonResult<()> {
    for socket_type in [
        SocketType::Inotify,
        SocketType::SignalFd,
        SocketType::Attach,
    ] {
        let mut sockets = vec![remote(socket_type, 70)];
        assert!(matches!(
            arrive(&mut sockets, 0, b"abc")?,
            DataStep::Done(true)
        ));
        assert_eq!(buffered(&sockets, 0), b"abc");
    }
    let mut sockets = vec![Socket::Signal(71)];
    assert!(matches!(
        handle(&mut sockets, 0, DataEvent::Start)?,
        DataStep::Done(true)
    ));
    Ok(())
}

#[test]
fn the_end_of_a_stream_drops_the_socket() -> ConmonResult<()> {
    let mut sockets = vec![remote(SocketType::Stdout, 11)];
    assert!(matches!(
        handle(&mut sockets, 0, DataEvent::Received(0))?,
        DataStep::Done(false)
    ));
    Ok(())
}

#[test]
fn a_read_that_fails_clears_the_buffer() -> ConmonResult<()> {
    let mut sockets = vec![remote(SocketType::TerminalFifo, 61)];
    arrive(&mut sockets, 0, b"half")?;
    assert!(matches!(
        handle(
            &mut sockets,
            0,
            DataEvent::ReadFailed(failure(ErrorKind::WouldBlock))
        )?,
        DataStep::Read(ReadCall::Read)
    ));
    assert_eq!(buffered(&sockets, 0), b"half");
    let step = handle(
        &mut sockets,
        0,
        DataEvent::ReadFailed(failure(ErrorKind::Other)),
    )?;
    assert_eq!(
        shown(&actions(step)),
        ["error read error: read failed: EIO: I/O error"]
    );
    assert!(buffered(&sockets, 0).is_empty());
    assert!(matches!(
        handle(&mut sockets, 0, DataEvent::Completed)?,
        DataStep::Done(true)
    ));
    Ok(())
}

#[test]
fn a_line_that_fills_the_buffer_is_dropped() -> ConmonResult<()> {
    let mut sockets = vec![remote(SocketType::TerminalFifo, 61)];
    let long = vec![b'x'; SOCKET_BUFFER_SIZE];
    arrive(&mut sockets, 0, &long)?;
    assert_eq!(buffered(&sockets, 0).len(), 32768);
    let step = handle(&mut sockets, 0, DataEvent::Start)?;
    assert_eq!(
        shown(&actions(step)),
        ["error read error: line too long for buffer"]
    );
    assert!(buffered(&sockets, 0).is_empty());
    assert!(matches!(
        handle(&mut sockets, 0, DataEvent::Completed)?,
        DataStep::Done(true)
    ));
    Ok(())
}

fn layout(sockets: &[Socket], i: usize) -> (usize, usize) {
    match &sockets[i] {
        Socket::Remote(r) => (r.buf.start(), r.buf.end()),
        _ => panic!("no remote socket"),
    }
}

#[test]
fn buffered_bytes_are_not_moved_without_need() -> ConmonResult<()> {
    let mut sockets = vec![
        remote(SocketType::TerminalFifo, 61),
        remote(SocketType::Terminal, 62),
    ];
    arrive(&mut sockets, 0, b"ab\ncd\nef")?;
    assert_eq!(layout(&sockets, 0), (6, 8));
    handle(&mut sockets, 0, DataEvent::Completed)?;
    assert_eq!(layout(&sockets, 0), (6, 8));
    handle(&mut sockets, 0, DataEvent::Start)?;
    assert_eq!(layout(&sockets, 0), (6, 8));
    handle(&mut sockets, 0, DataEvent::HandlerReturned(true))?;
    assert_eq!(layout(&sockets, 0), (6, 8));
    // A buffer that is drained starts again at the front.
    arrive(&mut sockets, 0, b"gh\n")?;
    assert_eq!(layout(&sockets, 0), (0, 0));

    arrive(&mut sockets, 1, b"output")?;
    assert_eq!(layout(&sockets, 1), (0, 6));
    handle(&mut sockets, 1, DataEvent::Completed)?;
    assert_eq!(layout(&sockets, 1), (0, 0));
    Ok(())
}

#[test]
fn there_is_room_for_every_read() -> ConmonResult<()> {
    let mut sockets = vec![
        remote(SocketType::TerminalFifo, 61),
        remote(SocketType::Terminal, 62),
    ];
    // A line is consumed at the front, and the tail of the buffer is used up.
    let mut data = vec![b'x'; SOCKET_BUFFER_SIZE];
    data[9] = b'\n';
    assert_eq!(actions(arrive(&mut sockets, 0, &data)?).len(), 1);
    assert_eq!(buffered(&sockets, 0).len(), SOCKET_BUFFER_SIZE - 10);
    assert!(matches!(
        handle(&mut sockets, 0, DataEvent::Start)?,
        DataStep::Read(ReadCall::Read)
    ));
    for _ in 0..2 {
        match &mut sockets[0] {
            Socket::Remote(r) => assert_eq!(r.buf.spare_slice_mut().len(), 10),
            _ => panic!("no remote socket"),
        }
        // A call that would block is made again, with the same room.
        assert!(matches!(
            handle(
                &mut sockets,
                0,
                DataEvent::ReadFailed(failure(ErrorKind::WouldBlock))
            )?,
            DataStep::Read(ReadCall::Read)
        ));
    }
    Ok(())
}

#[test]
fn a_listener_brings_new_sockets() -> ConmonResult<()> {
    let mut listener = UnixSocket::new(SocketType::Console, true, b"/b".to_vec(), None, None);
    listener.fd = Some(80);
    let mut sockets = vec![Socket::Unix(listener)];
    assert!(matches!(
        handle(&mut sockets, 0, DataEvent::Start)?,
        DataStep::Accept(80)
    ));
    assert!(matches!(
        handle(
            &mut sockets,
            0,
            DataEvent::AcceptFailed(failure(ErrorKind::Interrupted))
        )?,
        DataStep::Accept(80)
    ));
    assert!(matches!(
        handle(
            &mut sockets,
            0,
            DataEvent::AcceptFailed(failure(ErrorKind::WouldBlock))
        )?,
        DataStep::Done(true)
    ));
    let err = handle(
        &mut sockets,
        0,
        DataEvent::AcceptFailed(failure(ErrorKind::Other)),
    )
    .unwrap_err();
    assert_eq!(
        err.message(),
        "Failed to accept client connection on Some(\"/b/attach\"): EIO: I/O error"
    );
    let mut new_sockets = Vec::new();
    let step = Socket::handle_data(
        &mut sockets,
        0,
        &mut new_sockets,
        None,
        &None,
        DataEvent::Accepted(81),
    )?;
    assert!(matches!(step, DataStep::Done(true)));
    assert_eq!(new_sockets.len(), 1);
    assert_eq!(new_sockets[0].fd, 81);
    assert_eq!(new_sockets[0].socket_type, SocketType::Console);
    Ok(())
}
