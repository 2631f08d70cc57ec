use conmon::error::ConmonResult;
use conmon::os::{ErrorKind, OsFailure};
use conmon::remote_socket::{
    ReadCall, ReadEvent, ReadStep, RemoteSocket, SocketType, SOCKET_BUFFER_SIZE,
};
use conmon::unix_socket::UnixSocket;

fn socket_with_buffered_data(data: &[u8], socket_type: SocketType) -> RemoteSocket {
    let mut socket = RemoteSocket::new(socket_type, 7);
    assert!(
        data.len() <= socket.buf.capacity(),
        "test data exceeds RemoteSocket buffer capacity"
    );
    let len = data.len();
    socket.buf.spare_slice_mut()[..len].copy_from_slice(data);
    socket.buf.advance_by(len);
    socket
}

fn failure(kind: ErrorKind) -> OsFailure {
    OsFailure {
        kind,
        reason: "Input/output error (os error 5)".to_owned(),
        subject: "OwnedFd { fd: 7 }".to_owned(),
    }
}

#[test]
fn next_line_returns_both_fifo_control_lines() -> ConmonResult<()> {
    let mut socket = socket_with_buffered_data(b"1 80 24\n2 0 0\n", SocketType::TerminalFifo);

    let first = socket.next_line()?.expect("first line");
    assert_eq!(first, "1 80 24\n");

    let second = socket.next_line()?.expect("second line");
    assert_eq!(second, "2 0 0\n");

    assert!(socket.next_line()?.is_none());
    assert_eq!(socket.buf.start(), 0);
    assert_eq!(socket.buf.end(), 0);
    Ok(())
}

#[test]
fn next_line_owned_string_remains_valid_after_next_call() -> ConmonResult<()> {
    let mut socket = socket_with_buffered_data(b"a\nbc\n", SocketType::ConsoleFifo);

    let first = socket.next_line()?.expect("first line");
    let second = socket.next_line()?.expect("second line");

    assert_eq!(first, "a\n");
    assert_eq!(second, "bc\n");
    Ok(())
}

#[test]
fn next_line_extracts_second_line_without_eager_compaction() -> ConmonResult<()> {
    let mut socket = socket_with_buffered_data(b"a\nbc\n", SocketType::ConsoleFifo);

    assert_eq!(socket.next_line()?.as_deref(), Some("a\n"));
    assert!(socket.buf.start() > 0);

    assert_eq!(socket.next_line()?.as_deref(), Some("bc\n"));
    Ok(())
}

#[test]
fn next_line_preserves_incomplete_trailing_data() -> ConmonResult<()> {
    let mut socket = socket_with_buffered_data(b"first\npartial", SocketType::ConsoleFifo);

    assert_eq!(socket.next_line()?.as_deref(), Some("first\n"));
    assert!(socket.next_line()?.is_none());
    assert_eq!(socket.buf.data(), b"partial");
    Ok(())
}

#[test]
fn next_line_consumes_invalid_utf8_and_preserves_following_line() {
    let mut socket = socket_with_buffered_data(b"ok\n\xff\nlater\n", SocketType::TerminalFifo);

    assert_eq!(socket.next_line().unwrap().as_deref(), Some("ok\n"));

    let err = socket
        .next_line()
        .expect_err("invalid UTF-8 must be an explicit error");
    assert!(err.message().contains("not valid UTF-8"));

    // Invalid line was consumed; later valid lines remain available.
    assert_eq!(socket.next_line().unwrap().as_deref(), Some("later\n"));
    assert!(socket.next_line().unwrap().is_none());
}

#[test]
fn next_line_says_why_a_line_is_no_text() {
    let mut socket = socket_with_buffered_data(b"a\xff\n", SocketType::TerminalFifo);
    let err = socket.next_line().unwrap_err();
    assert_eq!(
        err.message(),
        "control line is not valid UTF-8: invalid utf-8 sequence of 1 bytes from index 1"
    );
    assert_eq!(err.exit_code(), 1);
}

#[test]
fn next_line_decodes_text_beyond_ascii() -> ConmonResult<()> {
    let mut socket = socket_with_buffered_data("žluť\n".as_bytes(), SocketType::TerminalFifo);
    assert_eq!(socket.next_line()?.as_deref(), Some("žluť\n"));
    Ok(())
}

#[test]
fn a_new_socket_has_nothing_buffered() {
    let socket = RemoteSocket::new(SocketType::Notify, 12);
    assert_eq!(socket.socket_type, SocketType::Notify);
    assert_eq!(socket.fd, 12);
    assert!(socket.buf.data().is_empty());
    assert_eq!(socket.buf.capacity(), 32768);
    assert!(!socket.has_handler);
    assert!(!socket.read_closed);
    assert_eq!(SocketType::default(), SocketType::Console);
}

#[test]
fn set_handler_is_remembered() {
    let mut socket = RemoteSocket::new(SocketType::Inotify, 3);
    socket.set_handler();
    assert!(socket.has_handler);
}

#[test]
fn each_type_of_socket_is_read_by_its_call() -> ConmonResult<()> {
    for (socket_type, call) in [
        (SocketType::Stdout, ReadCall::Read),
        (SocketType::Stderr, ReadCall::Read),
        (SocketType::Terminal, ReadCall::Read),
        (SocketType::TerminalFifo, ReadCall::Read),
        (SocketType::ConsoleFifo, ReadCall::Read),
        (SocketType::Inotify, ReadCall::Read),
        (SocketType::Console, ReadCall::Receive),
        (SocketType::Notify, ReadCall::Receive),
        (SocketType::Attach, ReadCall::Receive),
        (SocketType::SignalFd, ReadCall::Receive),
    ] {
        let mut socket = RemoteSocket::new(socket_type, 3);
        assert_eq!(socket.read(ReadEvent::Start)?, ReadStep::Call(call));
        // A call that would block is made again.
        assert_eq!(
            socket.read(ReadEvent::Failed(failure(ErrorKind::WouldBlock)))?,
            ReadStep::Call(call)
        );
    }
    Ok(())
}

#[test]
fn bytes_that_were_read_are_appended() -> ConmonResult<()> {
    let mut socket = socket_with_buffered_data(b"ab", SocketType::TerminalFifo);
    assert_eq!(
        socket.read(ReadEvent::Start)?,
        ReadStep::Call(ReadCall::Read)
    );
    socket.buf.spare_slice_mut()[..3].copy_from_slice(b"cd\n");
    assert_eq!(socket.read(ReadEvent::Received(3))?, ReadStep::Done(3));
    assert_eq!(socket.buf.data(), b"abcd\n");
    socket.clear_buffer();
    assert!(socket.buf.data().is_empty());
    Ok(())
}

#[test]
fn bytes_stay_in_place_while_there_is_room() -> ConmonResult<()> {
    let mut socket = socket_with_buffered_data(b"a\nbc", SocketType::TerminalFifo);
    socket.next_line()?;
    assert_eq!((socket.buf.start(), socket.buf.end()), (2, 4));
    socket.read(ReadEvent::Start)?;
    assert_eq!((socket.buf.start(), socket.buf.end()), (2, 4));

    // They are moved once the tail is used up.
    let mut data = vec![b'x'; SOCKET_BUFFER_SIZE];
    data[4] = b'\n';
    let mut socket = socket_with_buffered_data(&data, SocketType::TerminalFifo);
    socket.next_line()?;
    assert_eq!((socket.buf.start(), socket.buf.end()), (5, 32768));
    socket.read(ReadEvent::Start)?;
    assert_eq!((socket.buf.start(), socket.buf.end()), (0, 32763));
    Ok(())
}

#[test]
fn a_full_buffer_cannot_be_read_into() {
    let full = [b'x'; SOCKET_BUFFER_SIZE];
    let mut socket = socket_with_buffered_data(&full, SocketType::TerminalFifo);
    let err = socket.read(ReadEvent::Start).unwrap_err();
    assert_eq!(err.message(), "line too long for buffer");
    assert_eq!(err.exit_code(), 1);
}

#[test]
fn a_read_that_fails_is_reported() {
    let mut pipe = RemoteSocket::new(SocketType::Stdout, 7);
    let err = pipe
        .read(ReadEvent::Failed(failure(ErrorKind::Other)))
        .unwrap_err();
    assert_eq!(err.message(), "read failed: Input/output error (os error 5)");

    let mut client = RemoteSocket::new(SocketType::Console, 7);
    let err = client
        .read(ReadEvent::Failed(failure(ErrorKind::Interrupted)))
        .unwrap_err();
    assert_eq!(
        err.message(),
        "read failed: Input/output error (os error 5), OwnedFd { fd: 7 }"
    );
}

#[test]
fn a_bound_socket_can_be_read_from() {
    let mut listener = UnixSocket::new(SocketType::Notify, true, b"/b".to_vec(), None, None);
    listener.fd = Some(21);
    let remote = RemoteSocket::from(listener);
    assert_eq!(remote.fd, 21);
    assert_eq!(remote.socket_type, SocketType::Notify);
    assert!(remote.buf.data().is_empty());
}
