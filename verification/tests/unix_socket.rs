use conmon::error::{ConmonError, ConmonResult};
use conmon::os::{AddrFailure, ErrorKind, OsFailure};
use conmon::remote_socket::SocketType;
use conmon::socket::make_notify_socket_and_addr;
use conmon::unix_socket::{
    AcceptEvent, AcceptStep, BindEvent, BindProgress, BindRequest, BindStep, ParentDirEvent,
    ParentDirStep, SockType, UnixSocket,
};

fn failure(kind: ErrorKind) -> OsFailure {
    OsFailure {
        kind,
        reason: "EACCES: Permission denied".to_owned(),
        subject: "\"/s/c\"".to_owned(),
    }
}

fn in_bundle() -> UnixSocket {
    UnixSocket::new(
        SocketType::Console,
        true,
        b"/bundle".to_vec(),
        Some(b"/sockets".to_vec()),
        Some("cid".to_owned()),
    )
}

fn in_socket_dir() -> UnixSocket {
    UnixSocket::new(
        SocketType::Console,
        false,
        b"/bundle".to_vec(),
        Some(b"/sockets".to_vec()),
        Some("cid".to_owned()),
    )
}

fn request(path: Option<&[u8]>) -> BindRequest {
    BindRequest {
        path: path.map(|p| p.to_vec()),
        sock_type: SockType::SeqPacket,
        nonblocking: true,
        close_on_exec: true,
        perms: 0o700,
    }
}

/// Binds a socket whose directory opens as descriptor 5, and gives the directory, the path
/// that is removed and the path of the address.
fn bind(socket: &mut UnixSocket, request: &BindRequest) -> (Vec<u8>, Vec<u8>, String) {
    let mut progress = BindProgress::new();
    let mut event = BindEvent::Start;
    let mut dir_opened = Vec::new();
    let mut removed = Vec::new();
    let mut address = String::new();
    loop {
        event = match socket.bind(request, &mut progress, event).unwrap() {
            BindStep::ParentDir(ParentDirStep::Unlink(_)) => {
                BindEvent::ParentDir(ParentDirEvent::Unlinked)
            }
            BindStep::ParentDir(ParentDirStep::Symlink { .. }) => {
                BindEvent::ParentDir(ParentDirEvent::Linked)
            }
            BindStep::ParentDir(ParentDirStep::Done(_)) => unreachable!(),
            BindStep::OpenDir { dir, mode } => {
                assert_eq!(mode, 0o600);
                dir_opened = dir;
                BindEvent::DirOpened(5)
            }
            BindStep::AskTempDir => BindEvent::TempDir(b"/tmp".to_vec()),
            BindStep::MakeTemp(template) => {
                assert_eq!(template, b"/tmp/conmon-term.XXXXXX");
                BindEvent::TempCreated {
                    path: b"/tmp/conmon-term.abcdef".to_vec(),
                    text: "\"/tmp/conmon-term.abcdef\"".to_owned(),
                }
            }
            BindStep::RemoveOld(path) => {
                removed = path;
                BindEvent::OldRemoved
            }
            BindStep::CreateSocket {
                sock_type,
                nonblocking,
                close_on_exec,
            } => {
                assert_eq!(sock_type, request.sock_type);
                assert_eq!(nonblocking, request.nonblocking);
                assert_eq!(close_on_exec, request.close_on_exec);
                BindEvent::SocketCreated(9)
            }
            BindStep::SetMode { fd, mode } => {
                assert_eq!((fd, mode), (9, request.perms));
                BindEvent::ModeSet
            }
            BindStep::Bind { fd, addr } => {
                assert_eq!(fd, 9);
                address = addr.path().unwrap().to_str().unwrap().to_owned();
                // Nothing is recorded before the socket is bound.
                assert_eq!(socket.fd(), None);
                BindEvent::Bound
            }
            BindStep::Done => return (dir_opened, removed, address),
        };
    }
}

#[test]
fn a_new_socket_is_not_bound() {
    let socket = in_bundle();
    assert_eq!(socket.fd(), None);
    assert_eq!(socket.path(), None);
    assert_eq!(socket.listen(), None);
    assert_eq!(socket.socket_type, SocketType::Console);
}

#[test]
fn a_default_socket_has_no_place() {
    let socket = UnixSocket::default();
    assert_eq!(socket.socket_type, SocketType::Console);
    assert!(!socket.use_full_attach_path);
    assert!(socket.bundle_path.is_empty());
    assert_eq!(socket.socket_path, None);
    assert_eq!(socket.cuuid, None);
    assert_eq!((socket.fd(), socket.path()), (None, None));
    assert!(socket.socket_parent_dir(ParentDirEvent::Start).is_err());
}

#[test]
fn the_bundle_is_the_parent_directory_with_full_attach() -> ConmonResult<()> {
    match in_bundle().socket_parent_dir(ParentDirEvent::Start)? {
        ParentDirStep::Done(dir) => assert_eq!(dir, b"/bundle"),
        other => panic!("unexpected step: {other:?}"),
    }
    Ok(())
}

#[test]
fn a_link_to_the_bundle_is_the_parent_directory_otherwise() -> ConmonResult<()> {
    let socket = in_socket_dir();
    match socket.socket_parent_dir(ParentDirEvent::Start)? {
        ParentDirStep::Unlink(path) => assert_eq!(path, b"/sockets/cid"),
        other => panic!("unexpected step: {other:?}"),
    }
    // It does not matter whether there was an old link.
    for event in [
        ParentDirEvent::Unlinked,
        ParentDirEvent::UnlinkFailed(failure(ErrorKind::NoEntry)),
    ] {
        match socket.socket_parent_dir(event)? {
            ParentDirStep::Symlink { target, link } => {
                assert_eq!(target, b"/bundle");
                assert_eq!(link, b"/sockets/cid");
            }
            other => panic!("unexpected step: {other:?}"),
        }
    }
    match socket.socket_parent_dir(ParentDirEvent::Linked)? {
        ParentDirStep::Done(dir) => assert_eq!(dir, b"/sockets/cid"),
        other => panic!("unexpected step: {other:?}"),
    }
    Ok(())
}

#[test]
fn failures_around_the_link_are_reported() {
    let socket = in_socket_dir();
    let err = socket
        .socket_parent_dir(ParentDirEvent::UnlinkFailed(failure(ErrorKind::Other)))
        .unwrap_err();
    assert_eq!(
        err.message(),
        "Cannot unlink \"/s/c\": EACCES: Permission denied"
    );
    let err = socket
        .socket_parent_dir(ParentDirEvent::LinkFailed {
            target: "\"/bundle\"".to_owned(),
            failed: failure(ErrorKind::Other),
        })
        .unwrap_err();
    assert_eq!(
        err.message(),
        "Cannot symlink \"/bundle\" to \"/s/c\": EACCES: Permission denied"
    );
    assert_eq!(err.exit_code(), 1);
}

#[test]
fn there_is_no_parent_directory_without_a_base_path() {
    let no_id = UnixSocket::new(
        SocketType::Console,
        false,
        b"/bundle".to_vec(),
        Some(b"/sockets".to_vec()),
        None,
    );
    let no_dir = UnixSocket::new(
        SocketType::Console,
        false,
        b"/bundle".to_vec(),
        None,
        Some("cid".to_owned()),
    );
    let no_bundle = UnixSocket::new(SocketType::Console, true, Vec::new(), None, None);
    for socket in [no_id, no_dir, no_bundle] {
        let err = socket.socket_parent_dir(ParentDirEvent::Start).unwrap_err();
        assert_eq!(err.message(), "Base path for socket cannot be determined");
    }
}

#[test]
fn a_long_base_path_is_cut() -> ConmonResult<()> {
    let socket = in_socket_dir();
    assert_eq!(socket.max_socket_path_len(), 108);

    // "/sockets/" has 9 bytes, and 107 leave no room for the terminating NUL and a name.
    for (id_len, expected) in [(97, 106), (98, 106), (99, 107), (200, 208)] {
        let long = UnixSocket::new(
            SocketType::Console,
            false,
            b"/bundle".to_vec(),
            Some(b"/sockets".to_vec()),
            Some("c".repeat(id_len)),
        );
        match long.socket_parent_dir(ParentDirEvent::Linked)? {
            ParentDirStep::Done(dir) => {
                assert_eq!(dir.len(), expected, "{id_len}");
                assert!(dir.starts_with(b"/sockets/ccc"));
            }
            other => panic!("unexpected step: {other:?}"),
        }
    }
    Ok(())
}

#[test]
fn a_base_path_ends_before_a_nul() -> ConmonResult<()> {
    let socket = UnixSocket::new(
        SocketType::Console,
        false,
        b"/bundle".to_vec(),
        Some(b"/sock\0ets".to_vec()),
        Some("cid".to_owned()),
    );
    match socket.socket_parent_dir(ParentDirEvent::Linked)? {
        ParentDirStep::Done(dir) => assert_eq!(dir, b"/sock"),
        other => panic!("unexpected step: {other:?}"),
    }
    Ok(())
}

#[test]
fn a_socket_with_a_name_is_bound_in_its_parent_directory() {
    let mut socket = in_socket_dir();
    let (dir, removed, address) = bind(&mut socket, &request(Some(b"attach")));
    assert_eq!(dir, b"/sockets/cid/");
    assert_eq!(removed, b"/sockets/cid/attach");
    assert_eq!(address, "/proc/self/fd/5/attach");
    assert_eq!(socket.fd(), Some(9));
    assert_eq!(socket.listen(), Some(9));
    assert_eq!(socket.path().unwrap(), b"/sockets/cid/attach");
}

#[test]
fn a_socket_in_the_bundle_needs_no_link() {
    let mut socket = in_bundle();
    let (dir, removed, address) = bind(&mut socket, &request(Some(b"attach")));
    assert_eq!(dir, b"/bundle/");
    assert_eq!(removed, b"/bundle/attach");
    assert_eq!(address, "/proc/self/fd/5/attach");
}

#[test]
fn a_socket_with_a_nested_name_is_bound_in_the_nested_directory() {
    let mut socket = UnixSocket::new(SocketType::Notify, true, b"/b".to_vec(), None, None);
    let (dir, removed, address) = bind(&mut socket, &request(Some(b"notify/notify.sock")));
    assert_eq!(dir, b"/b/notify");
    assert_eq!(removed, b"/b/notify/notify.sock");
    assert_eq!(address, "/proc/self/fd/5/notify.sock");
    assert!(socket.fd().is_some());
    assert_eq!(socket.path().unwrap(), b"/b/notify/notify.sock");
}

#[test]
fn a_nested_name_below_a_link_is_one_place_too() {
    let mut socket = in_socket_dir();
    let (dir, removed, address) = bind(&mut socket, &request(Some(b"a/b/c.sock")));
    assert_eq!(dir, b"/sockets/cid/a/b");
    assert_eq!(removed, b"/sockets/cid/a/b/c.sock");
    assert_eq!(address, "/proc/self/fd/5/c.sock");
    assert_eq!(socket.path().unwrap(), b"/sockets/cid/a/b/c.sock");
}

#[test]
fn a_socket_with_an_absolute_path_is_bound_there() {
    let mut socket = UnixSocket::new(SocketType::Console, false, Vec::new(), None, None);
    let (dir, removed, address) = bind(&mut socket, &request(Some(b"/run/x/sock")));
    assert_eq!(dir, b"/run/x");
    assert_eq!(removed, b"/run/x/sock");
    assert_eq!(address, "/proc/self/fd/5/sock");
    assert_eq!(socket.path().unwrap(), b"/run/x/sock");
}

#[test]
fn a_socket_without_a_path_takes_a_temporary_name() {
    let mut socket = in_bundle();
    let (_, removed, address) = bind(&mut socket, &request(None));
    assert_eq!(removed, b"/tmp/conmon-term.abcdef");
    assert_eq!(address, "/tmp/conmon-term.abcdef");
    assert_eq!(socket.path().unwrap(), b"/tmp/conmon-term.abcdef");
}

#[test]
fn only_permission_bits_are_set() -> ConmonResult<()> {
    let mut socket = in_bundle();
    let mut wanted = request(Some(b"attach"));
    for (perms, mode) in [(0o700, 0o700), (0o140777, 0o777), (0o7777, 0o7777), (u32::MAX, 0o7777)] {
        wanted.perms = perms;
        let mut progress = BindProgress::new();
        socket.bind(&wanted, &mut progress, BindEvent::Start)?;
        socket.bind(&wanted, &mut progress, BindEvent::DirOpened(5))?;
        match socket.bind(&wanted, &mut progress, BindEvent::SocketCreated(9))? {
            BindStep::SetMode { fd, mode: set } => assert_eq!((fd, set), (9, mode)),
            other => panic!("unexpected step: {other:?}"),
        }
    }
    Ok(())
}

#[test]
fn a_missing_old_socket_does_not_matter() -> ConmonResult<()> {
    let mut socket = in_bundle();
    let mut progress = BindProgress::new();
    let step = socket.bind(
        &request(Some(b"attach")),
        &mut progress,
        BindEvent::OldRemoveFailed(failure(ErrorKind::NoEntry)),
    )?;
    assert!(matches!(
        step,
        BindStep::CreateSocket {
            sock_type: SockType::SeqPacket,
            nonblocking: true,
            close_on_exec: true
        }
    ));
    Ok(())
}

#[test]
fn failures_of_binding_are_reported() {
    let mut socket = in_bundle();
    let mut progress = BindProgress::new();
    let wanted = request(Some(b"attach"));
    let err = socket
        .bind(
            &wanted,
            &mut progress,
            BindEvent::DirOpenFailed(failure(ErrorKind::NoEntry)),
        )
        .unwrap_err();
    assert_eq!(
        err.message(),
        "Failed to open directory \"/s/c\": EACCES: Permission denied"
    );
    let err = socket
        .bind(
            &wanted,
            &mut progress,
            BindEvent::OldRemoveFailed(failure(ErrorKind::Other)),
        )
        .unwrap_err();
    assert_eq!(
        err.message(),
        "Failed to remove old socket \"/s/c\": EACCES: Permission denied"
    );
    let err = socket
        .bind(
            &wanted,
            &mut progress,
            BindEvent::Failed(ConmonError::new("socket failed".to_owned(), 3)),
        )
        .unwrap_err();
    assert_eq!((err.message(), err.exit_code()), ("socket failed", 3));
    assert_eq!(socket.fd(), None);
    assert_eq!(socket.path(), None);
}

#[test]
fn an_address_in_a_directory_uses_the_final_component() -> ConmonResult<()> {
    let socket = in_bundle();
    let addr = socket.bind_relative_to_dir(Some(12), b"/long/way/to/sock", "")?;
    assert_eq!(
        addr.path().unwrap().to_str().unwrap(),
        "/proc/self/fd/12/sock"
    );
    let addr = socket.bind_relative_to_dir(Some(0), b"/d/a\xffb", "")?;
    assert_eq!(
        addr.path().unwrap().to_str().unwrap(),
        "/proc/self/fd/0/a\u{fffd}b"
    );
    let addr = socket.bind_relative_to_dir(None, b"/run/sock", "\"/run/sock\"")?;
    assert_eq!(addr.path().unwrap().to_str().unwrap(), "/run/sock");
    Ok(())
}

#[test]
fn paths_that_are_no_address_are_reported() {
    let socket = in_bundle();
    let err = socket
        .bind_relative_to_dir(Some(4), b"/", "\"/\"")
        .unwrap_err();
    assert_eq!(err.message(), "no basename");

    let err = socket
        .bind_relative_to_dir(None, b"/a\0b", "\"/a\\0b\"")
        .unwrap_err();
    assert_eq!(
        err.message(),
        "Failed to create UnixAddr from \"/a\\0b\": EINVAL"
    );

    let name = "n".repeat(100);
    let path = format!("/d/{name}");
    let err = socket
        .bind_relative_to_dir(Some(4), path.as_bytes(), "")
        .unwrap_err();
    assert_eq!(
        err.message(),
        format!("Failed to create UnixAddr from \"/proc/self/fd/4/{name}\": ENAMETOOLONG")
    );
    // Without a directory the same path just fits.
    let addr = socket
        .bind_relative_to_dir(None, path.as_bytes(), "")
        .unwrap();
    assert_eq!(addr.path().unwrap().to_str().unwrap(), path);
}

#[test]
fn the_notify_address_is_the_path_of_the_host() {
    let (fd, addr) = make_notify_socket_and_addr(6, b"/run/systemd/notify").unwrap();
    assert_eq!(fd, 6);
    assert_eq!(
        addr.path().unwrap().to_str().unwrap(),
        "/run/systemd/notify"
    );
    let just_fits = vec![b'a'; 107];
    assert!(make_notify_socket_and_addr(6, &just_fits).is_ok());
    let too_long = vec![b'a'; 108];
    assert_eq!(
        make_notify_socket_and_addr(6, &too_long).unwrap_err(),
        AddrFailure::NameTooLong
    );
    assert_eq!(
        make_notify_socket_and_addr(6, b"/a\0").unwrap_err(),
        AddrFailure::Invalid
    );
}

#[test]
fn a_client_is_accepted_with_the_type_of_its_listener() -> ConmonResult<()> {
    let mut socket = in_bundle();
    // Nothing can be accepted before the socket is bound.
    assert!(matches!(
        socket.accept(AcceptEvent::Start)?,
        AcceptStep::Done(None)
    ));
    socket.fd = Some(9);
    assert!(matches!(
        socket.accept(AcceptEvent::Start)?,
        AcceptStep::Accept(9)
    ));
    assert!(matches!(
        socket.accept(AcceptEvent::Failed(failure(ErrorKind::Interrupted)))?,
        AcceptStep::Accept(9)
    ));
    assert!(matches!(
        socket.accept(AcceptEvent::Failed(failure(ErrorKind::WouldBlock)))?,
        AcceptStep::Done(None)
    ));
    match socket.accept(AcceptEvent::Accepted(30))? {
        AcceptStep::Done(Some(remote)) => {
            assert_eq!(remote.fd, 30);
            assert_eq!(remote.socket_type, SocketType::Console);
        }
        _ => panic!("no client"),
    }
    Ok(())
}

#[test]
fn a_client_that_cannot_be_accepted_is_reported() {
    let mut socket = in_bundle();
    socket.fd = Some(9);
    let failed = OsFailure {
        kind: ErrorKind::Other,
        reason: "EMFILE: Too many open files".to_owned(),
        subject: "Some(\"/bundle/attach\")".to_owned(),
    };
    let err = match socket.accept(AcceptEvent::Failed(failed)) {
        Err(e) => e,
        Ok(_) => panic!("no error"),
    };
    assert_eq!(
        err.message(),
        "Failed to accept client connection on Some(\"/bundle/attach\"): EMFILE: Too many open files"
    );
}
