//! What is done with data that arrives on a socket.
use nix::sys::socket::UnixAddr;
use vstd::prelude::*;
use vstd::utf8::{decode_utf8, valid_utf8};

use crate::bytes::{bytes_view, copy_bytes};
use crate::error::{failure, result_view, ConmonError, ConmonResult, ErrorView};
use crate::notify::{filter_notify_payload, filtered, law_filter_of_one_line, relayed};
use crate::os::{unix_addr, unix_addr_path, AddrFailure, ErrorKind, OsFailure, SUN_PATH_LEN};
use crate::remote_socket::{
    line_failure, read_call, read_failure, ReadCall, ReadEvent, ReadStep, RemoteSocket, SocketType,
    SOCKET_BUFFER_SIZE,
};
use crate::socket_buffer::{
    first_line, incomplete_line, law_first_line, law_first_line_stable, law_lines_make_up_buffer,
    law_no_complete_line_left, lemma_first_newline, lines,
};
use crate::text::{join2, utf8_failure};
use crate::unix_socket::{AcceptEvent, AcceptStep, UnixSocket};

verus! {

broadcast use vstd::slice::group_slice_axioms;

/// The buffer size of podman or other parent app when receiving the data.
///
/// This has to stay 8192, otherwise the podman wouldn't receive whole package and some
/// data would be lost.
pub const CONMON_CLIENT_BUFFER_SIZE: usize = 8192;

/// The byte before data of the container's stdout.
pub const STDOUT_PREFIX: u8 = 2u8;

/// The byte before data of the container's stderr.
pub const STDERR_PREFIX: u8 = 3u8;

/// Enum representing a UnixSocket, RemoteSocket or the Signal FD.
pub enum Socket {
    Unix(UnixSocket),
    Remote(RemoteSocket),
    Signal(i32),
}

/// Something to be done with data that arrived.
#[derive(Debug)]
pub enum Action {
    /// Write the data to the logs; a failure does not matter.
    Log { stdout: bool, data: Vec<u8> },
    /// Send the prefix and the chunk as one packet.
    Packet { fd: i32, prefix: u8, chunk: Vec<u8> },
    /// Write the data to the descriptor.
    Write { fd: i32, data: Vec<u8> },
    /// Send the payload to the notify socket of the host.
    Notify { path: Vec<u8>, payload: Vec<u8> },
    /// Process a line that came over the `ctl` fifo; a failure does not matter.
    TerminalLine { fd: i32, line: String },
    /// Process a line that came over the `winsz` fifo; a failure does not matter.
    WindowLine { fd: i32, line: String },
    /// Log this as a warning of the monitor.
    Warn(String),
    /// Log this as an error of the monitor.
    Error(String),
}

/// Something to be done with data that arrived, by the values.
#[verifier::ext_equal]
pub enum ActionView {
    Log { stdout: bool, data: Seq<u8> },
    Packet { fd: i32, prefix: u8, chunk: Seq<u8> },
    Write { fd: i32, data: Seq<u8> },
    Notify { path: Seq<u8>, payload: Seq<u8> },
    TerminalLine { fd: i32, line: Seq<char> },
    WindowLine { fd: i32, line: Seq<char> },
    Warn(Seq<char>),
    Error(Seq<char>),
}

impl View for Action {
    type V = ActionView;

    open spec fn view(&self) -> ActionView {
        match self {
            Action::Log { stdout, data } => ActionView::Log { stdout: *stdout, data: data@ },
            Action::Packet { fd, prefix, chunk } => ActionView::Packet {
                fd: *fd,
                prefix: *prefix,
                chunk: chunk@,
            },
            Action::Write { fd, data } => ActionView::Write { fd: *fd, data: data@ },
            Action::Notify { path, payload } => ActionView::Notify {
                path: path@,
                payload: payload@,
            },
            Action::TerminalLine { fd, line } => ActionView::TerminalLine { fd: *fd, line: line@ },
            Action::WindowLine { fd, line } => ActionView::WindowLine { fd: *fd, line: line@ },
            Action::Warn(message) => ActionView::Warn(message@),
            Action::Error(message) => ActionView::Error(message@),
        }
    }
}

/// The actions of a list, by the values.
pub open spec fn action_views(actions: Seq<Action>) -> Seq<ActionView> {
    actions.map_values(|a: Action| a@)
}

/// What happened on a socket.
#[derive(Debug)]
pub enum DataEvent {
    /// There is something to be read.
    Start,
    /// A client is connected under this descriptor.
    Accepted(i32),
    AcceptFailed(OsFailure),
    /// So many bytes were put into the free space of the buffer.
    Received(usize),
    ReadFailed(OsFailure),
    /// The handler of the socket said whether to go on.
    HandlerReturned(bool),
    /// All actions are done.
    Completed,
    /// An action failed, and those after it were not done.
    Failed(ConmonError),
}

/// What is needed next to deal with data on a socket.
#[derive(Debug)]
pub enum DataStep {
    /// Accept a connection on this descriptor.
    Accept(i32),
    /// Make this call, with the free space of the buffer as its destination.
    Read(ReadCall),
    /// Call the handler of the socket with what is buffered.
    CallHandler,
    /// Do these one after the other, up to the first that fails.
    Perform(Vec<Action>),
    /// The data is dealt with; the socket is kept or not.
    Done(bool),
}

/// What is needed next to deal with data on a socket, by the values.
#[verifier::ext_equal]
pub enum DataStepView {
    Accept(i32),
    Read(ReadCall),
    CallHandler,
    Perform(Seq<ActionView>),
    Done(bool),
}

impl View for DataStep {
    type V = DataStepView;

    open spec fn view(&self) -> DataStepView {
        match self {
            DataStep::Accept(fd) => DataStepView::Accept(*fd),
            DataStep::Read(call) => DataStepView::Read(*call),
            DataStep::CallHandler => DataStepView::CallHandler,
            DataStep::Perform(actions) => DataStepView::Perform(action_views(actions@)),
            DataStep::Done(keep) => DataStepView::Done(*keep),
        }
    }
}

/// Whether a peer takes what the container prints.
pub open spec fn is_attached(peer: RemoteSocket) -> bool {
    peer.socket_type == SocketType::Console
}

/// Whether a peer takes what is typed for the container.
pub open spec fn is_open_terminal(peer: RemoteSocket) -> bool {
    peer.socket_type == SocketType::Terminal && !peer.read_closed
}

/// The descriptors of the first `n` sockets, without the one at `source`, that take
/// what the container prints.
pub open spec fn attached_fds(sockets: Seq<Socket>, source: int, n: nat) -> Seq<i32>
    decreases n,
{
    if n == 0 {
        Seq::empty()
    } else {
        let rest = attached_fds(sockets, source, (n - 1) as nat);
        match sockets[n - 1] {
            Socket::Remote(peer) => if n - 1 != source && is_attached(peer) {
                rest.push(peer.fd)
            } else {
                rest
            },
            _ => rest,
        }
    }
}

/// The descriptors of the first `n` sockets, without the one at `source`, that take
/// what is typed for the container.
pub open spec fn terminal_fds(sockets: Seq<Socket>, source: int, n: nat) -> Seq<i32>
    decreases n,
{
    if n == 0 {
        Seq::empty()
    } else {
        let rest = terminal_fds(sockets, source, (n - 1) as nat);
        match sockets[n - 1] {
            Socket::Remote(peer) => if n - 1 != source && is_open_terminal(peer) {
                rest.push(peer.fd)
            } else {
                rest
            },
            _ => rest,
        }
    }
}

/// The descriptor of the first socket of a type from index `n` on, without the one
/// at `source`.
pub open spec fn first_fd_from(
    sockets: Seq<Socket>,
    source: int,
    socket_type: SocketType,
    n: nat,
) -> Option<i32>
    decreases sockets.len() - n,
{
    if n >= sockets.len() {
        None
    } else {
        match sockets[n as int] {
            Socket::Remote(peer) => if n != source && peer.socket_type == socket_type {
                Some(peer.fd)
            } else {
                first_fd_from(sockets, source, socket_type, n + 1)
            },
            _ => first_fd_from(sockets, source, socket_type, n + 1),
        }
    }
}

/// The descriptor whose window is resized: the terminal if present, else the stdout of
/// the container.
pub open spec fn resize_target(sockets: Seq<Socket>, source: int) -> Option<i32> {
    match first_fd_from(sockets, source, SocketType::Terminal, 0) {
        Some(fd) => Some(fd),
        None => first_fd_from(sockets, source, SocketType::Stdout, 0),
    }
}

/// One packet with the chunk for each descriptor.
pub open spec fn packet_round(prefix: u8, chunk: Seq<u8>, fds: Seq<i32>) -> Seq<ActionView> {
    fds.map_values(|fd: i32| ActionView::Packet { fd, prefix, chunk })
}

/// The size of the first chunk of data.
pub open spec fn chunk_size(data: Seq<u8>) -> int {
    if data.len() < CONMON_CLIENT_BUFFER_SIZE {
        data.len() as int
    } else {
        CONMON_CLIENT_BUFFER_SIZE as int
    }
}

/// The packets that carry data to all descriptors, chunk by chunk.
pub open spec fn packets(prefix: u8, data: Seq<u8>, fds: Seq<i32>) -> Seq<ActionView>
    decreases data.len(),
{
    if data.len() == 0 {
        Seq::empty()
    } else {
        packet_round(prefix, data.take(chunk_size(data)), fds) + packets(
            prefix,
            data.skip(chunk_size(data)),
            fds,
        )
    }
}

/// What is done with data that the container has printed: it is logged and sent to
/// everyone who is attached.
pub open spec fn output_actions(
    sockets: Seq<Socket>,
    source: int,
    socket_type: SocketType,
    data: Seq<u8>,
) -> Seq<ActionView> {
    let stderr = socket_type == SocketType::Stderr;
    let prefix = if stderr {
        STDERR_PREFIX
    } else {
        STDOUT_PREFIX
    };
    seq![ActionView::Log { stdout: !stderr, data }] + packets(
        prefix,
        data,
        attached_fds(sockets, source, sockets.len()),
    )
}

/// Writes of the same data to several descriptors.
pub open spec fn writes(data: Seq<u8>, fds: Seq<i32>) -> Seq<ActionView> {
    fds.map_values(|fd: i32| ActionView::Write { fd, data })
}

/// What is done with data that was typed for the container: it is written to the stdin
/// of the container and to its terminal.
pub open spec fn input_actions(
    sockets: Seq<Socket>,
    source: int,
    stdin: Option<i32>,
    data: Seq<u8>,
) -> Seq<ActionView> {
    let first = match stdin {
        Some(fd) => seq![ActionView::Write { fd, data }],
        None => Seq::empty(),
    };
    first + writes(data, terminal_fds(sockets, source, sockets.len()))
}

/// What is done with a notify datagram: what is relayed of it goes to the host.
pub open spec fn notify_actions(sdnotify: Option<Seq<u8>>, data: Seq<u8>) -> Seq<ActionView> {
    match sdnotify {
        Some(path) => if filtered(data).len() > 0 {
            seq![ActionView::Notify { path, payload: filtered(data) }]
        } else {
            Seq::empty()
        },
        None => Seq::empty(),
    }
}

/// What is said of a control line that is no text.
pub open spec fn bad_line_warning(line: Seq<u8>) -> Seq<char> {
    "failed to decode control line: "@ + line_failure(line)
}

/// What is done with one control line: a warning when it is no text, nothing when there is
/// nothing to resize.
pub open spec fn line_action(
    socket_type: SocketType,
    target: Option<i32>,
    line: Seq<u8>,
) -> Seq<ActionView> {
    if !valid_utf8(line) {
        seq![ActionView::Warn(bad_line_warning(line))]
    } else if target is Some {
        if socket_type == SocketType::TerminalFifo {
            seq![ActionView::TerminalLine { fd: target->0, line: decode_utf8(line) }]
        } else {
            seq![ActionView::WindowLine { fd: target->0, line: decode_utf8(line) }]
        }
    } else {
        Seq::empty()
    }
}

/// What is done with the complete control lines that are buffered.
pub open spec fn line_actions(
    socket_type: SocketType,
    target: Option<i32>,
    buffered: Seq<u8>,
) -> Seq<ActionView>
    decreases buffered.len(),
    via line_actions_decreases
{
    match first_line(buffered) {
        Some(line) => line_action(socket_type, target, line) + line_actions(
            socket_type,
            target,
            buffered.skip(line.len() as int),
        ),
        None => Seq::empty(),
    }
}

#[via_fn]
proof fn line_actions_decreases(socket_type: SocketType, target: Option<i32>, buffered: Seq<u8>) {
    lemma_first_newline(buffered);
}

/// Whether data of a type of socket is control lines.
pub open spec fn is_fifo(socket_type: SocketType) -> bool {
    socket_type == SocketType::TerminalFifo || socket_type == SocketType::ConsoleFifo
}

/// What is done with data that arrived on a socket without a handler.
pub open spec fn dispatched(
    sockets: Seq<Socket>,
    source: int,
    socket_type: SocketType,
    data: Seq<u8>,
    stdin: Option<i32>,
    sdnotify: Option<Seq<u8>>,
) -> DataStepView {
    match socket_type {
        SocketType::Stdout | SocketType::Stderr | SocketType::Terminal => DataStepView::Perform(
            output_actions(sockets, source, socket_type, data),
        ),
        SocketType::Console => DataStepView::Perform(
            input_actions(sockets, source, stdin, data),
        ),
        SocketType::Notify => DataStepView::Perform(notify_actions(sdnotify, data)),
        SocketType::TerminalFifo | SocketType::ConsoleFifo => DataStepView::Perform(
            line_actions(socket_type, resize_target(sockets, source), data),
        ),
        SocketType::Inotify | SocketType::SignalFd | SocketType::Attach => DataStepView::Done(true),
    }
}

/// Whether a socket forgets what it has buffered once it is dealt with.
pub open spec fn clears_when_done(socket_type: SocketType) -> bool {
    match socket_type {
        SocketType::Stdout
        | SocketType::Stderr
        | SocketType::Terminal
        | SocketType::Console
        | SocketType::Notify => true,
        _ => false,
    }
}

/// Whether an event can happen on a socket.
pub open spec fn can_happen(source: Socket, event: DataEvent) -> bool {
    match event {
        DataEvent::Accepted(_) | DataEvent::AcceptFailed(_) => source is Unix,
        DataEvent::Received(n) => source matches Socket::Remote(r) && n <= r.buf.spare().len(),
        DataEvent::ReadFailed(_)
        | DataEvent::HandlerReturned(_)
        | DataEvent::Completed => source is Remote,
        DataEvent::Start | DataEvent::Failed(_) => true,
    }
}

/// What is done about a read that failed: it is logged.
pub open spec fn read_error(message: Seq<char>) -> DataStepView {
    DataStepView::Perform(seq![ActionView::Error("read error: "@ + message)])
}

/// What has arrived on a socket and is not dealt with, once `n` bytes have come.
pub open spec fn arrived(r: RemoteSocket, n: usize) -> Seq<u8> {
    r.buf@ + r.buf.spare().take(n as int)
}

/// What is needed next to accept a client on a socket.
pub open spec fn accept_outcome(listener: UnixSocket) -> DataStepView {
    match listener.fd {
        Some(fd) => DataStepView::Accept(fd),
        None => DataStepView::Done(true),
    }
}

/// What is needed next after `event` on the socket at `source`.
pub open spec fn data_outcome(
    sockets: Seq<Socket>,
    source: int,
    stdin: Option<i32>,
    sdnotify: Option<Seq<u8>>,
    event: DataEvent,
) -> Result<DataStepView, ErrorView> {
    match (sockets[source], event) {
        (_, DataEvent::Failed(e)) => Err(e@),
        (Socket::Unix(listener), DataEvent::Start) => Ok(accept_outcome(listener)),
        (Socket::Unix(_), DataEvent::Accepted(_)) => Ok(DataStepView::Done(true)),
        (Socket::Unix(listener), DataEvent::AcceptFailed(failed)) => match failed.kind {
            ErrorKind::Interrupted => Ok(accept_outcome(listener)),
            ErrorKind::WouldBlock => Ok(DataStepView::Done(true)),
            _ => Err(
                failure(
                    "Failed to accept client connection on "@ + failed.subject@ + ": "@
                        + failed.reason@,
                ),
            ),
        },
        (Socket::Remote(r), DataEvent::Start) => if r.buf@.len() < SOCKET_BUFFER_SIZE {
            Ok(DataStepView::Read(read_call(r.socket_type)))
        } else {
            Ok(read_error("line too long for buffer"@))
        },
        (Socket::Remote(r), DataEvent::Received(n)) => if n == 0 {
            Ok(DataStepView::Done(false))
        } else if r.has_handler {
            Ok(DataStepView::CallHandler)
        } else {
            Ok(dispatched(sockets, source, r.socket_type, arrived(r, n), stdin, sdnotify))
        },
        (Socket::Remote(r), DataEvent::ReadFailed(failed)) => if failed.kind
            == ErrorKind::WouldBlock {
            Ok(DataStepView::Read(read_call(r.socket_type)))
        } else {
            Ok(read_error(read_failure(r.socket_type, failed)))
        },
        (Socket::Remote(_), DataEvent::HandlerReturned(keep)) => Ok(DataStepView::Done(keep)),
        (_, _) => Ok(DataStepView::Done(true)),
    }
}

/// What a socket has buffered after `event`.
pub open spec fn buffered_after(r: RemoteSocket, event: DataEvent) -> Seq<u8> {
    match event {
        DataEvent::Start => if r.buf@.len() < SOCKET_BUFFER_SIZE {
            r.buf@
        } else {
            Seq::empty()
        },
        DataEvent::Received(n) => if n > 0 && !r.has_handler && is_fifo(r.socket_type) {
            incomplete_line(arrived(r, n))
        } else {
            arrived(r, n)
        },
        DataEvent::ReadFailed(failed) => if failed.kind == ErrorKind::WouldBlock {
            r.buf@
        } else {
            Seq::empty()
        },
        DataEvent::Completed => if clears_when_done(r.socket_type) {
            Seq::empty()
        } else {
            r.buf@
        },
        _ => r.buf@,
    }
}

/// Whether a socket stays as it is after `event`, with its buffer as it lies: bytes are moved
/// only to make room where there is none at the tail.
pub open spec fn stays_as_it_is(r: RemoteSocket, event: DataEvent) -> bool {
    match event {
        DataEvent::Start => r.buf.spare().len() > 0,
        DataEvent::ReadFailed(failed) => failed.kind == ErrorKind::WouldBlock,
        DataEvent::Completed => !clears_when_done(r.socket_type),
        DataEvent::HandlerReturned(_) | DataEvent::Failed(_) => true,
        _ => false,
    }
}

/// How many consumed bytes still take up room at the front of the buffer after `event`.
pub open spec fn consumed_after(r: RemoteSocket, event: DataEvent) -> nat {
    match event {
        DataEvent::Received(n) => if n > 0 && !r.has_handler && is_fifo(r.socket_type) {
            let left = incomplete_line(arrived(r, n));
            if left.len() > 0 {
                (r.buf.consumed() + arrived(r, n).len() - left.len()) as nat
            } else {
                0
            }
        } else {
            r.buf.consumed()
        },
        _ => if stays_as_it_is(r, event) {
            r.buf.consumed()
        } else {
            0
        },
    }
}

/// How many bytes are free at the tail of the buffer after `event`.
pub open spec fn free_after(r: RemoteSocket, event: DataEvent) -> int {
    match event {
        DataEvent::Received(n) => if n > 0 && !r.has_handler && is_fifo(r.socket_type)
            && incomplete_line(arrived(r, n)).len() == 0 {
            SOCKET_BUFFER_SIZE as int
        } else {
            r.buf.spare().len() - n
        },
        _ => if stays_as_it_is(r, event) {
            r.buf.spare().len() as int
        } else {
            SOCKET_BUFFER_SIZE - buffered_after(r, event).len()
        },
    }
}

/// Whether a buffer lies as it must once complete lines were taken off its front: what is
/// left was not moved, and a buffer that is drained starts again at the front.
pub open spec fn lines_taken(before: RemoteSocket, after: RemoteSocket) -> bool {
    if after.buf@.len() > 0 {
        &&& after.buf.consumed() == before.buf.consumed() + before.buf@.len() - after.buf@.len()
        &&& after.buf.spare() == before.buf.spare()
    } else {
        &&& after.buf.consumed() == 0
        &&& after.buf.spare().len() == SOCKET_BUFFER_SIZE
    }
}

/// The descriptors of the sockets, without the one at `source`, that take what the
/// container prints.
fn find_attached_fds(sockets: &[Socket], source: usize) -> (fds: Vec<i32>)
    ensures
        fds@ == attached_fds(sockets@, source as int, sockets@.len()),
{
    let mut fds: Vec<i32> = Vec::new();
    let mut n: usize = 0;
    while n < sockets.len()
        invariant
            n <= sockets@.len(),
            fds@ == attached_fds(sockets@, source as int, n as nat),
        decreases sockets@.len() - n,
    {
        if n != source {
            if let Socket::Remote(peer) = &sockets[n] {
                if peer.socket_type == SocketType::Console {
                    fds.push(peer.fd);
                }
            }
        }
        n = n + 1;
    }
    fds
}

/// The descriptors of the sockets, without the one at `source`, that take what is
/// typed for the container.
fn find_terminal_fds(sockets: &[Socket], source: usize) -> (fds: Vec<i32>)
    ensures
        fds@ == terminal_fds(sockets@, source as int, sockets@.len()),
{
    let mut fds: Vec<i32> = Vec::new();
    let mut n: usize = 0;
    while n < sockets.len()
        invariant
            n <= sockets@.len(),
            fds@ == terminal_fds(sockets@, source as int, n as nat),
        decreases sockets@.len() - n,
    {
        if n != source {
            if let Socket::Remote(peer) = &sockets[n] {
                if peer.socket_type == SocketType::Terminal && !peer.read_closed {
                    fds.push(peer.fd);
                }
            }
        }
        n = n + 1;
    }
    fds
}

/// The descriptor of the first socket of a type, without the one at `source`.
fn find_first_fd(sockets: &[Socket], source: usize, socket_type: SocketType) -> (fd: Option<i32>)
    ensures
        fd == first_fd_from(sockets@, source as int, socket_type, 0),
{
    let mut n: usize = 0;
    while n < sockets.len()
        invariant
            n <= sockets@.len(),
            first_fd_from(sockets@, source as int, socket_type, 0) == first_fd_from(
                sockets@,
                source as int,
                socket_type,
                n as nat,
            ),
        decreases sockets@.len() - n,
    {
        if n != source {
            if let Socket::Remote(peer) = &sockets[n] {
                if peer.socket_type == socket_type {
                    return Some(peer.fd);
                }
            }
        }
        n = n + 1;
    }
    None
}

/// The descriptor whose window is resized.
fn find_resize_target(sockets: &[Socket], source: usize) -> (fd: Option<i32>)
    ensures
        fd == resize_target(sockets@, source as int),
{
    match find_first_fd(sockets, source, SocketType::Terminal) {
        Some(fd) => Some(fd),
        None => find_first_fd(sockets, source, SocketType::Stdout),
    }
}

/// Appends one packet with the chunk for each descriptor.
fn push_round(actions: &mut Vec<Action>, prefix: u8, chunk: &[u8], fds: &Vec<i32>)
    ensures
        action_views(final(actions)@) == action_views(old(actions)@) + packet_round(
            prefix,
            chunk@,
            fds@,
        ),
{
    let mut k: usize = 0;
    while k < fds.len()
        invariant
            k <= fds@.len(),
            action_views(actions@) == action_views(old(actions)@) + packet_round(
                prefix,
                chunk@,
                fds@.take(k as int),
            ),
        decreases fds@.len() - k,
    {
        let ghost before = actions@;
        actions.push(Action::Packet { fd: fds[k], prefix, chunk: copy_bytes(chunk) });
        proof {
            assert(action_views(actions@) =~= action_views(before).push(actions@.last()@));
            assert(fds@.take(k + 1) =~= fds@.take(k as int).push(fds@[k as int]));
            assert(packet_round(prefix, chunk@, fds@.take(k + 1)) =~= packet_round(
                prefix,
                chunk@,
                fds@.take(k as int),
            ).push(actions@.last()@));
        }
        k = k + 1;
    }
    assert(fds@.take(k as int) =~= fds@);
    assert(action_views(actions@) =~= action_views(old(actions)@) + packet_round(
        prefix,
        chunk@,
        fds@,
    ));
}

/// What is done with data that the container has printed.
fn make_output_actions(
    sockets: &[Socket],
    source: usize,
    socket_type: SocketType,
    data: &[u8],
) -> (actions: Vec<Action>)
    ensures
        action_views(actions@) == output_actions(sockets@, source as int, socket_type, data@),
{
    // Forward data to logs.
    let is_stderr: bool = socket_type == SocketType::Stderr;
    let mut actions: Vec<Action> = Vec::new();
    actions.push(Action::Log { stdout: !is_stderr, data: copy_bytes(data) });

    // Forward data to remote sockets attached to `attach` socket. The data is prefixed
    // with single byte indicating whether it is stdout or stderr.
    let prefix: u8 = if is_stderr {
        STDERR_PREFIX
    } else {
        STDOUT_PREFIX
    };
    let fds = find_attached_fds(sockets, source);

    // We send data in chunks, because our buffer has 32768 bytes while podman's buffer has
    // 8192+1 bytes. It would be nice to unify that, but we need to keep the backwards
    // compatibility for now. We also have to keep using SOCKET_SEQPACKET and therefore
    // everything needs to be sent in a single packet.
    let mut sent: usize = 0;
    proof {
        assert(data@.skip(0) =~= data@);
        assert(action_views(actions@) =~= seq![
            ActionView::Log { stdout: !is_stderr, data: data@ },
        ]);
        assert(output_actions(sockets@, source as int, socket_type, data@) =~= action_views(
            actions@,
        ) + packets(prefix, data@.skip(0), fds@));
    }
    while sent < data.len()
        invariant
            sent <= data@.len(),
            output_actions(sockets@, source as int, socket_type, data@) == action_views(actions@)
                + packets(prefix, data@.skip(sent as int), fds@),
        decreases data@.len() - sent,
    {
        let rest: usize = data.len() - sent;
        let size: usize = if rest < CONMON_CLIENT_BUFFER_SIZE {
            rest
        } else {
            CONMON_CLIENT_BUFFER_SIZE
        };
        let chunk = &data[sent..sent + size];
        let ghost before = action_views(actions@);
        push_round(&mut actions, prefix, chunk, &fds);
        proof {
            let left = data@.skip(sent as int);
            assert(chunk_size(left) == size);
            assert(left.take(size as int) =~= chunk@);
            assert(left.skip(size as int) =~= data@.skip(sent + size));
            assert(before + packets(prefix, left, fds@) =~= action_views(actions@) + packets(
                prefix,
                data@.skip(sent + size),
                fds@,
            ));
        }
        sent = sent + size;
    }
    proof {
        assert(packets(prefix, data@.skip(sent as int), fds@) =~= Seq::empty());
        assert(action_views(actions@) + Seq::<ActionView>::empty() =~= action_views(actions@));
    }
    actions
}

/// What is done with data that was typed for the container.
fn make_input_actions(
    sockets: &[Socket],
    source: usize,
    stdin: Option<i32>,
    data: &[u8],
) -> (actions: Vec<Action>)
    ensures
        action_views(actions@) == input_actions(sockets@, source as int, stdin, data@),
{
    let mut actions: Vec<Action> = Vec::new();
    // Console socket: forward data to container's stdin.
    if let Some(fd) = stdin {
        actions.push(Action::Write { fd, data: copy_bytes(data) });
    }
    let ghost first = action_views(actions@);
    // Forward data to terminal.
    let fds = find_terminal_fds(sockets, source);
    let mut k: usize = 0;
    assert(action_views(actions@) =~= first + writes(data@, fds@.take(0)));
    while k < fds.len()
        invariant
            k <= fds@.len(),
            action_views(actions@) == first + writes(data@, fds@.take(k as int)),
        decreases fds@.len() - k,
    {
        let ghost before = actions@;
        actions.push(Action::Write { fd: fds[k], data: copy_bytes(data) });
        proof {
            assert(action_views(actions@) =~= action_views(before).push(actions@.last()@));
            assert(fds@.take(k + 1) =~= fds@.take(k as int).push(fds@[k as int]));
            assert(writes(data@, fds@.take(k + 1)) =~= writes(data@, fds@.take(k as int)).push(
                actions@.last()@,
            ));
        }
        k = k + 1;
    }
    proof {
        assert(fds@.take(k as int) =~= fds@);
        assert(action_views(actions@) =~= input_actions(sockets@, source as int, stdin, data@));
    }
    actions
}

/// What is done with a notify datagram.
fn make_notify_actions(sdnotify: &Option<Vec<u8>>, data: &[u8]) -> (actions: Vec<Action>)
    ensures
        action_views(actions@) == notify_actions(bytes_view(*sdnotify), data@),
{
    let mut actions: Vec<Action> = Vec::new();
    // Relay whitelisted sd-notify lines from the container to the host. Some messages
    // (e.g. BARRIER=1) are intentionally dropped.
    if let Some(path) = sdnotify {
        let payload = filter_notify_payload(data);
        if !payload.is_empty() {
            actions.push(Action::Notify { path: copy_bytes(path.as_slice()), payload });
        }
    }
    assert(action_views(actions@) =~= notify_actions(bytes_view(*sdnotify), data@));
    actions
}

/// What is done with a first line comes before what is done with the lines after it.
proof fn lemma_line_taken(
    done: Seq<ActionView>,
    socket_type: SocketType,
    target: Option<i32>,
    buffered: Seq<u8>,
    line: Seq<u8>,
)
    requires
        first_line(buffered) == Some(line),
    ensures
        ({
            let rest = buffered.skip(line.len() as int);
            &&& incomplete_line(buffered) == incomplete_line(rest)
            &&& done + line_actions(socket_type, target, buffered) == (done + line_action(
                socket_type,
                target,
                line,
            )) + line_actions(socket_type, target, rest)
        }),
{
    let rest = buffered.skip(line.len() as int);
    assert(done + line_actions(socket_type, target, buffered) =~= (done + line_action(
        socket_type,
        target,
        line,
    )) + line_actions(socket_type, target, rest));
}

/// Takes all complete control lines off a socket, and says what is done with them.
///
/// Invalid UTF-8 is logged and skipped like other malformed control lines, so one bad line
/// cannot abort the stdio event loop.
#[verifier::spinoff_prover]
#[verifier::rlimit(40)]
fn take_line_actions(r: &mut RemoteSocket, target: Option<i32>) -> (actions: Vec<Action>)
    ensures
        final(r).same_but_buffer(*old(r)),
        final(r).buf@ == incomplete_line(old(r).buf@),
        old(r).buf@.len() > 0 ==> lines_taken(*old(r), *final(r)),
        action_views(actions@) == line_actions(old(r).socket_type, target, old(r).buf@),
{
    let mut actions: Vec<Action> = Vec::new();
    let mut more: bool = true;
    assert(action_views(actions@) + line_actions(r.socket_type, target, r.buf@) =~= line_actions(
        r.socket_type,
        target,
        r.buf@,
    ));
    while more
        invariant
            r.same_but_buffer(*old(r)),
            old(r).buf@.len() > 0 ==> lines_taken(*old(r), *r),
            r.buf@.len() <= old(r).buf@.len(),
            incomplete_line(r.buf@) == incomplete_line(old(r).buf@),
            action_views(actions@) + line_actions(r.socket_type, target, r.buf@) == line_actions(
                old(r).socket_type,
                target,
                old(r).buf@,
            ),
            !more ==> first_line(r.buf@) is None,
        decreases
                (if more {
                    r.buf@.len() + 1
                } else {
                    0
                }),
    {
        let ghost buffered = r.buf@;
        let ghost before = actions@;
        proof {
            lemma_first_newline(buffered);
        }
        match r.next_line() {
            Ok(Some(line)) => {
                if let Some(fd) = target {
                    if r.socket_type == SocketType::TerminalFifo {
                        actions.push(Action::TerminalLine { fd, line });
                    } else {
                        actions.push(Action::WindowLine { fd, line });
                    }
                }
            },
            Ok(None) => {
                more = false;
            },
            Err(err) => {
                actions.push(Action::Warn(join2("failed to decode control line: ", err.message())));
            },
        }
        proof {
            if let Some(bytes) = first_line(buffered) {
                let done = line_action(r.socket_type, target, bytes);
                assert(action_views(actions@) =~= action_views(before) + done);
                lemma_line_taken(action_views(before), r.socket_type, target, buffered, bytes);
            }
        }
    }
    assert(action_views(actions@) + Seq::<ActionView>::empty() =~= action_views(actions@));
    actions
}

/// Deals with data that arrived on the socket at `source`, which has no handler.
fn dispatch(
    sockets: &mut [Socket],
    source: usize,
    stdin: Option<i32>,
    sdnotify: &Option<Vec<u8>>,
) -> (step: DataStep)
    requires
        source < old(sockets)@.len(),
        old(sockets)@[source as int] is Remote,
    ensures
        ({
            let r = old(sockets)@[source as int]->Remote_0;
            &&& final(sockets)@.len() == old(sockets)@.len()
            &&& forall|j: int|
                0 <= j < old(sockets)@.len() && j != source ==> final(sockets)@[j] == old(
                    sockets,
                )@[j]
            &&& final(sockets)@[source as int] matches Socket::Remote(after) && {
                &&& after.same_but_buffer(r)
                &&& after.buf@ == (if is_fifo(r.socket_type) {
                    incomplete_line(r.buf@)
                } else {
                    r.buf@
                })
                &&& !is_fifo(r.socket_type) ==> after == r
                &&& is_fifo(r.socket_type) && r.buf@.len() > 0 ==> lines_taken(r, after)
            }
            &&& step@ == dispatched(
                old(sockets)@,
                source as int,
                r.socket_type,
                r.buf@,
                stdin,
                bytes_view(*sdnotify),
            )
        }),
{
    let target = find_resize_target(sockets, source);
    if let Socket::Remote(r) = &mut sockets[source] {
        if r.socket_type == SocketType::TerminalFifo || r.socket_type == SocketType::ConsoleFifo {
            return DataStep::Perform(take_line_actions(r, target));
        }
    }
    assert(sockets@ =~= old(sockets)@);
    if let Socket::Remote(r) = &sockets[source] {
        let data = r.buf.data();
        match r.socket_type {
            SocketType::Stdout | SocketType::Stderr | SocketType::Terminal => DataStep::Perform(
                make_output_actions(sockets, source, r.socket_type, data),
            ),
            SocketType::Console => DataStep::Perform(
                make_input_actions(sockets, source, stdin, data),
            ),
            SocketType::Notify => DataStep::Perform(make_notify_actions(sdnotify, data)),
            _ => DataStep::Done(true),
        }
    } else {
        DataStep::Done(true)
    }
}

/// Whether two lists of sockets agree but for the socket at `source`.
pub open spec fn same_but_source(a: Seq<Socket>, b: Seq<Socket>, source: int) -> bool {
    &&& a.len() == b.len()
    &&& forall|j: int| 0 <= j < a.len() && j != source ==> a[j] == b[j]
}

/// The socket at which data arrived does not count among its peers.
proof fn lemma_peers_without_source(a: Seq<Socket>, b: Seq<Socket>, source: int, n: nat)
    requires
        same_but_source(a, b, source),
        n <= a.len(),
    ensures
        attached_fds(a, source, n) == attached_fds(b, source, n),
        terminal_fds(a, source, n) == terminal_fds(b, source, n),
    decreases n,
{
    if n > 0 {
        lemma_peers_without_source(a, b, source, (n - 1) as nat);
        if n - 1 != source {
            assert(a[n - 1] == b[n - 1]);
        }
    }
}

proof fn lemma_first_fd_without_source(
    a: Seq<Socket>,
    b: Seq<Socket>,
    source: int,
    socket_type: SocketType,
    n: nat,
)
    requires
        same_but_source(a, b, source),
    ensures
        first_fd_from(a, source, socket_type, n) == first_fd_from(b, source, socket_type, n),
    decreases a.len() - n,
{
    if n < a.len() {
        lemma_first_fd_without_source(a, b, source, socket_type, n + 1);
        if n != source {
            assert(a[n as int] == b[n as int]);
        }
    }
}

fn read_error_step(err: &ConmonError) -> (step: DataStep)
    ensures
        step@ == read_error(err@.message),
{
    let mut actions: Vec<Action> = Vec::new();
    actions.push(Action::Error(join2("read error: ", err.message())));
    assert(action_views(actions@) =~= seq![ActionView::Error("read error: "@ + err@.message)]);
    DataStep::Perform(actions)
}

/// Pairs a new socket for sd-notify with the address it sends to.
///
/// This socket is later used to forward messages to systemd.
///
/// # Arguments
///
/// * `fd` - The socket.
/// * `socket_path` - Path to `notify.sock`.
///
/// # Returns
///
/// * (created socket, addr)
pub fn make_notify_socket_and_addr(fd: i32, socket_path: &[u8]) -> (pair: Result<
    (i32, UnixAddr),
    AddrFailure,
>)
    ensures
        match pair {
            Ok((socket, addr)) => {
                &&& socket == fd
                &&& unix_addr_path(addr) == socket_path@
                &&& !socket_path@.contains(0u8)
                &&& socket_path@.len() < SUN_PATH_LEN
            },
            Err(AddrFailure::Invalid) => socket_path@.contains(0u8),
            Err(AddrFailure::NameTooLong) => !socket_path@.contains(0u8) && socket_path@.len()
                >= SUN_PATH_LEN,
        },
{
    match unix_addr(socket_path) {
        Ok(addr) => Ok((fd, addr)),
        Err(why) => Err(why),
    }
}

impl Socket {
    /// Handles the POLLIN event for the socket at `sockets[i]`.
    ///
    /// # Arguments
    ///
    /// * `sockets` - The full poll set; `sockets[i]` is the source to read from.
    /// * `new_sockets` - Vector into which newly created RemoteSocket can be added into.
    /// * `workerfd_stdin` - The container's stdin.
    /// * `sdnotify_socket` - Path to systemd's "notify.sock".
    /// * `event` - What happened on the socket.
    pub fn handle_data(
        sockets: &mut [Socket],
        i: usize,
        new_sockets: &mut Vec<RemoteSocket>,
        workerfd_stdin: Option<i32>,
        sdnotify_socket: &Option<Vec<u8>>,
        event: DataEvent,
    ) -> (step: ConmonResult<DataStep>)
        requires
            i < old(sockets)@.len(),
            can_happen(old(sockets)@[i as int], event),
        ensures
            result_view(step) == data_outcome(
                old(sockets)@,
                i as int,
                workerfd_stdin,
                bytes_view(*sdnotify_socket),
                event,
            ),
            same_but_source(final(sockets)@, old(sockets)@, i as int),
            match old(sockets)@[i as int] {
                Socket::Remote(r) => final(sockets)@[i as int] matches Socket::Remote(after) && {
                    &&& after.same_but_buffer(r)
                    &&& after.buf@ == buffered_after(r, event)
                    &&& stays_as_it_is(r, event) ==> after == r
                    &&& after.buf.consumed() == consumed_after(r, event)
                    &&& after.buf.spare().len() == free_after(r, event)
                    &&& event is Start && r.buf@.len() < SOCKET_BUFFER_SIZE
                        ==> after.buf.spare().len() > 0
                },
                _ => final(sockets)@[i as int] == old(sockets)@[i as int],
            },
            match event {
                DataEvent::Accepted(fd) => {
                    &&& final(new_sockets)@.len() == old(new_sockets)@.len() + 1
                    &&& final(new_sockets)@.drop_last() == old(new_sockets)@
                    &&& final(new_sockets)@.last().fresh(
                        old(sockets)@[i as int]->Unix_0.socket_type,
                        fd,
                    )
                },
                _ => *final(new_sockets) == *old(new_sockets),
            },
    {
        if let DataEvent::Failed(e) = event {
            return Err(e);
        }
        match &mut sockets[i] {
            Socket::Unix(l) => {
                // Unix socket. Just `accept` new client connection and return.
                let accept_event = match event {
                    DataEvent::Accepted(fd) => AcceptEvent::Accepted(fd),
                    DataEvent::AcceptFailed(failed) => AcceptEvent::Failed(failed),
                    _ => AcceptEvent::Start,
                };
                match l.accept(accept_event) {
                    Ok(AcceptStep::Accept(fd)) => {
                        return Ok(DataStep::Accept(fd));
                    },
                    Ok(AcceptStep::Done(Some(remote))) => {
                        new_sockets.push(remote);
                        assert(new_sockets@.drop_last() =~= old(new_sockets)@);
                        return Ok(DataStep::Done(true));
                    },
                    Ok(AcceptStep::Done(None)) => {
                        return Ok(DataStep::Done(true));
                    },
                    Err(e) => {
                        return Err(e);
                    },
                }
            },
            Socket::Remote(r) => {
                let read_event = match event {
                    DataEvent::Start => ReadEvent::Start,
                    DataEvent::Received(n) => ReadEvent::Received(n),
                    DataEvent::ReadFailed(failed) => ReadEvent::Failed(failed),
                    DataEvent::HandlerReturned(keep) => {
                        return Ok(DataStep::Done(keep));
                    },
                    _ => {
                        match r.socket_type {
                            SocketType::Stdout
                            | SocketType::Stderr
                            | SocketType::Terminal
                            | SocketType::Console
                            | SocketType::Notify => {
                                r.clear_buffer();
                            },
                            _ => {},
                        }
                        return Ok(DataStep::Done(true));
                    },
                };
                // Client socket. Read what has been sent to it.
                match r.read(read_event) {
                    Ok(ReadStep::Call(call)) => {
                        return Ok(DataStep::Read(call));
                    },
                    Ok(ReadStep::Done(bytes_read)) => {
                        if bytes_read == 0 {
                            return Ok(DataStep::Done(false));
                        }
                        // If the Socket has a handler, call the handler directly and return.
                        if r.has_handler {
                            return Ok(DataStep::CallHandler);
                        }
                    },
                    Err(err) => {
                        r.clear_buffer();
                        return Ok(read_error_step(&err));
                    },
                }
            },
            Socket::Signal(_) => {
                return Ok(DataStep::Done(true));
            },
        }
        proof {
            let before = old(sockets)@;
            lemma_peers_without_source(sockets@, before, i as int, before.len());
            lemma_first_fd_without_source(sockets@, before, i as int, SocketType::Terminal, 0);
            lemma_first_fd_without_source(sockets@, before, i as int, SocketType::Stdout, 0);
        }
        Ok(dispatch(sockets, i, workerfd_stdin, sdnotify_socket))
    }
}

/// What the packets of a list carry to a descriptor, put together.
pub open spec fn delivered(actions: Seq<ActionView>, fd: i32) -> Seq<u8>
    decreases actions.len(),
{
    if actions.len() == 0 {
        Seq::empty()
    } else {
        let before = delivered(actions.drop_last(), fd);
        match actions.last() {
            ActionView::Packet { fd: to, prefix: _, chunk } => if to == fd {
                before + chunk
            } else {
                before
            },
            _ => before,
        }
    }
}

proof fn lemma_delivered_concat(a: Seq<ActionView>, b: Seq<ActionView>, fd: i32)
    ensures
        delivered(a + b, fd) == delivered(a, fd) + delivered(b, fd),
    decreases b.len(),
{
    if b.len() == 0 {
        assert(a + b =~= a);
        assert(delivered(a, fd) + delivered(b, fd) =~= delivered(a, fd));
    } else {
        assert((a + b).drop_last() =~= a + b.drop_last());
        assert((a + b).last() == b.last());
        lemma_delivered_concat(a, b.drop_last(), fd);
        assert(delivered(a + b, fd) =~= delivered(a, fd) + delivered(b, fd));
    }
}

proof fn lemma_delivered_round(prefix: u8, chunk: Seq<u8>, fds: Seq<i32>, fd: i32)
    requires
        fds.no_duplicates(),
    ensures
        delivered(packet_round(prefix, chunk, fds), fd) == (if fds.contains(fd) {
            chunk
        } else {
            Seq::empty()
        }),
    decreases fds.len(),
{
    let round = packet_round(prefix, chunk, fds);
    if fds.len() > 0 {
        let rest = fds.drop_last();
        assert(round.drop_last() =~= packet_round(prefix, chunk, rest));
        assert(round.last() == ActionView::Packet { fd: fds.last(), prefix, chunk });
        lemma_delivered_round(prefix, chunk, rest, fd);
        if fds.last() == fd {
            assert(fds[fds.len() - 1] == fd);
            assert(!rest.contains(fd)) by {
                if rest.contains(fd) {
                    let k = choose|k: int| 0 <= k < rest.len() && rest[k] == fd;
                    assert(fds[k] == fd);
                }
            }
            assert(Seq::<u8>::empty() + chunk =~= chunk);
        } else if fds.contains(fd) {
            let k = choose|k: int| 0 <= k < fds.len() && fds[k] == fd;
            assert(rest[k] == fd);
        } else if rest.contains(fd) {
            let k = choose|k: int| 0 <= k < rest.len() && rest[k] == fd;
            assert(fds[k] == fd);
        }
    }
}

/// Everyone who is attached gets all that the container has printed, in order: the
/// chunks of the packets for a descriptor make up the data.
pub proof fn law_packets_carry_data(prefix: u8, data: Seq<u8>, fds: Seq<i32>, fd: i32)
    requires
        fds.no_duplicates(),
        fds.contains(fd),
    ensures
        delivered(packets(prefix, data, fds), fd) == data,
    decreases data.len(),
{
    if data.len() > 0 {
        let size = chunk_size(data);
        lemma_delivered_concat(
            packet_round(prefix, data.take(size), fds),
            packets(prefix, data.skip(size), fds),
            fd,
        );
        lemma_delivered_round(prefix, data.take(size), fds, fd);
        law_packets_carry_data(prefix, data.skip(size), fds, fd);
        assert(data.take(size) + data.skip(size) =~= data);
    }
}

/// Every packet fits the buffer of the client: at most 8192 bytes and the prefix. No
/// packet is without data, and each goes to one of the descriptors.
pub proof fn law_packets_fit_client(prefix: u8, data: Seq<u8>, fds: Seq<i32>)
    ensures
        forall|k: int|
            0 <= k < packets(prefix, data, fds).len() ==> (#[trigger] packets(
                prefix,
                data,
                fds,
            )[k] matches ActionView::Packet { fd, prefix: p, chunk } && p == prefix && 0
                < chunk.len() <= CONMON_CLIENT_BUFFER_SIZE && fds.contains(fd)),
    decreases data.len(),
{
    if data.len() > 0 {
        let size = chunk_size(data);
        let round = packet_round(prefix, data.take(size), fds);
        let rest = packets(prefix, data.skip(size), fds);
        law_packets_fit_client(prefix, data.skip(size), fds);
        let all = packets(prefix, data, fds);
        assert forall|k: int| 0 <= k < all.len() implies (#[trigger] all[k] matches
            ActionView::Packet { fd, prefix: p, chunk } && p == prefix && 0 < chunk.len()
            <= CONMON_CLIENT_BUFFER_SIZE && fds.contains(fd)) by {
            if k < round.len() {
                assert(all[k] == round[k]);
                assert(fds.contains(fds[k]));
            } else {
                assert(all[k] == rest[k - round.len()]);
            }
        }
    }
}

/// It does not matter in how many pieces control lines arrive: dealing with what is
/// there and then with the rest is dealing with all of it.
pub proof fn law_lines_in_pieces(
    socket_type: SocketType,
    target: Option<i32>,
    first: Seq<u8>,
    more: Seq<u8>,
)
    ensures
        line_actions(socket_type, target, first + more) == line_actions(socket_type, target, first)
            + line_actions(socket_type, target, incomplete_line(first) + more),
        incomplete_line(first + more) == incomplete_line(incomplete_line(first) + more),
    decreases first.len(),
{
    lemma_first_newline(first);
    if let Some(line) = first_line(first) {
        let rest = first.skip(line.len() as int);
        law_first_line_stable(first, more);
        assert((first + more).skip(line.len() as int) =~= rest + more);
        law_lines_in_pieces(socket_type, target, rest, more);
        assert(line_actions(socket_type, target, first + more) =~= line_actions(
            socket_type,
            target,
            first,
        ) + line_actions(socket_type, target, incomplete_line(first) + more));
    } else {
        assert(Seq::<ActionView>::empty() + line_actions(socket_type, target, first + more)
            =~= line_actions(socket_type, target, first + more));
    }
}

/// A control line that is no text only brings a warning: what is done with the lines after
/// it is what would have been done without it.
pub proof fn law_bad_line_is_skipped(
    socket_type: SocketType,
    target: Option<i32>,
    line: Seq<u8>,
    rest: Seq<u8>,
)
    requires
        first_line(line) == Some(line),
        !valid_utf8(line),
    ensures
        line_actions(socket_type, target, line + rest) == seq![
            ActionView::Warn(bad_line_warning(line)),
        ] + line_actions(socket_type, target, rest),
        incomplete_line(line + rest) == incomplete_line(rest),
{
    law_first_line_stable(line, rest);
    assert((line + rest).skip(line.len() as int) =~= rest);
}

/// Whether the socket at an index is a remote one of a type, and not the one at `source`.
pub open spec fn is_peer(
    sockets: Seq<Socket>,
    source: int,
    j: int,
    socket_type: SocketType,
) -> bool {
    &&& 0 <= j < sockets.len()
    &&& j != source
    &&& sockets[j] matches Socket::Remote(peer) && peer.socket_type == socket_type
}

/// Whether no two peers of a type have the same descriptor.
pub open spec fn distinct_peers(
    sockets: Seq<Socket>,
    source: int,
    socket_type: SocketType,
) -> bool {
    forall|a: int, b: int|
        #[trigger] is_peer(sockets, source, a, socket_type) && #[trigger] is_peer(
            sockets,
            source,
            b,
            socket_type,
        ) && a != b ==> sockets[a]->Remote_0.fd != sockets[b]->Remote_0.fd
}

/// What the packets of a list carry to a descriptor, one by one.
pub open spec fn chunks_for(actions: Seq<ActionView>, fd: i32) -> Seq<Seq<u8>>
    decreases actions.len(),
{
    if actions.len() == 0 {
        Seq::empty()
    } else {
        let before = chunks_for(actions.drop_last(), fd);
        match actions.last() {
            ActionView::Packet { fd: to, prefix: _, chunk } => if to == fd {
                before.push(chunk)
            } else {
                before
            },
            _ => before,
        }
    }
}

proof fn lemma_chunks_concat(a: Seq<ActionView>, b: Seq<ActionView>, fd: i32)
    ensures
        chunks_for(a + b, fd) == chunks_for(a, fd) + chunks_for(b, fd),
    decreases b.len(),
{
    if b.len() == 0 {
        assert(a + b =~= a);
        assert(chunks_for(a, fd) + chunks_for(b, fd) =~= chunks_for(a, fd));
    } else {
        assert((a + b).drop_last() =~= a + b.drop_last());
        assert((a + b).last() == b.last());
        lemma_chunks_concat(a, b.drop_last(), fd);
        assert(chunks_for(a + b, fd) =~= chunks_for(a, fd) + chunks_for(b, fd));
    }
}

proof fn lemma_chunks_round(prefix: u8, chunk: Seq<u8>, fds: Seq<i32>, fd: i32)
    requires
        fds.no_duplicates(),
    ensures
        chunks_for(packet_round(prefix, chunk, fds), fd) == (if fds.contains(fd) {
            seq![chunk]
        } else {
            Seq::empty()
        }),
    decreases fds.len(),
{
    let round = packet_round(prefix, chunk, fds);
    if fds.len() > 0 {
        let rest = fds.drop_last();
        assert(round.drop_last() =~= packet_round(prefix, chunk, rest));
        assert(round.last() == ActionView::Packet { fd: fds.last(), prefix, chunk });
        lemma_chunks_round(prefix, chunk, rest, fd);
        if fds.last() == fd {
            assert(fds[fds.len() - 1] == fd);
            assert(!rest.contains(fd)) by {
                if rest.contains(fd) {
                    let k = choose|k: int| 0 <= k < rest.len() && rest[k] == fd;
                    assert(fds[k] == fd);
                }
            }
            assert(Seq::<Seq<u8>>::empty().push(chunk) =~= seq![chunk]);
        } else if fds.contains(fd) {
            let k = choose|k: int| 0 <= k < fds.len() && fds[k] == fd;
            assert(rest[k] == fd);
        } else if rest.contains(fd) {
            let k = choose|k: int| 0 <= k < rest.len() && rest[k] == fd;
            assert(fds[k] == fd);
        }
    }
}

/// Whether chunks are the successive pieces of data, each of 8192 bytes but for the last.
pub open spec fn cut_into_chunks(chunks: Seq<Seq<u8>>, data: Seq<u8>) -> bool {
    &&& chunks.len() == (data.len() + 8191) / 8192
    &&& forall|k: int|
        0 <= k < chunks.len() ==> #[trigger] chunks[k] == data.subrange(
            8192 * k,
            if 8192 * (k + 1) <= data.len() {
                8192 * (k + 1)
            } else {
                data.len() as int
            },
        )
}

proof fn lemma_packets_cut_data(prefix: u8, data: Seq<u8>, fds: Seq<i32>, fd: i32)
    requires
        fds.no_duplicates(),
        fds.contains(fd),
    ensures
        cut_into_chunks(chunks_for(packets(prefix, data, fds), fd), data),
    decreases data.len(),
{
    if data.len() > 0 {
        let size = chunk_size(data);
        let rest = data.skip(size);
        let first = packet_round(prefix, data.take(size), fds);
        let chunks = chunks_for(packets(prefix, data, fds), fd);
        let later = chunks_for(packets(prefix, rest, fds), fd);
        lemma_chunks_concat(first, packets(prefix, rest, fds), fd);
        lemma_chunks_round(prefix, data.take(size), fds, fd);
        lemma_packets_cut_data(prefix, rest, fds, fd);
        assert(chunks == seq![data.take(size)] + later);
        assert forall|k: int| 0 <= k < chunks.len() implies #[trigger] chunks[k] == data.subrange(
            8192 * k,
            if 8192 * (k + 1) <= data.len() {
                8192 * (k + 1)
            } else {
                data.len() as int
            },
        ) by {
            if k == 0 {
                assert(data.take(size) =~= data.subrange(0, size));
            } else {
                assert(chunks[k] == later[k - 1]);
                let end = if 8192 * k <= rest.len() {
                    8192 * k
                } else {
                    rest.len() as int
                };
                assert(later[k - 1] == rest.subrange(8192 * (k - 1), end));
                assert(rest.subrange(8192 * (k - 1), end) =~= data.subrange(
                    8192 * k,
                    end + 8192,
                ));
            }
        }
    }
}

proof fn lemma_attached_fds(sockets: Seq<Socket>, source: int, n: nat)
    requires
        n <= sockets.len(),
    ensures
        forall|j: int|
            j < n && #[trigger] is_peer(sockets, source, j, SocketType::Console) ==> attached_fds(
                sockets,
                source,
                n,
            ).contains(sockets[j]->Remote_0.fd),
        forall|fd: i32| #[trigger]
            attached_fds(sockets, source, n).contains(fd) ==> exists|j: int|
                j < n && #[trigger] is_peer(sockets, source, j, SocketType::Console)
                    && sockets[j]->Remote_0.fd == fd,
        distinct_peers(sockets, source, SocketType::Console) ==> attached_fds(
            sockets,
            source,
            n,
        ).no_duplicates(),
    decreases n,
{
    if n > 0 {
        let rest = attached_fds(sockets, source, (n - 1) as nat);
        let all = attached_fds(sockets, source, n);
        lemma_attached_fds(sockets, source, (n - 1) as nat);
        let last = n - 1;
        if is_peer(sockets, source, last, SocketType::Console) {
            let fd = sockets[last]->Remote_0.fd;
            assert(all == rest.push(fd));
            assert(all[all.len() - 1] == fd);
            assert forall|other: i32| #[trigger] all.contains(other) implies exists|j: int|
                j < n && #[trigger] is_peer(sockets, source, j, SocketType::Console)
                    && sockets[j]->Remote_0.fd == other by {
                let k = choose|k: int| 0 <= k < all.len() && all[k] == other;
                if k < rest.len() {
                    assert(rest[k] == other);
                    assert(rest.contains(other));
                } else {
                    assert(is_peer(sockets, source, last, SocketType::Console));
                }
            }
            assert forall|j: int|
                j < n && #[trigger] is_peer(
                    sockets,
                    source,
                    j,
                    SocketType::Console,
                ) implies all.contains(sockets[j]->Remote_0.fd) by {
                if j < last {
                    let wanted = sockets[j]->Remote_0.fd;
                    assert(rest.contains(wanted));
                    let k = choose|k: int| 0 <= k < rest.len() && rest[k] == wanted;
                    assert(all[k] == wanted);
                }
            }
            if distinct_peers(sockets, source, SocketType::Console) {
                assert(!rest.contains(fd)) by {
                    if rest.contains(fd) {
                        let j = choose|j: int|
                            j < last && #[trigger] is_peer(
                                sockets,
                                source,
                                j,
                                SocketType::Console,
                            ) && sockets[j]->Remote_0.fd == fd;
                        assert(is_peer(sockets, source, last, SocketType::Console));
                    }
                }
                assert forall|a: int, b: int|
                    0 <= a < all.len() && 0 <= b < all.len() && a != b implies all[a]
                    != all[b] by {
                    if a < rest.len() {
                        assert(rest.contains(rest[a]));
                    }
                    if b < rest.len() {
                        assert(rest.contains(rest[b]));
                    }
                }
            }
        } else {
            assert(all == rest);
        }
    }
}

/// What the container prints reaches everyone who is attached. Whenever data arrives on its
/// stdout, its stderr or its terminal, it is logged as such, and each other remote socket of
/// the type Console is sent all of it, in order, in pieces of 8192 bytes but for the last,
/// each after a byte that tells stdout and the terminal (2) from stderr (3).
pub proof fn law_output_reaches_everyone_attached(
    sockets: Seq<Socket>,
    source: int,
    stdin: Option<i32>,
    sdnotify: Option<Seq<u8>>,
    n: usize,
    j: int,
)
    requires
        0 <= source < sockets.len(),
        sockets[source] is Remote,
        ({
            let r = sockets[source]->Remote_0;
            &&& r.socket_type == SocketType::Stdout || r.socket_type == SocketType::Stderr
                || r.socket_type == SocketType::Terminal
            &&& !r.has_handler
            &&& 0 < n <= r.buf.spare().len()
        }),
        is_peer(sockets, source, j, SocketType::Console),
        distinct_peers(sockets, source, SocketType::Console),
    ensures
        ({
            let r = sockets[source]->Remote_0;
            let data = r.buf@ + r.buf.spare().take(n as int);
            let fd = sockets[j]->Remote_0.fd;
            let outcome = data_outcome(sockets, source, stdin, sdnotify, DataEvent::Received(n));
            &&& outcome matches Ok(DataStepView::Perform(actions)) && {
                &&& delivered(actions, fd) == data
                &&& cut_into_chunks(chunks_for(actions, fd), data)
            }
        }),
{
    let r = sockets[source]->Remote_0;
    let data = arrived(r, n);
    let fd = sockets[j]->Remote_0.fd;
    let fds = attached_fds(sockets, source, sockets.len());
    lemma_attached_fds(sockets, source, sockets.len());
    let prefix = if r.socket_type == SocketType::Stderr {
        STDERR_PREFIX
    } else {
        STDOUT_PREFIX
    };
    let log = seq![ActionView::Log { stdout: r.socket_type != SocketType::Stderr, data }];
    assert(log.drop_last() =~= Seq::empty());
    assert(delivered(log.drop_last(), fd) =~= Seq::empty());
    assert(chunks_for(log.drop_last(), fd) =~= Seq::empty());
    assert(delivered(log, fd) =~= Seq::empty());
    assert(chunks_for(log, fd) =~= Seq::empty());
    lemma_delivered_concat(log, packets(prefix, data, fds), fd);
    lemma_chunks_concat(log, packets(prefix, data, fds), fd);
    law_packets_carry_data(prefix, data, fds, fd);
    lemma_packets_cut_data(prefix, data, fds, fd);
    assert(delivered(log + packets(prefix, data, fds), fd) =~= data);
    assert(chunks_for(log + packets(prefix, data, fds), fd) =~= chunks_for(
        packets(prefix, data, fds),
        fd,
    ));
}

/// What the container prints is logged whole, once and first, and then goes to nobody but
/// those who are attached: every other action is a packet for a remote socket of the type
/// Console other than the one it came from, after the byte for where it was printed.
pub proof fn law_output_goes_nowhere_else(
    sockets: Seq<Socket>,
    source: int,
    stdin: Option<i32>,
    sdnotify: Option<Seq<u8>>,
    n: usize,
)
    requires
        0 <= source < sockets.len(),
        sockets[source] is Remote,
        ({
            let r = sockets[source]->Remote_0;
            &&& r.socket_type == SocketType::Stdout || r.socket_type == SocketType::Stderr
                || r.socket_type == SocketType::Terminal
            &&& !r.has_handler
            &&& 0 < n <= r.buf.spare().len()
        }),
    ensures
        ({
            let r = sockets[source]->Remote_0;
            let data = r.buf@ + r.buf.spare().take(n as int);
            let outcome = data_outcome(sockets, source, stdin, sdnotify, DataEvent::Received(n));
            &&& outcome matches Ok(DataStepView::Perform(actions)) && {
                &&& actions.len() > 0
                &&& actions[0] == ActionView::Log {
                    stdout: r.socket_type != SocketType::Stderr,
                    data,
                }
                &&& forall|k: int|
                    0 < k < actions.len() ==> (#[trigger] actions[k] matches ActionView::Packet {
                        fd,
                        prefix,
                        chunk,
                    } && prefix == (if r.socket_type == SocketType::Stderr {
                        3u8
                    } else {
                        2u8
                    }) && 0 < chunk.len() <= 8192 && exists|j: int| #[trigger]
                        is_peer(sockets, source, j, SocketType::Console)
                            && sockets[j]->Remote_0.fd == fd)
            }
        }),
{
    let r = sockets[source]->Remote_0;
    let data = arrived(r, n);
    let fds = attached_fds(sockets, source, sockets.len());
    lemma_attached_fds(sockets, source, sockets.len());
    let prefix = if r.socket_type == SocketType::Stderr {
        STDERR_PREFIX
    } else {
        STDOUT_PREFIX
    };
    let sent = packets(prefix, data, fds);
    law_packets_fit_client(prefix, data, fds);
    let actions = output_actions(sockets, source, r.socket_type, data);
    assert forall|k: int| 0 < k < actions.len() implies (#[trigger] actions[k] matches
        ActionView::Packet { fd, prefix: p, chunk } && p == prefix && 0 < chunk.len() <= 8192
        && exists|j: int| #[trigger]
        is_peer(sockets, source, j, SocketType::Console) && sockets[j]->Remote_0.fd == fd) by {
        assert(actions[k] == sent[k - 1]);
    }
}

/// Whether the socket at an index is a terminal that is still read from, and not the one at
/// `source`.
pub open spec fn is_open_terminal_peer(sockets: Seq<Socket>, source: int, j: int) -> bool {
    is_peer(sockets, source, j, SocketType::Terminal) && !sockets[j]->Remote_0.read_closed
}

proof fn lemma_terminal_fds(sockets: Seq<Socket>, source: int, n: nat)
    requires
        n <= sockets.len(),
    ensures
        forall|j: int|
            j < n && #[trigger] is_open_terminal_peer(sockets, source, j) ==> terminal_fds(
                sockets,
                source,
                n,
            ).contains(sockets[j]->Remote_0.fd),
        forall|fd: i32| #[trigger]
            terminal_fds(sockets, source, n).contains(fd) ==> exists|j: int|
                j < n && #[trigger] is_open_terminal_peer(sockets, source, j)
                    && sockets[j]->Remote_0.fd == fd,
        distinct_peers(sockets, source, SocketType::Terminal) ==> terminal_fds(
            sockets,
            source,
            n,
        ).no_duplicates(),
    decreases n,
{
    if n > 0 {
        let rest = terminal_fds(sockets, source, (n - 1) as nat);
        let all = terminal_fds(sockets, source, n);
        lemma_terminal_fds(sockets, source, (n - 1) as nat);
        let last = n - 1;
        if is_open_terminal_peer(sockets, source, last) {
            let fd = sockets[last]->Remote_0.fd;
            assert(all == rest.push(fd));
            assert(all[all.len() - 1] == fd);
            assert forall|other: i32| #[trigger] all.contains(other) implies exists|j: int|
                j < n && #[trigger] is_open_terminal_peer(sockets, source, j)
                    && sockets[j]->Remote_0.fd == other by {
                let k = choose|k: int| 0 <= k < all.len() && all[k] == other;
                if k < rest.len() {
                    assert(rest[k] == other);
                    assert(rest.contains(other));
                } else {
                    assert(is_open_terminal_peer(sockets, source, last));
                }
            }
            assert forall|j: int|
                j < n && #[trigger] is_open_terminal_peer(
                    sockets,
                    source,
                    j,
                ) implies all.contains(sockets[j]->Remote_0.fd) by {
                if j < last {
                    let wanted = sockets[j]->Remote_0.fd;
                    assert(rest.contains(wanted));
                    let k = choose|k: int| 0 <= k < rest.len() && rest[k] == wanted;
                    assert(all[k] == wanted);
                }
            }
            if distinct_peers(sockets, source, SocketType::Terminal) {
                assert(!rest.contains(fd)) by {
                    if rest.contains(fd) {
                        let j = choose|j: int|
                            j < last && #[trigger] is_open_terminal_peer(sockets, source, j)
                                && sockets[j]->Remote_0.fd == fd;
                        assert(is_peer(sockets, source, last, SocketType::Terminal));
                        assert(is_peer(sockets, source, j, SocketType::Terminal));
                    }
                }
                assert forall|a: int, b: int|
                    0 <= a < all.len() && 0 <= b < all.len() && a != b implies all[a]
                    != all[b] by {
                    if a < rest.len() {
                        assert(rest.contains(rest[a]));
                    }
                    if b < rest.len() {
                        assert(rest.contains(rest[b]));
                    }
                }
            }
        } else {
            assert(all == rest);
        }
    }
}

/// The writes to terminals that are among `actions`, which come after a write to stdin.
pub open spec fn after_stdin(actions: Seq<ActionView>, stdin: Option<i32>) -> Seq<ActionView> {
    if stdin is Some {
        actions.skip(1)
    } else {
        actions
    }
}

/// What is typed on an attached client reaches the container. All of it is written to the
/// stdin of the container, first, if there is one, and then to every terminal that is still
/// open; it is written nowhere else, and nowhere twice.
pub proof fn law_input_reaches_the_container(
    sockets: Seq<Socket>,
    source: int,
    stdin: Option<i32>,
    sdnotify: Option<Seq<u8>>,
    n: usize,
    j: int,
    a: int,
    b: int,
)
    requires
        0 <= source < sockets.len(),
        sockets[source] is Remote,
        ({
            let r = sockets[source]->Remote_0;
            &&& r.socket_type == SocketType::Console
            &&& !r.has_handler
            &&& 0 < n <= r.buf.spare().len()
        }),
    ensures
        ({
            let r = sockets[source]->Remote_0;
            let data = r.buf@ + r.buf.spare().take(n as int);
            let outcome = data_outcome(sockets, source, stdin, sdnotify, DataEvent::Received(n));
            &&& outcome matches Ok(DataStepView::Perform(actions)) && {
                let rest = after_stdin(actions, stdin);
                &&& stdin is Some ==> actions.len() > 0 && actions[0] == ActionView::Write {
                    fd: stdin->0,
                    data,
                }
                &&& is_open_terminal_peer(sockets, source, j) ==> rest.contains(
                    ActionView::Write { fd: sockets[j]->Remote_0.fd, data },
                )
                &&& 0 <= a < rest.len() ==> exists|i: int| #[trigger]
                    is_open_terminal_peer(sockets, source, i) && rest[a] == ActionView::Write {
                        fd: sockets[i]->Remote_0.fd,
                        data,
                    }
                &&& distinct_peers(sockets, source, SocketType::Terminal) && 0 <= a < b
                    < rest.len() ==> rest[a] != rest[b]
            }
        }),
{
    let r = sockets[source]->Remote_0;
    let data = arrived(r, n);
    let fds = terminal_fds(sockets, source, sockets.len());
    lemma_terminal_fds(sockets, source, sockets.len());
    let actions = input_actions(sockets, source, stdin, data);
    let rest = after_stdin(actions, stdin);
    assert(rest =~= writes(data, fds));
    if is_open_terminal_peer(sockets, source, j) {
        let fd = sockets[j]->Remote_0.fd;
        assert(fds.contains(fd));
        let k = choose|k: int| 0 <= k < fds.len() && fds[k] == fd;
        assert(rest[k] == (ActionView::Write { fd, data }));
    }
    if 0 <= a < rest.len() {
        assert(fds.contains(fds[a]));
        assert(rest[a] == (ActionView::Write { fd: fds[a], data }));
    }
    if 0 <= b < rest.len() {
        assert(rest[b] == (ActionView::Write { fd: fds[b], data }));
    }
}

/// A notify datagram that holds anything for the host goes there as one message: if the host
/// has a notify socket and something of the datagram is relayed, all that is relayed of it is
/// sent there at once, and nothing else is done. Otherwise nothing is done.
pub proof fn law_notify_reaches_the_host(
    sockets: Seq<Socket>,
    source: int,
    stdin: Option<i32>,
    sdnotify: Option<Seq<u8>>,
    n: usize,
)
    requires
        0 <= source < sockets.len(),
        sockets[source] is Remote,
        ({
            let r = sockets[source]->Remote_0;
            &&& r.socket_type == SocketType::Notify
            &&& !r.has_handler
            &&& 0 < n <= r.buf.spare().len()
        }),
    ensures
        ({
            let r = sockets[source]->Remote_0;
            let datagram = r.buf@ + r.buf.spare().take(n as int);
            let payload = filtered(datagram);
            let outcome = data_outcome(sockets, source, stdin, sdnotify, DataEvent::Received(n));
            &&& outcome matches Ok(DataStepView::Perform(actions)) && {
                &&& sdnotify is Some && payload.len() > 0 ==> actions == seq![
                    ActionView::Notify { path: sdnotify->0, payload },
                ]
                &&& sdnotify is None || payload.len() == 0 ==> actions.len() == 0
            }
        }),
{
}

/// A line that is relayed reaches the host with a newline at its end, whether the datagram
/// ends with the line or with a byte that ends the line.
pub proof fn law_relayed_line_reaches_the_host(
    sockets: Seq<Socket>,
    source: int,
    stdin: Option<i32>,
    path: Seq<u8>,
    n: usize,
    line: Seq<u8>,
)
    requires
        0 <= source < sockets.len(),
        sockets[source] is Remote,
        ({
            let r = sockets[source]->Remote_0;
            let datagram = r.buf@ + r.buf.spare().take(n as int);
            &&& r.socket_type == SocketType::Notify
            &&& !r.has_handler
            &&& 0 < n <= r.buf.spare().len()
            &&& datagram == line || datagram == line.push(10u8) || datagram == line.push(13u8)
        }),
        !line.contains(10u8),
        !line.contains(13u8),
        valid_utf8(line),
        relayed(decode_utf8(line)),
    ensures
        data_outcome(sockets, source, stdin, Some(path), DataEvent::Received(n)) == Ok::<
            _,
            ErrorView,
        >(
            DataStepView::Perform(
                seq![ActionView::Notify { path, payload: line.push(10u8) }],
            ),
        ),
{
    law_filter_of_one_line(line, 10u8);
    law_filter_of_one_line(line, 13u8);
    law_notify_reaches_the_host(sockets, source, stdin, Some(path), n);
}

/// The window that is resized is that of the first terminal among the other sockets; only if
/// there is none, that of the first stdout; and if there is none either, none.
pub proof fn law_resize_target(sockets: Seq<Socket>, source: int, j: int)
    ensures
        is_peer(sockets, source, j, SocketType::Terminal) && (forall|i: int|
            i < j ==> !#[trigger] is_peer(sockets, source, i, SocketType::Terminal))
            ==> resize_target(sockets, source) == Some(sockets[j]->Remote_0.fd),
        is_peer(sockets, source, j, SocketType::Stdout) && (forall|i: int|
            i < j ==> !#[trigger] is_peer(sockets, source, i, SocketType::Stdout)) && (forall|
            i: int,
        |
            !#[trigger] is_peer(sockets, source, i, SocketType::Terminal)) ==> resize_target(
            sockets,
            source,
        ) == Some(sockets[j]->Remote_0.fd),
        (forall|i: int| !#[trigger] is_peer(sockets, source, i, SocketType::Terminal)) && (forall|
            i: int,
        |
            !#[trigger] is_peer(sockets, source, i, SocketType::Stdout)) ==> resize_target(
            sockets,
            source,
        ) is None,
{
    lemma_first_fd(sockets, source, SocketType::Terminal, 0);
    lemma_first_fd(sockets, source, SocketType::Stdout, 0);
}

proof fn lemma_first_fd(sockets: Seq<Socket>, source: int, socket_type: SocketType, n: nat)
    ensures
        forall|j: int|
            n <= j && #[trigger] is_peer(sockets, source, j, socket_type) && (forall|i: int|
                n <= i < j ==> !#[trigger] is_peer(sockets, source, i, socket_type))
                ==> first_fd_from(sockets, source, socket_type, n) == Some(
                sockets[j]->Remote_0.fd,
            ),
        (forall|i: int| n <= i ==> !#[trigger] is_peer(sockets, source, i, socket_type))
            ==> first_fd_from(sockets, source, socket_type, n) is None,
    decreases sockets.len() - n,
{
    if n < sockets.len() {
        lemma_first_fd(sockets, source, socket_type, n + 1);
        assert(is_peer(sockets, source, n as int, socket_type) ==> first_fd_from(
            sockets,
            source,
            socket_type,
            n,
        ) == Some(sockets[n as int]->Remote_0.fd));
        if !is_peer(sockets, source, n as int, socket_type) {
            assert(first_fd_from(sockets, source, socket_type, n) == first_fd_from(
                sockets,
                source,
                socket_type,
                n + 1,
            ));
        }
    }
}

/// What is said of a control line that is no text, in full.
pub open spec fn decode_warning(line: Seq<u8>) -> ActionView {
    ActionView::Warn(
        "failed to decode control line: "@ + ("control line is not valid UTF-8: "@
            + utf8_failure(line)),
    )
}

proof fn lemma_line_actions(socket_type: SocketType, fd: i32, data: Seq<u8>)
    ensures
        ({
            let with = line_actions(socket_type, Some(fd), data);
            let without = line_actions(socket_type, None, data);
            let bad = lines(data).filter(|line: Seq<u8>| !valid_utf8(line));
            &&& with.len() == lines(data).len()
            &&& forall|k: int|
                0 <= k < with.len() ==> #[trigger] with[k] == (if !valid_utf8(lines(data)[k]) {
                    decode_warning(lines(data)[k])
                } else if socket_type == SocketType::TerminalFifo {
                    ActionView::TerminalLine { fd, line: decode_utf8(lines(data)[k]) }
                } else {
                    ActionView::WindowLine { fd, line: decode_utf8(lines(data)[k]) }
                })
            &&& without == bad.map_values(|line: Seq<u8>| decode_warning(line))
        }),
    decreases data.len(),
{
    lemma_first_newline(data);
    let is_bad = |line: Seq<u8>| !valid_utf8(line);
    let warn = |line: Seq<u8>| decode_warning(line);
    if let Some(line) = first_line(data) {
        let rest = data.skip(line.len() as int);
        lemma_line_actions(socket_type, fd, rest);
        let with = line_actions(socket_type, Some(fd), data);
        let later = line_actions(socket_type, Some(fd), rest);
        assert(with.len() == 1 + later.len());
        assert forall|k: int| 0 <= k < with.len() implies #[trigger] with[k] == (if !valid_utf8(
            lines(data)[k],
        ) {
            decode_warning(lines(data)[k])
        } else if socket_type == SocketType::TerminalFifo {
            ActionView::TerminalLine { fd, line: decode_utf8(lines(data)[k]) }
        } else {
            ActionView::WindowLine { fd, line: decode_utf8(lines(data)[k]) }
        }) by {
            if k > 0 {
                assert(with[k] == later[k - 1]);
                assert(lines(data)[k] == lines(rest)[k - 1]);
            }
        }
        Seq::filter_distributes_over_add(seq![line], lines(rest), is_bad);
        assert(seq![line].filter(is_bad) =~= if is_bad(line) {
            seq![line]
        } else {
            Seq::empty()
        }) by {
            reveal(Seq::filter);
            assert(seq![line].drop_last() =~= Seq::empty());
            assert(seq![line].drop_last().filter(is_bad) =~= Seq::empty());
        }
        assert(line_actions(socket_type, None, data) =~= lines(data).filter(is_bad).map_values(
            warn,
        ));
    } else {
        reveal(Seq::filter);
        assert(lines(data) =~= Seq::empty());
        assert(line_actions(socket_type, None, data) =~= lines(data).filter(is_bad).map_values(
            warn,
        ));
    }
}

/// Every complete control line is dealt with, in the order in which they came: one that is
/// text is processed for the window that is resized, as a line of its fifo, and one that is
/// not is warned of. Without such a window there are the warnings only.
pub proof fn law_control_lines_are_processed(
    sockets: Seq<Socket>,
    source: int,
    stdin: Option<i32>,
    sdnotify: Option<Seq<u8>>,
    n: usize,
    k: int,
)
    requires
        0 <= source < sockets.len(),
        sockets[source] is Remote,
        ({
            let r = sockets[source]->Remote_0;
            &&& r.socket_type == SocketType::TerminalFifo || r.socket_type
                == SocketType::ConsoleFifo
            &&& !r.has_handler
            &&& 0 < n <= r.buf.spare().len()
        }),
    ensures
        ({
            let r = sockets[source]->Remote_0;
            let all = lines(r.buf@ + r.buf.spare().take(n as int));
            let bad = all.filter(|line: Seq<u8>| !valid_utf8(line));
            let target = resize_target(sockets, source);
            let outcome = data_outcome(sockets, source, stdin, sdnotify, DataEvent::Received(n));
            &&& outcome matches Ok(DataStepView::Perform(actions)) && {
                &&& target is Some ==> {
                    &&& actions.len() == all.len()
                    &&& 0 <= k < all.len() && !valid_utf8(all[k]) ==> actions[k]
                        == decode_warning(all[k])
                    &&& 0 <= k < all.len() && valid_utf8(all[k]) && r.socket_type
                        == SocketType::TerminalFifo ==> actions[k] == ActionView::TerminalLine {
                        fd: target->0,
                        line: decode_utf8(all[k]),
                    }
                    &&& 0 <= k < all.len() && valid_utf8(all[k]) && r.socket_type
                        == SocketType::ConsoleFifo ==> actions[k] == ActionView::WindowLine {
                        fd: target->0,
                        line: decode_utf8(all[k]),
                    }
                }
                &&& target is None ==> {
                    &&& actions.len() == bad.len()
                    &&& 0 <= k < bad.len() ==> actions[k] == decode_warning(bad[k])
                }
            }
        }),
{
    let r = sockets[source]->Remote_0;
    let target = resize_target(sockets, source);
    let fd = if target is Some {
        target->0
    } else {
        0i32
    };
    lemma_line_actions(r.socket_type, fd, arrived(r, n));
}

/// What else happens on a remote socket. It is read by the call for its type while its buffer
/// has room; the end of the stream drops the socket and nothing else does, but for a handler
/// that says so; data goes to the handler if there is one, and is otherwise left alone on
/// sockets that have no use for it; and a read that fails is logged, unless it would have to
/// block and is made again.
pub proof fn law_other_events_on_remote(
    sockets: Seq<Socket>,
    source: int,
    stdin: Option<i32>,
    sdnotify: Option<Seq<u8>>,
    n: usize,
    keep: bool,
    failed: OsFailure,
    error: ConmonError,
)
    requires
        0 <= source < sockets.len(),
        sockets[source] is Remote,
    ensures
        ({
            let r = sockets[source]->Remote_0;
            let on = |event: DataEvent| data_outcome(sockets, source, stdin, sdnotify, event);
            let log = |message: Seq<char>|
                Ok::<_, ErrorView>(
                    DataStepView::Perform(seq![ActionView::Error("read error: "@ + message)]),
                );
            &&& on(DataEvent::Start) == (if r.buf@.len() < 32768 {
                Ok::<_, ErrorView>(DataStepView::Read(read_call(r.socket_type)))
            } else {
                log("line too long for buffer"@)
            })
            &&& on(DataEvent::Received(0)) == Ok::<_, ErrorView>(DataStepView::Done(false))
            &&& n > 0 && r.has_handler ==> on(DataEvent::Received(n)) == Ok::<_, ErrorView>(
                DataStepView::CallHandler,
            )
            &&& n > 0 && !r.has_handler && (r.socket_type == SocketType::Inotify || r.socket_type
                == SocketType::SignalFd || r.socket_type == SocketType::Attach) ==> on(
                DataEvent::Received(n),
            ) == Ok::<_, ErrorView>(DataStepView::Done(true))
            &&& on(DataEvent::HandlerReturned(keep)) == Ok::<_, ErrorView>(DataStepView::Done(keep))
            &&& on(DataEvent::Completed) == Ok::<_, ErrorView>(DataStepView::Done(true))
            &&& on(DataEvent::Failed(error)) == Err::<DataStepView, _>(error@)
            &&& on(DataEvent::ReadFailed(failed)) == (if failed.kind == ErrorKind::WouldBlock {
                Ok::<_, ErrorView>(DataStepView::Read(read_call(r.socket_type)))
            } else {
                log(read_failure(r.socket_type, failed))
            })
        }),
{
}

/// What happens on a socket that is listened on, or on the signal descriptor: clients are
/// accepted one at a time, which is tried again when it was interrupted, and neither socket
/// is ever dropped.
pub proof fn law_events_on_listener(
    sockets: Seq<Socket>,
    source: int,
    stdin: Option<i32>,
    sdnotify: Option<Seq<u8>>,
    client: i32,
    failed: OsFailure,
)
    requires
        0 <= source < sockets.len(),
        !(sockets[source] is Remote),
    ensures
        ({
            let on = |event: DataEvent| data_outcome(sockets, source, stdin, sdnotify, event);
            let goes_on = Ok::<_, ErrorView>(DataStepView::Done(true));
            &&& sockets[source] is Signal ==> on(DataEvent::Start) == goes_on
            &&& sockets[source] is Unix ==> {
                let fd = sockets[source]->Unix_0.fd;
                let again = if fd is Some {
                    Ok::<_, ErrorView>(DataStepView::Accept(fd->0))
                } else {
                    goes_on
                };
                &&& on(DataEvent::Start) == again
                &&& on(DataEvent::Accepted(client)) == goes_on
                &&& failed.kind == ErrorKind::Interrupted ==> on(DataEvent::AcceptFailed(failed))
                    == again
                &&& failed.kind == ErrorKind::WouldBlock ==> on(DataEvent::AcceptFailed(failed))
                    == goes_on
                &&& failed.kind != ErrorKind::Interrupted && failed.kind != ErrorKind::WouldBlock
                    ==> on(DataEvent::AcceptFailed(failed)) == Err::<DataStepView, _>(
                    failure(
                        "Failed to accept client connection on "@ + failed.subject@ + ": "@
                            + failed.reason@,
                    ),
                )
            }
        }),
{
}

/// What stays in the buffer of a socket. Nothing that has arrived is lost before it is dealt
/// with: on a fifo it is the complete lines that are taken off, and what has no newline yet
/// stays; on other sockets everything stays until it was relayed. A read that failed, or a
/// line that fills the whole buffer, empties it.
pub proof fn law_buffer_after_events(
    r: RemoteSocket,
    n: usize,
    keep: bool,
    failed: OsFailure,
    error: ConmonError,
)
    requires
        n <= r.buf.spare().len(),
    ensures
        ({
            let data = r.buf@ + r.buf.spare().take(n as int);
            let left = buffered_after(r, DataEvent::Received(n));
            let takes_lines = n > 0 && !r.has_handler && (r.socket_type == SocketType::TerminalFifo
                || r.socket_type == SocketType::ConsoleFifo);
            &&& takes_lines ==> lines(data).flatten() + left == data && !left.contains(10u8)
            &&& !takes_lines ==> left == data
        }),
        buffered_after(r, DataEvent::Start) == (if r.buf@.len() < 32768 {
            r.buf@
        } else {
            Seq::empty()
        }),
        buffered_after(r, DataEvent::Completed) == (if r.socket_type == SocketType::Stdout
            || r.socket_type == SocketType::Stderr || r.socket_type == SocketType::Terminal
            || r.socket_type == SocketType::Console || r.socket_type == SocketType::Notify {
            Seq::empty()
        } else {
            r.buf@
        }),
        buffered_after(r, DataEvent::ReadFailed(failed)) == (if failed.kind
            == ErrorKind::WouldBlock {
            r.buf@
        } else {
            Seq::empty()
        }),
        buffered_after(r, DataEvent::HandlerReturned(keep)) == r.buf@,
        buffered_after(r, DataEvent::Failed(error)) == r.buf@,
{
    let data = arrived(r, n);
    law_lines_make_up_buffer(data);
    law_no_complete_line_left(data);
    law_first_line(incomplete_line(data));
}

/// How the buffer of a socket lies. Its three parts always make up the whole, and buffered
/// bytes are moved only where a read begins and there is no room behind them.
pub proof fn law_buffer_layout(r: RemoteSocket, event: DataEvent)
    requires
        r.buf.consumed() + r.buf@.len() + r.buf.spare().len() == 32768,
        can_happen(Socket::Remote(r), event),
        event matches DataEvent::Received(n) ==> r.buf@.len() + n > 0 || r.buf.consumed() == 0,
    ensures
        consumed_after(r, event) + buffered_after(r, event).len() + free_after(r, event) == 32768,
        event is HandlerReturned || event is Failed ==> stays_as_it_is(r, event),
        event is Start && r.buf.spare().len() > 0 ==> stays_as_it_is(r, event),
        event matches DataEvent::ReadFailed(failed) ==> (failed.kind == ErrorKind::WouldBlock
            <==> stays_as_it_is(r, event)),
        event is Received && buffered_after(r, event).len() > 0 ==> consumed_after(r, event)
            + buffered_after(r, event).len() == r.buf.consumed() + arrived(
            r,
            event->Received_0,
        ).len(),
        buffered_after(r, event).len() == 0 && !stays_as_it_is(r, event) && !(event is Received
            && (event->Received_0 == 0 || r.has_handler || !is_fifo(r.socket_type)))
            ==> free_after(r, event) == 32768,
{
    if let DataEvent::Received(n) = event {
        law_no_complete_line_left(arrived(r, n));
    }
}

/// An action, and a step of dealing with data, is seen as what it names; a list of actions as
/// all of them, in order.
pub proof fn law_action_views(action: Action, step: DataStep, actions: Seq<Action>, k: int)
    ensures
        match action {
            Action::Log { stdout, data } => action@ == (ActionView::Log { stdout, data: data@ }),
            Action::Packet { fd, prefix, chunk } => action@ == (ActionView::Packet {
                fd,
                prefix,
                chunk: chunk@,
            }),
            Action::Write { fd, data } => action@ == (ActionView::Write { fd, data: data@ }),
            Action::Notify { path, payload } => action@ == (ActionView::Notify {
                path: path@,
                payload: payload@,
            }),
            Action::TerminalLine { fd, line } => action@ == (ActionView::TerminalLine {
                fd,
                line: line@,
            }),
            Action::WindowLine { fd, line } => action@ == (ActionView::WindowLine {
                fd,
                line: line@,
            }),
            Action::Warn(message) => action@ == ActionView::Warn(message@),
            Action::Error(message) => action@ == ActionView::Error(message@),
        },
        match step {
            DataStep::Accept(fd) => step@ == DataStepView::Accept(fd),
            DataStep::Read(call) => step@ == DataStepView::Read(call),
            DataStep::CallHandler => step@ == DataStepView::CallHandler,
            DataStep::Perform(list) => step@ == DataStepView::Perform(action_views(list@)),
            DataStep::Done(keep) => step@ == DataStepView::Done(keep),
        },
        action_views(actions).len() == actions.len(),
        0 <= k < actions.len() ==> action_views(actions)[k] == actions[k]@,
{
}

/// Two lists that agree but for the socket at which data arrived hold the same sockets
/// everywhere else.
pub proof fn law_other_sockets_stay(a: Seq<Socket>, b: Seq<Socket>, source: int)
    ensures
        same_but_source(a, b, source) <==> a.len() == b.len() && (forall|j: int|
            0 <= j < a.len() && j != source ==> a[j] == b[j]),
{
}

} // verus!
