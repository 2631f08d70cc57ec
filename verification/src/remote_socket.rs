//! Sockets and other descriptors that the monitor reads from.
use vstd::prelude::*;
use vstd::utf8::{decode_utf8, valid_utf8};

use crate::error::{fail, failure, ConmonError, ConmonResult};
use crate::os::{ErrorKind, OsFailure};
use crate::socket_buffer::{first_line, lemma_first_newline, SocketBuffer};
use crate::text::{join2, join4, text_from_utf8, utf8_failure};

verus! {

/// Size of the buffer of a socket.
///
/// Do not change the buffer size. It is in sync with podman and other parent apps. We
/// use SOCK_SEQPACKET and if we cannot fit whole packet received from parent in a
/// single `recvfrom`, the remaining data is lost.
pub const SOCKET_BUFFER_SIZE: usize = 32768;

/// Type of the `UnixSocket` and `RemoteSocket`.
#[derive(Debug, Copy, Clone, PartialEq, Eq, Structural)]
pub enum SocketType {
    /// Socket for container's stdin ("console").
    Console,
    /// Socket for sd-notify.
    Notify,
    /// Terminal socket received using --console-socket.
    Terminal,
    /// Socket for container's stdout.
    Stdout,
    /// Socket for container's stderr.
    Stderr,
    /// Attach Unix socket.
    Attach,
    /// Fifo for `ctl`.
    TerminalFifo,
    /// Fifo for `winsz`.
    ConsoleFifo,
    /// Inotify socket of OOM detection.
    Inotify,
    /// Signal fd to receive UNIX signals.
    SignalFd,
}

impl Default for SocketType {
    fn default() -> (socket_type: Self)
        ensures
            socket_type == SocketType::Console,
    {
        SocketType::Console
    }
}

/// The call by which a descriptor is read.
#[derive(Debug, Copy, Clone, PartialEq, Eq, Structural)]
pub enum ReadCall {
    /// `read`, for pipes, terminals and the like.
    Read,
    /// `recvfrom`, for sockets.
    Receive,
}

/// What happened to a read: it is to begin, bytes have come, or the call failed.
#[derive(Debug)]
pub enum ReadEvent {
    Start,
    /// So many bytes were put into the free space of the buffer.
    Received(usize),
    Failed(OsFailure),
}

/// What a read needs next.
#[derive(Debug, Copy, Clone, PartialEq, Eq, Structural)]
pub enum ReadStep {
    /// Make this call, with the free space of the buffer as its destination.
    Call(ReadCall),
    /// The read is over and brought so many bytes.
    Done(usize),
}

/// The call by which a descriptor of a type is read.
pub open spec fn read_call(socket_type: SocketType) -> ReadCall {
    match socket_type {
        SocketType::Stdout
        | SocketType::Stderr
        | SocketType::Terminal
        | SocketType::TerminalFifo
        | SocketType::Inotify
        | SocketType::ConsoleFifo => ReadCall::Read,
        _ => ReadCall::Receive,
    }
}

/// What is reported of a read that failed.
pub open spec fn read_failure(socket_type: SocketType, failed: OsFailure) -> Seq<char> {
    match read_call(socket_type) {
        ReadCall::Read => "read failed: "@ + failed.reason@,
        ReadCall::Receive => "read failed: "@ + failed.reason@ + ", "@ + failed.subject@,
    }
}

/// What is reported of a control line that is no text.
pub open spec fn line_failure(line: Seq<u8>) -> Seq<char> {
    "control line is not valid UTF-8: "@ + utf8_failure(line)
}

/// Remote side (attach client or sd-notify FD inside container).
pub struct RemoteSocket {
    /// Type of this socket.
    pub socket_type: SocketType,
    /// The file descriptor representing the socket.
    pub fd: i32,
    /// The buffer for data received from the socket.
    pub buf: SocketBuffer<SOCKET_BUFFER_SIZE>,
    /// Set when data received from the socket go to a handler.
    pub has_handler: bool,
    /// Set when the read side reached EOF.
    pub read_closed: bool,
}

impl RemoteSocket {
    /// Whether two sockets agree in everything but what they have buffered.
    pub open spec fn same_but_buffer(self, other: RemoteSocket) -> bool {
        &&& self.socket_type == other.socket_type
        &&& self.fd == other.fd
        &&& self.has_handler == other.has_handler
        &&& self.read_closed == other.read_closed
    }

    /// A socket with nothing buffered, no handler and its read side open.
    pub open spec fn fresh(self, socket_type: SocketType, fd: i32) -> bool {
        &&& self.socket_type == socket_type
        &&& self.fd == fd
        &&& self.buf@ == Seq::<u8>::empty()
        &&& self.buf.consumed() == 0
        &&& self.buf.spare().len() == SOCKET_BUFFER_SIZE
        &&& !self.has_handler
        &&& !self.read_closed
    }

    pub fn new(socket_type: SocketType, fd: i32) -> (socket: Self)
        ensures
            socket.fresh(socket_type, fd),
    {
        RemoteSocket {
            socket_type,
            fd,
            buf: SocketBuffer::new(),
            has_handler: false,
            read_closed: false,
        }
    }

    /// Hands data received from the socket to a handler from now on.
    pub fn set_handler(&mut self)
        ensures
            *final(self) == (RemoteSocket { has_handler: true, ..*old(self) }),
    {
        self.has_handler = true;
    }

    /// Removes all data from the buffer.
    pub fn clear_buffer(&mut self)
        ensures
            final(self).same_but_buffer(*old(self)),
            final(self).buf@ == Seq::<u8>::empty(),
            final(self).buf.consumed() == 0,
            final(self).buf.spare().len() == SOCKET_BUFFER_SIZE,
    {
        self.buf.clear();
    }

    /// The call by which this descriptor is read.
    fn call(&self) -> (call: ReadCall)
        ensures
            call == read_call(self.socket_type),
    {
        match self.socket_type {
            SocketType::Stdout
            | SocketType::Stderr
            | SocketType::Terminal
            | SocketType::TerminalFifo
            | SocketType::Inotify
            | SocketType::ConsoleFifo => ReadCall::Read,
            _ => ReadCall::Receive,
        }
    }

    /// Reads some bytes into the rolling buffer, without dispatching yet.
    ///
    /// A read starts by making room in the buffer, which fails when unconsumed bytes
    /// fill it; bytes are moved only when there is no room at the tail. The call is made
    /// again while it would block. Bytes that the call has put into the free space of the
    /// buffer are then appended to what is buffered.
    pub fn read(&mut self, event: ReadEvent) -> (step: ConmonResult<ReadStep>)
        requires
            event matches ReadEvent::Received(n) ==> n <= old(self).buf.spare().len(),
        ensures
            final(self).same_but_buffer(*old(self)),
            match event {
                ReadEvent::Start => {
                    &&& final(self).buf@ == old(self).buf@
                    &&& final(self).buf.spare().len() > 0 <==> old(self).buf@.len()
                        < SOCKET_BUFFER_SIZE
                    &&& old(self).buf.spare().len() > 0 ==> *final(self) == *old(self)
                    &&& old(self).buf.spare().len() == 0 ==> {
                        &&& final(self).buf.consumed() == 0
                        &&& final(self).buf.spare().len() == SOCKET_BUFFER_SIZE - old(
                            self,
                        ).buf@.len()
                    }
                    &&& old(self).buf@.len() < SOCKET_BUFFER_SIZE ==> step == Ok::<_, ConmonError>(
                        ReadStep::Call(read_call(old(self).socket_type)),
                    )
                    &&& old(self).buf@.len() >= SOCKET_BUFFER_SIZE ==> (step matches Err(e)
                        && e@ == failure("line too long for buffer"@))
                },
                ReadEvent::Received(n) => {
                    &&& step == Ok::<_, ConmonError>(ReadStep::Done(n))
                    &&& final(self).buf@ == old(self).buf@ + old(self).buf.spare().take(n as int)
                    &&& final(self).buf.spare() == old(self).buf.spare().skip(n as int)
                    &&& final(self).buf.consumed() == old(self).buf.consumed()
                },
                ReadEvent::Failed(failed) => {
                    &&& *final(self) == *old(self)
                    &&& failed.kind == ErrorKind::WouldBlock ==> step == Ok::<_, ConmonError>(
                        ReadStep::Call(read_call(old(self).socket_type)),
                    )
                    &&& failed.kind != ErrorKind::WouldBlock ==> (step matches Err(e) && e@
                        == failure(read_failure(old(self).socket_type, failed)))
                },
            },
    {
        match event {
            ReadEvent::Start => {
                // Ensure there is a space. If we are full, try compacting first.
                if !self.buf.make_space() {
                    return Err(fail("line too long for buffer".to_owned()));
                }
                Ok(ReadStep::Call(self.call()))
            },
            ReadEvent::Received(n) => {
                self.buf.advance_by(n);
                Ok(ReadStep::Done(n))
            },
            ReadEvent::Failed(failed) => {
                if failed.kind == ErrorKind::WouldBlock {
                    return Ok(ReadStep::Call(self.call()));
                }
                let message = match self.call() {
                    ReadCall::Read => join2("read failed: ", failed.reason.as_str()),
                    ReadCall::Receive => join4(
                        "read failed: ",
                        failed.reason.as_str(),
                        ", ",
                        failed.subject.as_str(),
                    ),
                };
                Err(fail(message))
            },
        }
    }

    /// Returns the next newline-terminated control line as owned UTF-8 text.
    ///
    /// The line (including the trailing `\n`) is consumed from the buffer before
    /// decoding, so invalid UTF-8 cannot be retried forever. Remaining bytes stay in
    /// place until the buffer is compacted when more space is needed.
    ///
    /// # Returns
    ///
    /// * `Ok(Some(line))` - A complete line including the trailing `\n`.
    /// * `Ok(None)` - No complete newline-terminated line is buffered yet.
    /// * `Err(_)` - The consumed line is not valid UTF-8.
    pub fn next_line(&mut self) -> (line: ConmonResult<Option<String>>)
        ensures
            match first_line(old(self).buf@) {
                None => line == Ok::<_, ConmonError>(None::<String>) && *final(self) == *old(self),
                Some(bytes) => {
                    &&& final(self).same_but_buffer(*old(self))
                    &&& final(self).buf@ == old(self).buf@.skip(bytes.len() as int)
                    &&& final(self).buf.consumed() == (if bytes.len() < old(self).buf@.len() {
                        old(self).buf.consumed() + bytes.len()
                    } else {
                        0
                    })
                    &&& bytes.len() < old(self).buf@.len() ==> final(self).buf.spare() == old(
                        self,
                    ).buf.spare()
                    &&& bytes.len() == old(self).buf@.len() ==> final(self).buf.spare().len()
                        == SOCKET_BUFFER_SIZE
                    &&& valid_utf8(bytes) ==> (line matches Ok(Some(text)) && text@ == decode_utf8(
                        bytes,
                    ))
                    &&& !valid_utf8(bytes) ==> (line matches Err(e) && e@ == failure(
                        line_failure(bytes),
                    ))
                },
            },
    {
        proof {
            lemma_first_newline(self.buf@);
        }
        let (decoded, len) = match self.buf.peek_line() {
            Some(line) => (text_from_utf8(line), line.len()),
            None => {
                return Ok(None);
            },
        };
        self.buf.consume(len);

        match decoded {
            Ok(line) => Ok(Some(line)),
            Err(why) => Err(fail(join2("control line is not valid UTF-8: ", why.as_str()))),
        }
    }
}

/// Sockets that clients or the container connect to are received from; everything else, which
/// is pipes, terminals, fifos and the like, is read. A failed read is described by its reason,
/// a failed reception by its reason and the descriptor.
pub proof fn law_sockets_are_received_from(socket_type: SocketType, failed: OsFailure)
    ensures
        read_call(socket_type) == ReadCall::Receive <==> {
            ||| socket_type == SocketType::Console
            ||| socket_type == SocketType::Notify
            ||| socket_type == SocketType::Attach
            ||| socket_type == SocketType::SignalFd
        },
        read_call(socket_type) == ReadCall::Read ==> read_failure(socket_type, failed)
            == "read failed: "@ + failed.reason@,
        read_call(socket_type) == ReadCall::Receive ==> read_failure(socket_type, failed)
            == "read failed: "@ + failed.reason@ + ", "@ + failed.subject@,
{
}

/// A control line that is no text is described by why it is none.
pub proof fn law_bad_line_is_described(line: Seq<u8>)
    ensures
        line_failure(line) == "control line is not valid UTF-8: "@ + utf8_failure(line),
{
}

/// A fresh socket is open for reading, has its descriptor and type, nothing buffered, room for
/// 32768 bytes, and no handler. Two sockets that agree but for their buffers agree in
/// everything else.
pub proof fn law_fresh_socket(
    socket: RemoteSocket,
    other: RemoteSocket,
    socket_type: SocketType,
    fd: i32,
)
    ensures
        socket.fresh(socket_type, fd) <==> {
            &&& socket.socket_type == socket_type
            &&& socket.fd == fd
            &&& socket.buf@.len() == 0
            &&& socket.buf.consumed() == 0
            &&& socket.buf.spare().len() == 32768
            &&& !socket.has_handler
            &&& !socket.read_closed
        },
        socket.same_but_buffer(other) <==> socket == (RemoteSocket { buf: socket.buf, ..other }),
{
    if socket.buf@.len() == 0 {
        assert(socket.buf@ =~= Seq::<u8>::empty());
    }
}

} // verus!
