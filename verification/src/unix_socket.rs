//! Listening Unix sockets: where they are put, how they are bound, whom they accept.
use nix::sys::socket::UnixAddr;
use vstd::prelude::*;
use vstd::utf8::encode_utf8;

use crate::bytes::{bytes_view, copy_bytes, text_view};
use crate::error::{fail, failure, result_view, ConmonError, ConmonResult, ErrorView};
use crate::os::{
    mode_bits, sun_path_len, unix_addr, unix_addr_path, AddrFailure, ErrorKind, OsFailure,
    SUN_PATH_LEN,
};
use crate::path::{
    absolute, body_start, enclosing, file_name, final_component, is_absolute, join, joined,
    law_enclosing_is_prefix, law_file_name_of_join, law_parent_of_join, law_plain_name, parent,
    plain_name, trimmed_length, SLASH,
};
use crate::remote_socket::{RemoteSocket, SocketType};
use crate::text::{
    debug_path_text, i32_text, join3, join4, lossy_text, path_debug, signed_decimal,
    text_from_utf8_lossy,
};

verus! {

broadcast use vstd::slice::group_slice_axioms;

/// The kinds of Unix sockets that are created.
#[derive(Debug, Copy, Clone, PartialEq, Eq, Structural)]
pub enum SockType {
    SeqPacket,
    Stream,
    Datagram,
}

/// How a socket is to be created and bound.
#[derive(Debug)]
pub struct BindRequest {
    /// Path for the unix socket. If relative, the `socket_parent_dir()` is used as a
    /// parent path. If `None`, socket is created in temporary directory.
    pub path: Option<Vec<u8>>,
    /// The type of the socket.
    pub sock_type: SockType,
    /// Whether calls on the socket do not block.
    pub nonblocking: bool,
    /// Whether the socket is closed when another program is executed.
    pub close_on_exec: bool,
    /// Permissions of the socket; bits that are no permissions do not count.
    pub perms: u32,
}

/// How a socket is to be created and bound, by the values.
#[verifier::ext_equal]
pub struct BindRequestView {
    pub path: Option<Seq<u8>>,
    pub sock_type: SockType,
    pub nonblocking: bool,
    pub close_on_exec: bool,
    pub perms: u32,
}

impl View for BindRequest {
    type V = BindRequestView;

    open spec fn view(&self) -> BindRequestView {
        BindRequestView {
            path: bytes_view(self.path),
            sock_type: self.sock_type,
            nonblocking: self.nonblocking,
            close_on_exec: self.close_on_exec,
            perms: self.perms,
        }
    }
}

/// Represents single UnixSocket.
#[derive(Debug)]
pub struct UnixSocket {
    /// Whether the socket lies in the bundle itself.
    pub use_full_attach_path: bool,
    pub bundle_path: Vec<u8>,
    pub socket_path: Option<Vec<u8>>,
    pub cuuid: Option<String>,
    /// The path the socket is bound to.
    pub path: Option<Vec<u8>>,
    /// The file descriptor of the socket.
    pub fd: Option<i32>,
    pub socket_type: SocketType,
}

/// A Unix socket by its values.
#[verifier::ext_equal]
pub struct UnixSocketView {
    pub use_full_attach_path: bool,
    pub bundle_path: Seq<u8>,
    pub socket_path: Option<Seq<u8>>,
    pub cuuid: Option<Seq<char>>,
    pub path: Option<Seq<u8>>,
    pub fd: Option<i32>,
    pub socket_type: SocketType,
}

impl View for UnixSocket {
    type V = UnixSocketView;

    open spec fn view(&self) -> UnixSocketView {
        UnixSocketView {
            use_full_attach_path: self.use_full_attach_path,
            bundle_path: self.bundle_path@,
            socket_path: bytes_view(self.socket_path),
            cuuid: text_view(self.cuuid),
            path: bytes_view(self.path),
            fd: self.fd,
            socket_type: self.socket_type,
        }
    }
}

/// What happened while the parent directory of a socket was sought.
#[derive(Debug)]
pub enum ParentDirEvent {
    Start,
    /// The old link is gone.
    Unlinked,
    UnlinkFailed(OsFailure),
    /// The link to the bundle stands.
    Linked,
    /// The link could not be made; `target` is the bundle as error messages show it.
    LinkFailed { target: String, failed: OsFailure },
}

/// What is needed next to find the parent directory of a socket.
#[derive(Debug)]
pub enum ParentDirStep {
    /// Remove the file of this name.
    Unlink(Vec<u8>),
    /// Make `link` a symbolic link to `target`.
    Symlink { target: Vec<u8>, link: Vec<u8> },
    /// This is the parent directory.
    Done(Vec<u8>),
}

/// A step towards the parent directory, by the paths it names.
#[verifier::ext_equal]
pub enum ParentDirStepView {
    Unlink(Seq<u8>),
    Symlink { target: Seq<u8>, link: Seq<u8> },
    Done(Seq<u8>),
}

impl View for ParentDirStep {
    type V = ParentDirStepView;

    open spec fn view(&self) -> ParentDirStepView {
        match self {
            ParentDirStep::Unlink(path) => ParentDirStepView::Unlink(path@),
            ParentDirStep::Symlink { target, link } => ParentDirStepView::Symlink {
                target: target@,
                link: link@,
            },
            ParentDirStep::Done(dir) => ParentDirStepView::Done(dir@),
        }
    }
}

/// What happened while a socket was being bound.
#[derive(Debug)]
pub enum BindEvent {
    Start,
    /// What came of the last step towards the parent directory.
    ParentDir(ParentDirEvent),
    /// The directory is open under this descriptor.
    DirOpened(i32),
    DirOpenFailed(OsFailure),
    /// This is the directory for temporary files.
    TempDir(Vec<u8>),
    /// A file of this name was made; `text` is the name as error messages show it.
    TempCreated { path: Vec<u8>, text: String },
    /// The old socket is gone.
    OldRemoved,
    OldRemoveFailed(OsFailure),
    /// The socket has this descriptor.
    SocketCreated(i32),
    /// The permissions of the socket are set.
    ModeSet,
    /// The socket is bound.
    Bound,
    /// The last step failed, which ends the matter.
    Failed(ConmonError),
}

/// What is needed next to bind a socket.
#[derive(Debug)]
pub enum BindStep {
    /// Take this step towards the parent directory.
    ParentDir(ParentDirStep),
    /// Open the directory for use as a location, and create it with these permissions.
    OpenDir { dir: Vec<u8>, mode: u32 },
    /// Tell the directory for temporary files.
    AskTempDir,
    /// Make a file with a name of its own after this template.
    MakeTemp(Vec<u8>),
    /// Remove the file of this name.
    RemoveOld(Vec<u8>),
    /// Create a Unix socket.
    CreateSocket { sock_type: SockType, nonblocking: bool, close_on_exec: bool },
    /// Set the permissions of the socket.
    SetMode { fd: i32, mode: u32 },
    /// Bind the socket to the address.
    Bind { fd: i32, addr: UnixAddr },
    /// The socket is bound.
    Done,
}

/// A step of binding a socket, by the values it names.
#[verifier::ext_equal]
pub enum BindStepView {
    ParentDir(ParentDirStepView),
    OpenDir { dir: Seq<u8>, mode: u32 },
    AskTempDir,
    MakeTemp(Seq<u8>),
    RemoveOld(Seq<u8>),
    CreateSocket { sock_type: SockType, nonblocking: bool, close_on_exec: bool },
    SetMode { fd: i32, mode: u32 },
    Bind { fd: i32, path: Seq<u8> },
    Done,
}

impl View for BindStep {
    type V = BindStepView;

    open spec fn view(&self) -> BindStepView {
        match self {
            BindStep::ParentDir(step) => BindStepView::ParentDir(step@),
            BindStep::OpenDir { dir, mode } => BindStepView::OpenDir { dir: dir@, mode: *mode },
            BindStep::AskTempDir => BindStepView::AskTempDir,
            BindStep::MakeTemp(template) => BindStepView::MakeTemp(template@),
            BindStep::RemoveOld(path) => BindStepView::RemoveOld(path@),
            BindStep::CreateSocket { sock_type, nonblocking, close_on_exec } =>
                BindStepView::CreateSocket {
                sock_type: *sock_type,
                nonblocking: *nonblocking,
                close_on_exec: *close_on_exec,
            },
            BindStep::SetMode { fd, mode } => BindStepView::SetMode { fd: *fd, mode: *mode },
            BindStep::Bind { fd, addr } => BindStepView::Bind {
                fd: *fd,
                path: unix_addr_path(*addr),
            },
            BindStep::Done => BindStepView::Done,
        }
    }
}

/// What is known of a socket that is being bound.
#[derive(Debug)]
pub struct BindProgress {
    /// The directory in which the socket is created.
    pub dir: Vec<u8>,
    /// The path that is recorded for the socket.
    pub full_path: Vec<u8>,
    /// The path that is recorded for the socket, as error messages show it.
    pub full_path_text: String,
    /// The descriptor of the directory.
    pub dir_fd: Option<i32>,
    /// The descriptor of the socket.
    pub fd: i32,
}

impl BindProgress {
    /// Nothing is known yet.
    pub fn new() -> (progress: Self)
        ensures
            progress.dir@ == Seq::<u8>::empty(),
            progress.full_path@ == Seq::<u8>::empty(),
            progress.full_path_text@ == Seq::<char>::empty(),
            progress.dir_fd is None,
            progress.fd == -1,
    {
        BindProgress {
            dir: Vec::new(),
            full_path: Vec::new(),
            full_path_text: String::new(),
            dir_fd: None,
            fd: -1,
        }
    }
}

/// What is known of a socket that is being bound, by the values.
#[verifier::ext_equal]
pub struct BindProgressView {
    pub dir: Seq<u8>,
    pub full_path: Seq<u8>,
    pub full_path_text: Seq<char>,
    pub dir_fd: Option<i32>,
    pub fd: i32,
}

impl View for BindProgress {
    type V = BindProgressView;

    open spec fn view(&self) -> BindProgressView {
        BindProgressView {
            dir: self.dir@,
            full_path: self.full_path@,
            full_path_text: self.full_path_text@,
            dir_fd: self.dir_fd,
            fd: self.fd,
        }
    }
}

/// What happened while a client was being accepted.
#[derive(Debug)]
pub enum AcceptEvent {
    Start,
    /// A client is connected under this descriptor.
    Accepted(i32),
    Failed(OsFailure),
}

/// What is needed next to accept a client.
pub enum AcceptStep {
    /// Accept a connection on this descriptor.
    Accept(i32),
    /// The matter is over, with or without a client.
    Done(Option<RemoteSocket>),
}

/// The bytes of `s` before its first NUL.
pub open spec fn until_nul(s: Seq<u8>) -> Seq<u8>
    decreases s.len(),
{
    if s.len() == 0 || s[0] == 0 {
        Seq::empty()
    } else {
        seq![s[0]] + until_nul(s.skip(1))
    }
}

/// A base path cut down for use in a socket address: the last byte of one that
/// leaves no room is chopped, and nothing from a NUL on is kept.
pub open spec fn cut_base(base: Seq<u8>) -> Seq<u8> {
    if base.len() > 0 && base.len() >= SUN_PATH_LEN - 1 {
        until_nul(base.drop_last())
    } else {
        until_nul(base)
    }
}

proof fn lemma_until_nul(s: Seq<u8>, i: int)
    requires
        0 <= i <= s.len(),
        forall|k: int| 0 <= k < i ==> s[k] != 0,
        i < s.len() ==> s[i] == 0,
    ensures
        until_nul(s) == s.take(i),
    decreases s.len(),
{
    if i == 0 {
        assert(s.take(0) =~= Seq::empty());
    } else {
        assert forall|k: int| 0 <= k < i - 1 implies s.skip(1)[k] != 0 by {
            assert(s.skip(1)[k] == s[k + 1]);
        }
        lemma_until_nul(s.skip(1), i - 1);
        assert(seq![s[0]] + s.skip(1).take(i - 1) =~= s.take(i));
    }
}

/// Whether the path of a socket lies below the parent directory.
pub open spec fn needs_parent_dir(path: Seq<u8>) -> bool {
    !(enclosing(path) is Some && absolute(enclosing(path)->0))
}

/// The directory in which a socket with a relative path is created.
pub open spec fn dir_below(base: Seq<u8>, path: Seq<u8>) -> Seq<u8> {
    match enclosing(path) {
        Some(dir) => joined(base, dir),
        None => base,
    }
}

/// The name under which an open directory is reached, and an entry of it.
pub open spec fn entry_by_descriptor(dir_fd: i32, name: Seq<u8>) -> Seq<char> {
    "/proc/self/fd/"@ + signed_decimal(dir_fd as int) + "/"@ + lossy_text(name)
}

/// The name of the code with which an address is refused.
pub open spec fn addr_failure_code(why: AddrFailure) -> Seq<char> {
    match why {
        AddrFailure::NameTooLong => "ENAMETOOLONG"@,
        AddrFailure::Invalid => "EINVAL"@,
    }
}

/// What comes of making a socket address of `path`: the address holds the path.
pub open spec fn addressed(path: Seq<u8>, path_text: Seq<char>) -> Result<Seq<u8>, ErrorView> {
    if path.contains(0u8) {
        Err(addr_error(path_text, AddrFailure::Invalid))
    } else if path.len() >= SUN_PATH_LEN {
        Err(addr_error(path_text, AddrFailure::NameTooLong))
    } else {
        Ok(path)
    }
}

/// What is reported of a path that cannot be a socket address.
pub open spec fn addr_error(path_text: Seq<char>, why: AddrFailure) -> ErrorView {
    failure("Failed to create UnixAddr from "@ + path_text + ": "@ + addr_failure_code(why))
}

/// What comes of addressing a socket: in its open directory under the final component
/// of its path, or by the path itself when no directory is open.
pub open spec fn addressed_in_dir(
    dir_fd: Option<i32>,
    path: Seq<u8>,
    path_text: Seq<char>,
) -> Result<Seq<u8>, ErrorView> {
    match dir_fd {
        Some(fd) => match final_component(path) {
            Some(name) => {
                let entry = entry_by_descriptor(fd, name);
                addressed(encode_utf8(entry), path_debug(entry))
            },
            None => Err(failure("no basename"@)),
        },
        None => addressed(path, path_text),
    }
}

/// The outcome of making a socket address, by the path it holds.
pub open spec fn addr_view(addr: ConmonResult<UnixAddr>) -> Result<Seq<u8>, ErrorView> {
    match addr {
        Ok(a) => Ok(unix_addr_path(a)),
        Err(e) => Err(e@),
    }
}

/// Makes a socket address of a path.
fn make_addr(path: &[u8], path_text: &str) -> (addr: ConmonResult<UnixAddr>)
    ensures
        addr_view(addr) == addressed(path@, path_text@),
{
    match unix_addr(path) {
        Ok(addr) => Ok(addr),
        Err(why) => {
            let code = match why {
                AddrFailure::NameTooLong => "ENAMETOOLONG",
                AddrFailure::Invalid => "EINVAL",
            };
            Err(fail(join4("Failed to create UnixAddr from ", path_text, ": ", code)))
        },
    }
}

/// The step that opens the directory of a socket.
pub open spec fn open_dir(dir: Seq<u8>) -> BindStepView {
    BindStepView::OpenDir { dir, mode: 0o600u32 }
}

/// What is needed to bind a socket with a relative path, given what came of finding
/// its parent directory: the directory is opened as soon as it is known.
pub open spec fn after_parent_dir(
    path: Seq<u8>,
    inner: Result<ParentDirStepView, ErrorView>,
) -> Result<BindStepView, ErrorView> {
    match inner {
        Ok(ParentDirStepView::Done(base)) => Ok(open_dir(dir_below(base, path))),
        Ok(step) => Ok(BindStepView::ParentDir(step)),
        Err(e) => Err(e),
    }
}

/// What is known of a socket with a relative path, given what came of finding its
/// parent directory.
pub open spec fn located_below(
    progress: BindProgressView,
    path: Seq<u8>,
    inner: Result<ParentDirStepView, ErrorView>,
) -> BindProgressView {
    match inner {
        Ok(ParentDirStepView::Done(base)) => BindProgressView {
            dir: dir_below(base, path),
            full_path: joined(base, path),
            ..progress
        },
        _ => progress,
    }
}

/// The step that opens the directory of a socket.
fn open_dir_step(dir: &[u8]) -> (step: BindStep)
    ensures
        step@ == open_dir(dir@),
{
    proof {
        assert(0o600u32 & 0o7777u32 == 0o600u32) by (bit_vector);
    }
    BindStep::OpenDir { dir: copy_bytes(dir), mode: mode_bits(0o600) }
}

/// Goes on towards the parent directory of a socket, or opens the directory of the
/// socket below it.
fn locate_below(
    path: &[u8],
    progress: &mut BindProgress,
    inner: ConmonResult<ParentDirStep>,
) -> (step: ConmonResult<BindStep>)
    ensures
        result_view(step) == after_parent_dir(path@, result_view(inner)),
        final(progress)@ == located_below(old(progress)@, path@, result_view(inner)),
{
    match inner {
        Ok(ParentDirStep::Done(base)) => {
            progress.full_path = join(base.as_slice(), path);
            let dir = match parent(path) {
                Some(below) => join(base.as_slice(), below),
                None => base,
            };
            let step = open_dir_step(dir.as_slice());
            progress.dir = dir;
            Ok(step)
        },
        Ok(step) => Ok(BindStep::ParentDir(step)),
        Err(e) => Err(e),
    }
}

/// The step that creates a socket.
fn create_socket_step(request: &BindRequest) -> (step: BindStep)
    ensures
        step@ == (BindStepView::CreateSocket {
            sock_type: request.sock_type,
            nonblocking: request.nonblocking,
            close_on_exec: request.close_on_exec,
        }),
{
    BindStep::CreateSocket {
        sock_type: request.sock_type,
        nonblocking: request.nonblocking,
        close_on_exec: request.close_on_exec,
    }
}

impl Default for UnixSocket {
    fn default() -> (socket: Self)
        ensures
            socket@ == (UnixSocketView {
                use_full_attach_path: false,
                bundle_path: Seq::empty(),
                socket_path: None,
                cuuid: None,
                path: None,
                fd: None,
                socket_type: SocketType::Console,
            }),
    {
        UnixSocket::new(SocketType::default(), false, Vec::new(), None, None)
    }
}

impl UnixSocket {
    pub fn new(
        socket_type: SocketType,
        use_full_attach_path: bool,
        bundle_path: Vec<u8>,
        socket_path: Option<Vec<u8>>,
        cuuid: Option<String>,
    ) -> (socket: Self)
        ensures
            socket == (UnixSocket {
                use_full_attach_path,
                bundle_path,
                socket_path,
                cuuid,
                path: None,
                fd: None,
                socket_type,
            }),
    {
        UnixSocket {
            use_full_attach_path,
            bundle_path,
            socket_path,
            cuuid,
            path: None,
            fd: None,
            socket_type,
        }
    }

    pub fn fd(&self) -> (fd: Option<i32>)
        ensures
            fd == self.fd,
    {
        self.fd
    }

    pub fn path(&self) -> (path: Option<&Vec<u8>>)
        ensures
            match path {
                Some(p) => self.path == Some(*p),
                None => self.path is None,
            },
    {
        self.path.as_ref()
    }

    /// The path below which the socket lies: the bundle, or the socket directory of
    /// the container. Empty when neither is known.
    pub open spec fn base_path(&self) -> Seq<u8> {
        if self.use_full_attach_path {
            self.bundle_path@
        } else if self.cuuid is Some && self.socket_path is Some {
            joined(self.socket_path->0@, encode_utf8(self.cuuid->0@))
        } else {
            Seq::empty()
        }
    }

    fn find_base_path(&self) -> (base: Vec<u8>)
        ensures
            base@ == self.base_path(),
    {
        if self.use_full_attach_path {
            copy_bytes(self.bundle_path.as_slice())
        } else {
            match (&self.cuuid, &self.socket_path) {
                (Some(cuuid), Some(socket_path)) => join(
                    socket_path.as_slice(),
                    cuuid.as_str().as_bytes(),
                ),
                _ => Vec::new(),
            }
        }
    }

    /// Returns the max socket path length.
    pub fn max_socket_path_len(&self) -> (len: usize)
        ensures
            len == SUN_PATH_LEN,
    {
        sun_path_len()
    }

    /// The link by which the bundle is reached.
    fn find_link(&self) -> (link: Vec<u8>)
        ensures
            link@ == cut_base(self.base_path()),
    {
        let base = self.find_base_path();
        let desired_len: usize = self.max_socket_path_len();
        // chop last char
        let limit: usize = if base.len() > 0 && base.len() >= desired_len - 1 {
            base.len() - 1
        } else {
            base.len()
        };
        let mut n: usize = 0;
        while n < limit && base[n] != 0
            invariant
                n <= limit <= base@.len(),
                forall|k: int| 0 <= k < n ==> base@[k] != 0,
            decreases limit - n,
        {
            n = n + 1;
        }
        proof {
            let cut = base@.take(limit as int);
            lemma_until_nul(cut, n as int);
            assert(cut.take(n as int) =~= base@.take(n as int));
            assert(limit == base@.len() ==> cut =~= base@);
            assert(limit < base@.len() ==> cut =~= base@.drop_last());
        }
        let mut link = base;
        link.truncate(n);
        assert(link@ =~= self.base_path().take(n as int));
        link
    }

    /// The step that makes the link to the bundle.
    pub open spec fn link_to_bundle(&self) -> ParentDirStepView {
        ParentDirStepView::Symlink {
            target: self.bundle_path@,
            link: cut_base(self.base_path()),
        }
    }

    /// What is needed to find the parent directory after `event`.
    pub open spec fn parent_dir_outcome(&self, event: ParentDirEvent) -> Result<
        ParentDirStepView,
        ErrorView,
    > {
        match event {
            ParentDirEvent::Start => if self.base_path().len() == 0 {
                Err(failure("Base path for socket cannot be determined"@))
            } else if self.use_full_attach_path {
                Ok(ParentDirStepView::Done(self.bundle_path@))
            } else {
                Ok(ParentDirStepView::Unlink(cut_base(self.base_path())))
            },
            ParentDirEvent::Unlinked => Ok(self.link_to_bundle()),
            ParentDirEvent::UnlinkFailed(failed) => if failed.kind == ErrorKind::NoEntry {
                Ok(self.link_to_bundle())
            } else {
                Err(failure("Cannot unlink "@ + failed.subject@ + ": "@ + failed.reason@))
            },
            ParentDirEvent::Linked => Ok(ParentDirStepView::Done(cut_base(self.base_path()))),
            ParentDirEvent::LinkFailed { target, failed } => Err(
                failure(
                    "Cannot symlink "@ + target@ + " to "@ + failed.subject@ + ": "@
                        + failed.reason@,
                ),
            ),
        }
    }

    /// Generates the socket parent directory based on the UnixSocket options.
    ///
    /// It is the bundle itself, or a symbolic link to the bundle that is made anew.
    pub fn socket_parent_dir(&self, event: ParentDirEvent) -> (step: ConmonResult<ParentDirStep>)
        ensures
            result_view(step) == self.parent_dir_outcome(event),
    {
        match event {
            ParentDirEvent::Start => {
                // Use the `bundle_path` as base path. Fallback to `socket_path`.
                let base = self.find_base_path();

                // We don't have `bundle_path` nor `cuuid` and `socket_path`.
                if base.is_empty() {
                    return Err(fail("Base path for socket cannot be determined".to_owned()));
                }
                if self.use_full_attach_path {
                    // nothing else to do
                    return Ok(ParentDirStep::Done(base));
                }
                // Remove old symlink if present
                Ok(ParentDirStep::Unlink(self.find_link()))
            },
            ParentDirEvent::Unlinked => Ok(self.link_step()),
            ParentDirEvent::UnlinkFailed(failed) => {
                if failed.kind == ErrorKind::NoEntry {
                    return Ok(self.link_step());
                }
                Err(
                    fail(
                        join4(
                            "Cannot unlink ",
                            failed.subject.as_str(),
                            ": ",
                            failed.reason.as_str(),
                        ),
                    ),
                )
            },
            ParentDirEvent::Linked => Ok(ParentDirStep::Done(self.find_link())),
            ParentDirEvent::LinkFailed { target, failed } => {
                let names = join4(
                    "Cannot symlink ",
                    target.as_str(),
                    " to ",
                    failed.subject.as_str(),
                );
                Err(fail(join3(names.as_str(), ": ", failed.reason.as_str())))
            },
        }
    }

    fn link_step(&self) -> (step: ParentDirStep)
        ensures
            step@ == self.link_to_bundle(),
    {
        ParentDirStep::Symlink {
            target: copy_bytes(self.bundle_path.as_slice()),
            link: self.find_link(),
        }
    }

    /// Makes the address of a socket that is bound relative to a directory.
    ///
    /// # Arguments
    ///
    /// * `dir_fd` - The file descriptor pointing to a directory in which we bind. If not
    ///   set, the `path` is used as it is.
    /// * `path` - Path to bind to. If `dir_fd` is set, its final component is used in the
    ///   `dir_fd` context.
    /// * `path_text` - The path as error messages show it.
    pub fn bind_relative_to_dir(
        &self,
        dir_fd: Option<i32>,
        path: &[u8],
        path_text: &str,
    ) -> (addr: ConmonResult<UnixAddr>)
        ensures
            addr_view(addr) == addressed_in_dir(dir_fd, path@, path_text@),
    {
        match dir_fd {
            Some(fd) => {
                // Get the base_name - the directory is defined by dir_fd.
                match file_name(path) {
                    Some(base_name) => {
                        // /proc/self/fd/<dir_fd>/<path>
                        let number = i32_text(fd);
                        let text = text_from_utf8_lossy(base_name);
                        let name = join4("/proc/self/fd/", number.as_str(), "/", text.as_str());
                        let name_text = debug_path_text(name.as_str());
                        make_addr(name.as_str().as_bytes(), name_text.as_str())
                    },
                    None => Err(fail("no basename".to_owned())),
                }
            },
            None => make_addr(path, path_text),
        }
    }

    /// What is needed to bind the socket after `event`.
    pub open spec fn bind_outcome(
        &self,
        request: BindRequest,
        progress: BindProgress,
        event: BindEvent,
    ) -> Result<BindStepView, ErrorView> {
        let create = BindStepView::CreateSocket {
            sock_type: request.sock_type,
            nonblocking: request.nonblocking,
            close_on_exec: request.close_on_exec,
        };
        match event {
            BindEvent::Start => match request.path {
                None => Ok(BindStepView::AskTempDir),
                Some(path) => if needs_parent_dir(path@) {
                    after_parent_dir(path@, self.parent_dir_outcome(ParentDirEvent::Start))
                } else {
                    Ok(open_dir(enclosing(path@)->0))
                },
            },
            BindEvent::ParentDir(inner) => after_parent_dir(
                request.path->0@,
                self.parent_dir_outcome(inner),
            ),
            BindEvent::DirOpened(_) => Ok(BindStepView::RemoveOld(progress.full_path@)),
            BindEvent::DirOpenFailed(failed) => Err(
                failure("Failed to open directory "@ + failed.subject@ + ": "@ + failed.reason@),
            ),
            BindEvent::TempDir(dir) => Ok(
                BindStepView::MakeTemp(joined(dir@, encode_utf8("conmon-term.XXXXXX"@))),
            ),
            BindEvent::TempCreated { path, .. } => Ok(BindStepView::RemoveOld(path@)),
            BindEvent::OldRemoved => Ok(create),
            BindEvent::OldRemoveFailed(failed) => if failed.kind == ErrorKind::NoEntry {
                Ok(create)
            } else {
                Err(
                    failure(
                        "Failed to remove old socket "@ + failed.subject@ + ": "@ + failed.reason@,
                    ),
                )
            },
            BindEvent::SocketCreated(fd) => match addressed_in_dir(
                progress.dir_fd,
                progress.full_path@,
                progress.full_path_text@,
            ) {
                Ok(_) => Ok(BindStepView::SetMode { fd, mode: request.perms & 0o7777u32 }),
                Err(e) => Err(e),
            },
            BindEvent::ModeSet => match addressed_in_dir(
                progress.dir_fd,
                progress.full_path@,
                progress.full_path_text@,
            ) {
                Ok(path) => Ok(BindStepView::Bind { fd: progress.fd, path }),
                Err(e) => Err(e),
            },
            BindEvent::Bound => Ok(BindStepView::Done),
            BindEvent::Failed(e) => Err(e@),
        }
    }

    /// What is known of the socket after `event`.
    pub open spec fn bind_progress(
        &self,
        request: BindRequest,
        progress: BindProgress,
        event: BindEvent,
    ) -> BindProgressView {
        match event {
            BindEvent::Start => match request.path {
                Some(path) => if needs_parent_dir(path@) {
                    located_below(
                        progress@,
                        path@,
                        self.parent_dir_outcome(ParentDirEvent::Start),
                    )
                } else {
                    BindProgressView {
                        dir: enclosing(path@)->0,
                        full_path: path@,
                        ..progress@
                    }
                },
                None => progress@,
            },
            BindEvent::ParentDir(inner) => located_below(
                progress@,
                request.path->0@,
                self.parent_dir_outcome(inner),
            ),
            BindEvent::DirOpened(fd) => BindProgressView { dir_fd: Some(fd), ..progress@ },
            BindEvent::TempCreated { path, text } => BindProgressView {
                full_path: path@,
                full_path_text: text@,
                dir_fd: None,
                ..progress@
            },
            BindEvent::SocketCreated(fd) => BindProgressView { fd, ..progress@ },
            _ => progress@,
        }
    }

    /// Generates the socket path, creates new socket and binds to the path.
    ///
    /// A socket with a path is created in the directory of the path, which is opened
    /// first; a relative path lies below the `socket_parent_dir()`. A socket without a
    /// path takes the place of a temporary file. A socket of the same name is removed.
    /// The descriptor and the path are recorded once the socket is bound.
    pub fn bind(
        &mut self,
        request: &BindRequest,
        progress: &mut BindProgress,
        event: BindEvent,
    ) -> (step: ConmonResult<BindStep>)
        requires
            event is ParentDir ==> request.path is Some,
        ensures
            result_view(step) == old(self).bind_outcome(*request, *old(progress), event),
            final(progress)@ == old(self).bind_progress(*request, *old(progress), event),
            !(event is Bound) ==> *final(self) == *old(self),
            event is Bound ==> {
                &&& final(self).fd == Some(old(progress).fd)
                &&& final(self).path is Some
                &&& final(self).path->0@ == old(progress).full_path@
                &&& *final(self) == (UnixSocket {
                    fd: final(self).fd,
                    path: final(self).path,
                    ..*old(self)
                })
            },
    {
        match event {
            BindEvent::Start => match &request.path {
                None => Ok(BindStep::AskTempDir),
                Some(path) => {
                    // We have some path, but we need an absolute path.
                    // If the path is an absolute path, use it.
                    // If it's not, generate the absolute path using socket_parent_dir() and
                    // prefix the path with it.
                    match parent(path.as_slice()) {
                        Some(dir) => if is_absolute(dir) {
                            progress.dir = copy_bytes(dir);
                            progress.full_path = copy_bytes(path.as_slice());
                            return Ok(open_dir_step(dir));
                        },
                        None => {},
                    }
                    let inner = self.socket_parent_dir(ParentDirEvent::Start);
                    locate_below(path.as_slice(), progress, inner)
                },
            },
            BindEvent::ParentDir(inner_event) => match &request.path {
                Some(path) => {
                    let inner = self.socket_parent_dir(inner_event);
                    locate_below(path.as_slice(), progress, inner)
                },
                None => Ok(BindStep::AskTempDir),
            },
            BindEvent::DirOpened(fd) => {
                // Store the dir_fd, because we will be creating the socket in this dir.
                progress.dir_fd = Some(fd);
                // Remove old socket if present.
                Ok(BindStep::RemoveOld(copy_bytes(progress.full_path.as_slice())))
            },
            BindEvent::DirOpenFailed(failed) => Err(
                fail(
                    join4(
                        "Failed to open directory ",
                        failed.subject.as_str(),
                        ": ",
                        failed.reason.as_str(),
                    ),
                ),
            ),
            BindEvent::TempDir(dir) => {
                // We do not have a path, so create temporary one.
                let template = join(dir.as_slice(), "conmon-term.XXXXXX".as_bytes());
                Ok(BindStep::MakeTemp(template))
            },
            BindEvent::TempCreated { path, text } => {
                let old = copy_bytes(path.as_slice());
                progress.full_path = path;
                progress.full_path_text = text;
                progress.dir_fd = None;
                Ok(BindStep::RemoveOld(old))
            },
            BindEvent::OldRemoved => Ok(create_socket_step(request)),
            BindEvent::OldRemoveFailed(failed) => {
                if failed.kind == ErrorKind::NoEntry {
                    return Ok(create_socket_step(request));
                }
                Err(
                    fail(
                        join4(
                            "Failed to remove old socket ",
                            failed.subject.as_str(),
                            ": ",
                            failed.reason.as_str(),
                        ),
                    ),
                )
            },
            BindEvent::SocketCreated(fd) => {
                progress.fd = fd;
                match self.bind_relative_to_dir(
                    progress.dir_fd,
                    progress.full_path.as_slice(),
                    progress.full_path_text.as_str(),
                ) {
                    Ok(_) => Ok(BindStep::SetMode { fd, mode: mode_bits(request.perms) }),
                    Err(e) => Err(e),
                }
            },
            BindEvent::ModeSet => {
                match self.bind_relative_to_dir(
                    progress.dir_fd,
                    progress.full_path.as_slice(),
                    progress.full_path_text.as_str(),
                ) {
                    Ok(addr) => Ok(BindStep::Bind { fd: progress.fd, addr }),
                    Err(e) => Err(e),
                }
            },
            BindEvent::Bound => {
                self.fd = Some(progress.fd);
                self.path = Some(copy_bytes(progress.full_path.as_slice()));
                Ok(BindStep::Done)
            },
            BindEvent::Failed(e) => Err(e),
        }
    }

    /// Returns the descriptor to listen on, once the socket is bound.
    pub fn listen(&self) -> (fd: Option<i32>)
        ensures
            fd == self.fd,
    {
        self.fd
    }

    /// Whether a step is to accept a connection; there is none to accept on a socket
    /// that is not bound.
    pub open spec fn accepts(&self, step: ConmonResult<AcceptStep>) -> bool {
        match self.fd {
            Some(fd) => step == Ok::<_, ConmonError>(AcceptStep::Accept(fd)),
            None => step == Ok::<_, ConmonError>(AcceptStep::Done(None)),
        }
    }

    /// Accepts new UnixSocket client (remote) connection.
    ///
    /// # Returns
    /// * The RemoteSocket with new client connection. The type of the RemoteSocket
    ///   is the same as type of this UnixSocket.
    pub fn accept(&self, event: AcceptEvent) -> (step: ConmonResult<AcceptStep>)
        ensures
            match event {
                AcceptEvent::Start => self.accepts(step),
                AcceptEvent::Accepted(fd) => step matches Ok(AcceptStep::Done(Some(remote)))
                    && remote.fresh(self.socket_type, fd),
                AcceptEvent::Failed(failed) => match failed.kind {
                    ErrorKind::Interrupted => self.accepts(step),
                    ErrorKind::WouldBlock => step == Ok::<_, ConmonError>(AcceptStep::Done(None)),
                    _ => step matches Err(e) && e@ == failure(
                        "Failed to accept client connection on "@ + failed.subject@ + ": "@
                            + failed.reason@,
                    ),
                },
            },
    {
        match event {
            AcceptEvent::Start => Ok(self.accept_step()),
            AcceptEvent::Accepted(fd) => Ok(
                AcceptStep::Done(Some(RemoteSocket::new(self.socket_type, fd))),
            ),
            AcceptEvent::Failed(failed) => match failed.kind {
                ErrorKind::Interrupted => Ok(self.accept_step()),
                ErrorKind::WouldBlock => Ok(AcceptStep::Done(None)),
                _ => Err(
                    fail(
                        join4(
                            "Failed to accept client connection on ",
                            failed.subject.as_str(),
                            ": ",
                            failed.reason.as_str(),
                        ),
                    ),
                ),
            },
        }
    }

    fn accept_step(&self) -> (step: AcceptStep)
        ensures
            self.accepts(Ok(step)),
    {
        match self.fd {
            Some(fd) => AcceptStep::Accept(fd),
            None => AcceptStep::Done(None),
        }
    }
}

impl RemoteSocket {
    /// Makes a bound socket one that is read from directly. It stays bound where it is.
    pub fn from(socket: UnixSocket) -> (remote: Self)
        requires
            socket.fd is Some,
        ensures
            remote.fresh(socket.socket_type, socket.fd->0),
    {
        RemoteSocket::new(socket.socket_type, socket.fd.unwrap())
    }
}

/// A base path that is cut down is a prefix of what it was, holds no NUL, and is
/// shorter than it was when that left no room in a socket address.
pub proof fn law_cut_base(base: Seq<u8>)
    ensures
        cut_base(base).is_prefix_of(base),
        !cut_base(base).contains(0u8),
        base.len() >= SUN_PATH_LEN - 1 ==> cut_base(base).len() < base.len(),
        base.len() < SUN_PATH_LEN ==> cut_base(base).len() < SUN_PATH_LEN - 1,
        !base.contains(0u8) && base.len() < SUN_PATH_LEN - 1 ==> cut_base(base) == base,
        !base.contains(0u8) && base.len() >= 107 ==> cut_base(base) == base.drop_last(),
        cut_base(base).len() < base.len() && !(base.len() >= 107 && cut_base(base).len()
            == base.len() - 1) ==> base[cut_base(base).len() as int] == 0,
{
    let kept = if base.len() >= SUN_PATH_LEN - 1 {
        base.drop_last()
    } else {
        base
    };
    lemma_until_nul_prefix(kept);
    lemma_until_nul_prefix(base);
    assert(cut_base(base).is_prefix_of(base)) by {
        assert(kept.take(cut_base(base).len() as int) =~= base.take(cut_base(base).len() as int));
    }
    if !base.contains(0u8) && base.len() >= 107 {
        assert(!kept.contains(0u8)) by {
            if kept.contains(0u8) {
                let k = choose|k: int| 0 <= k < kept.len() && kept[k] == 0;
                assert(base[k] == 0);
            }
        }
    }
}

proof fn lemma_until_nul_prefix(s: Seq<u8>)
    ensures
        until_nul(s).len() <= s.len(),
        until_nul(s) == s.take(until_nul(s).len() as int),
        !until_nul(s).contains(0u8),
        !s.contains(0u8) ==> until_nul(s) == s,
        until_nul(s).len() < s.len() ==> s[until_nul(s).len() as int] == 0,
    decreases s.len(),
{
    if s.len() > 0 && s[0] != 0 {
        let rest = s.skip(1);
        lemma_until_nul_prefix(rest);
        assert(until_nul(s) =~= s.take(until_nul(s).len() as int));
        if until_nul(s).contains(0u8) {
            let k = choose|k: int| 0 <= k < until_nul(s).len() && until_nul(s)[k] == 0;
            assert(until_nul(rest)[k - 1] == 0);
        }
        if !s.contains(0u8) {
            assert(!rest.contains(0u8)) by {
                if rest.contains(0u8) {
                    let k = choose|k: int| 0 <= k < rest.len() && rest[k] == 0;
                    assert(s[k + 1] == 0);
                }
            }
            assert(until_nul(s) =~= s);
        }
    } else {
        assert(until_nul(s) =~= s.take(0));
        if s.len() > 0 {
            assert(s.contains(s[0]));
        }
    }
}

/// A socket with a relative path is created in the directory that encloses the path below
/// the parent directory, as the entry that the path names last. The path that is recorded
/// for it is the path below the parent directory, and ends in that same name.
pub proof fn law_relative_socket_location(
    base: Seq<u8>,
    path: Seq<u8>,
    dir_fd: i32,
    path_text: Seq<char>,
)
    requires
        !absolute(path),
        final_component(path) is Some,
    ensures
        needs_parent_dir(path),
        ({
            let full_path = joined(base, path);
            let name = final_component(path)->0;
            let entry = entry_by_descriptor(dir_fd, name);
            &&& final_component(full_path) == Some(name)
            &&& addressed_in_dir(Some(dir_fd), full_path, path_text) == addressed(
                encode_utf8(entry),
                path_debug(entry),
            )
        }),
{
    law_file_name_of_join(base, path);
    law_enclosing_is_prefix(path);
}

/// The directory in which a socket with a relative path is created, and the name under which
/// it is created there, make up the path that is recorded for it.
pub proof fn law_directory_and_name_make_up_path(base: Seq<u8>, dir: Seq<u8>, name: Seq<u8>)
    requires
        plain_name(name),
        !absolute(dir),
        trimmed_length(dir, body_start(dir), dir.len() as int) == dir.len(),
    ensures
        ({
            let path = joined(dir, name);
            &&& !absolute(path)
            &&& final_component(path) == Some(name)
            &&& joined(dir_below(base, path), name) == joined(base, path)
        }),
{
    let path = joined(dir, name);
    law_plain_name(name);
    law_file_name_of_join(dir, name);
    law_parent_of_join(dir, name);
    assert(name[0] != SLASH);
    if dir.len() > 0 {
        assert(path[0] == dir[0]);
    } else {
        assert(path =~= name);
    }
    assert(joined(joined(base, dir), name) =~= joined(base, path));
}

/// A socket with an absolute path needs no parent directory: it is created in the
/// directory of the path.
pub proof fn law_absolute_socket_location(dir: Seq<u8>, name: Seq<u8>)
    requires
        plain_name(name),
        absolute(dir),
        trimmed_length(dir, body_start(dir), dir.len() as int) == dir.len(),
    ensures
        !needs_parent_dir(joined(dir, name)),
        enclosing(joined(dir, name)) == Some(dir),
        final_component(joined(dir, name)) == Some(name),
{
    law_plain_name(name);
    law_parent_of_join(dir, name);
    law_file_name_of_join(dir, name);
}

/// From start to end, a socket with a relative path concerns one place only: the directory
/// that is opened is the one of the path below the parent directory, the old socket that is
/// removed and the path that is recorded are the path below the parent directory, and the
/// address is the entry of the same name in the open directory.
pub proof fn law_bind_is_one_place(
    socket: UnixSocket,
    request: BindRequest,
    inner: ParentDirEvent,
    base: Seq<u8>,
    start: BindProgress,
    located: BindProgress,
    opened: BindProgress,
    created: BindProgress,
    dir_fd: i32,
    fd: i32,
)
    requires
        request.path is Some,
        !absolute(request.path->0@),
        final_component(request.path->0@) is Some,
        socket.parent_dir_outcome(inner) == Ok::<_, ErrorView>(ParentDirStepView::Done(base)),
        located@ == socket.bind_progress(request, start, BindEvent::ParentDir(inner)),
        opened@ == socket.bind_progress(request, located, BindEvent::DirOpened(dir_fd)),
        created@ == socket.bind_progress(request, opened, BindEvent::SocketCreated(fd)),
    ensures
        ({
            let path = request.path->0@;
            let name = final_component(path)->0;
            let place = joined(base, path);
            let entry = entry_by_descriptor(dir_fd, name);
            let addr = addressed(encode_utf8(entry), path_debug(entry));
            let asked = BindEvent::ParentDir(inner);
            &&& socket.bind_outcome(request, start, asked) == Ok::<_, ErrorView>(
                open_dir(joined(base, enclosing(path)->0)),
            )
            &&& inner is Start ==> {
                &&& socket.bind_outcome(request, start, BindEvent::Start) == socket.bind_outcome(
                    request,
                    start,
                    asked,
                )
                &&& socket.bind_progress(request, start, BindEvent::Start) == located@
            }
            &&& socket.bind_outcome(request, located, BindEvent::DirOpened(dir_fd)) == Ok::<
                _,
                ErrorView,
            >(BindStepView::RemoveOld(place))
            &&& created.full_path@ == place
            &&& final_component(place) == Some(name)
            &&& socket.bind_outcome(request, created, BindEvent::ModeSet) == (match addr {
                Ok(path) => Ok(BindStepView::Bind { fd, path }),
                Err(e) => Err(e),
            })
        }),
{
    let path = request.path->0@;
    law_relative_socket_location(base, path, dir_fd, created.full_path_text@);
    law_enclosing_is_prefix(path);
}

/// Where the base path of a socket comes from: it is the bundle if sockets lie there, else the
/// directory of the container in the socket directory; without an id or a socket directory
/// there is none.
pub proof fn law_base_path(socket: UnixSocket)
    ensures
        socket.use_full_attach_path ==> socket.base_path() == socket.bundle_path@,
        !socket.use_full_attach_path && socket.cuuid is Some && socket.socket_path is Some
            ==> socket.base_path() == joined(
            socket.socket_path->0@,
            encode_utf8(socket.cuuid->0@),
        ),
        !socket.use_full_attach_path && (socket.cuuid is None || socket.socket_path is None)
            ==> socket.base_path().len() == 0,
{
}

/// How the parent directory is found. Without a base path there is none. With full attach it
/// is the bundle, and nothing is touched. Otherwise it is a symbolic link to the bundle in
/// place of the base path, cut to fit an address: an old link is removed first, and it does
/// not matter if there was none.
pub proof fn law_parent_dir(
    socket: UnixSocket,
    failed: OsFailure,
    target: String,
)
    ensures
        ({
            let link = cut_base(socket.base_path());
            let make_link = Ok::<_, ErrorView>(
                ParentDirStepView::Symlink { target: socket.bundle_path@, link },
            );
            let none = socket.base_path().len() == 0;
            let start = socket.parent_dir_outcome(ParentDirEvent::Start);
            let unlink = socket.parent_dir_outcome(ParentDirEvent::UnlinkFailed(failed));
            &&& none ==> start == Err::<ParentDirStepView, _>(
                failure("Base path for socket cannot be determined"@),
            )
            &&& !none && socket.use_full_attach_path ==> start == Ok::<_, ErrorView>(
                ParentDirStepView::Done(socket.bundle_path@),
            )
            &&& !none && !socket.use_full_attach_path ==> start == Ok::<_, ErrorView>(
                ParentDirStepView::Unlink(link),
            )
            &&& socket.parent_dir_outcome(ParentDirEvent::Unlinked) == make_link
            &&& failed.kind == ErrorKind::NoEntry ==> unlink == make_link
            &&& failed.kind != ErrorKind::NoEntry ==> unlink == Err::<ParentDirStepView, _>(
                failure("Cannot unlink "@ + failed.subject@ + ": "@ + failed.reason@),
            )
            &&& socket.parent_dir_outcome(ParentDirEvent::Linked) == Ok::<_, ErrorView>(
                ParentDirStepView::Done(link),
            )
            &&& socket.parent_dir_outcome(ParentDirEvent::LinkFailed { target, failed }) == Err::<
                ParentDirStepView,
                _,
            >(
                failure(
                    "Cannot symlink "@ + target@ + " to "@ + failed.subject@ + ": "@
                        + failed.reason@,
                ),
            )
        }),
{
}

/// A path becomes the address of a socket as it is, if it holds no NUL and is at most 107
/// bytes long; every other path is refused, with the code that says which of the two failed.
pub proof fn law_address_is_the_path(path: Seq<u8>, path_text: Seq<char>)
    ensures
        !path.contains(0u8) && path.len() <= 107 ==> addressed(path, path_text) == Ok::<
            _,
            ErrorView,
        >(path),
        path.contains(0u8) ==> addressed(path, path_text) == Err::<Seq<u8>, _>(
            failure("Failed to create UnixAddr from "@ + path_text + ": "@ + "EINVAL"@),
        ),
        !path.contains(0u8) && path.len() > 107 ==> addressed(path, path_text) == Err::<Seq<u8>, _>(
            failure("Failed to create UnixAddr from "@ + path_text + ": "@ + "ENAMETOOLONG"@),
        ),
{
}

/// A socket in an open directory is addressed by the descriptor of the directory and the final
/// component of its path, which it must have; without a directory, by its path.
pub proof fn law_address_in_directory(dir_fd: i32, path: Seq<u8>, path_text: Seq<char>)
    ensures
        ({
            let name = final_component(path);
            let entry = "/proc/self/fd/"@ + signed_decimal(dir_fd as int) + "/"@ + lossy_text(
                name->0,
            );
            &&& name is Some ==> addressed_in_dir(Some(dir_fd), path, path_text) == addressed(
                encode_utf8(entry),
                path_debug(entry),
            )
            &&& name is None ==> addressed_in_dir(Some(dir_fd), path, path_text) == Err::<
                Seq<u8>,
                _,
            >(failure("no basename"@))
            &&& entry_by_descriptor(dir_fd, name->0) == entry
        }),
        addressed_in_dir(None, path, path_text) == addressed(path, path_text),
{
}

/// What each step of binding a socket asks for, and what it follows: the socket is created as
/// was requested once the old one is gone, gets the requested permissions once it has an
/// address, and is bound to that address after that.
pub proof fn law_what_bind_asks_for(
    socket: UnixSocket,
    request: BindRequest,
    progress: BindProgress,
    event: BindEvent,
)
    ensures
        socket.bind_outcome(request, progress, event) matches Ok(step) ==> match step {
            BindStepView::OpenDir { dir, mode } => {
                &&& event is Start || event is ParentDir
                &&& mode == 0o600
                &&& dir == socket.bind_progress(request, progress, event).dir
            },
            BindStepView::ParentDir(_) => event is Start || event is ParentDir,
            BindStepView::AskTempDir => event is Start && request.path is None,
            BindStepView::MakeTemp(template) => event matches BindEvent::TempDir(dir) && template
                == joined(dir@, encode_utf8("conmon-term.XXXXXX"@)),
            BindStepView::RemoveOld(path) => {
                &&& event is DirOpened || event is TempCreated
                &&& path == socket.bind_progress(request, progress, event).full_path
            },
            BindStepView::CreateSocket { sock_type, nonblocking, close_on_exec } => {
                &&& event is OldRemoved || event is OldRemoveFailed
                &&& sock_type == request.sock_type
                &&& nonblocking == request.nonblocking
                &&& close_on_exec == request.close_on_exec
            },
            BindStepView::SetMode { fd, mode } => {
                &&& event == BindEvent::SocketCreated(fd)
                &&& mode == request.perms & 0o7777u32
            },
            BindStepView::Bind { fd, path } => {
                &&& event is ModeSet
                &&& fd == progress.fd
                &&& addressed_in_dir(
                    progress.dir_fd,
                    progress.full_path@,
                    progress.full_path_text@,
                ) == Ok::<_, ErrorView>(path)
            },
            BindStepView::Done => event is Bound,
        },
        event is Bound || event is OldRemoved || event is DirOpened || event is TempDir
            || event is TempCreated ==> socket.bind_outcome(request, progress, event) is Ok,
        event is Start && request.path is None ==> socket.bind_outcome(request, progress, event)
            is Ok,
        event is SocketCreated || event is ModeSet ==> (socket.bind_outcome(
            request,
            progress,
            event,
        ) is Ok <==> addressed_in_dir(
            progress.dir_fd,
            progress.full_path@,
            progress.full_path_text@,
        ) is Ok),
{
}

/// How binding a socket fails: with what the system has said of the directory or of the old
/// socket, unless there was none; with what is wrong with the address; or with the failure of
/// a step, as it is.
pub proof fn law_how_bind_fails(
    socket: UnixSocket,
    request: BindRequest,
    progress: BindProgress,
    failed: OsFailure,
    error: ConmonError,
    fd: i32,
)
    ensures
        socket.bind_outcome(request, progress, BindEvent::DirOpenFailed(failed)) == Err::<
            BindStepView,
            _,
        >(failure("Failed to open directory "@ + failed.subject@ + ": "@ + failed.reason@)),
        socket.bind_outcome(request, progress, BindEvent::OldRemoveFailed(failed)) is Ok
            <==> failed.kind == ErrorKind::NoEntry,
        failed.kind != ErrorKind::NoEntry ==> socket.bind_outcome(
            request,
            progress,
            BindEvent::OldRemoveFailed(failed),
        ) == Err::<BindStepView, _>(
            failure("Failed to remove old socket "@ + failed.subject@ + ": "@ + failed.reason@),
        ),
        socket.bind_outcome(request, progress, BindEvent::Failed(error)) == Err::<BindStepView, _>(
            error@,
        ),
        addressed_in_dir(
            progress.dir_fd,
            progress.full_path@,
            progress.full_path_text@,
        ) matches Err(why) ==> socket.bind_outcome(request, progress, BindEvent::SocketCreated(fd))
            == Err::<BindStepView, _>(why) && socket.bind_outcome(
            request,
            progress,
            BindEvent::ModeSet,
        ) == Err::<BindStepView, _>(why),
{
}

/// What is remembered while a socket is bound: each field takes what its own events have
/// brought, and changes on no other.
pub proof fn law_what_bind_remembers(
    socket: UnixSocket,
    request: BindRequest,
    progress: BindProgress,
    event: BindEvent,
)
    ensures
        ({
            let next = socket.bind_progress(request, progress, event);
            &&& next.dir_fd == (match event {
                BindEvent::DirOpened(fd) => Some(fd),
                BindEvent::TempCreated { .. } => None,
                _ => progress.dir_fd,
            })
            &&& next.fd == (match event {
                BindEvent::SocketCreated(fd) => fd,
                _ => progress.fd,
            })
            &&& next.full_path_text == (match event {
                BindEvent::TempCreated { path, text } => text@,
                _ => progress.full_path_text@,
            })
            &&& event matches BindEvent::TempCreated { path, text } ==> next.full_path == path@
            &&& !(event is Start || event is ParentDir || event is TempCreated) ==> next.full_path
                == progress.full_path@
            &&& !(event is Start || event is ParentDir) ==> next.dir == progress.dir@
        }),
{
}

/// A socket without a path lies where its temporary file was: that file is removed, the path
/// is recorded, and the path itself is the address.
pub proof fn law_temporary_socket_is_one_place(
    socket: UnixSocket,
    request: BindRequest,
    start: BindProgress,
    made: BindProgress,
    created: BindProgress,
    path: Vec<u8>,
    text: String,
    fd: i32,
)
    requires
        made@ == socket.bind_progress(request, start, BindEvent::TempCreated { path, text }),
        created@ == socket.bind_progress(request, made, BindEvent::SocketCreated(fd)),
    ensures
        socket.bind_outcome(request, start, BindEvent::TempCreated { path, text }) == Ok::<
            _,
            ErrorView,
        >(BindStepView::RemoveOld(path@)),
        created.full_path@ == path@,
        !path@.contains(0u8) && path@.len() <= 107 ==> socket.bind_outcome(
            request,
            created,
            BindEvent::ModeSet,
        ) == Ok::<_, ErrorView>(BindStepView::Bind { fd, path: path@ }),
{
}

/// A socket with an absolute path is one place too: the directory of the path is opened, the
/// path is removed and recorded, and the address is the entry of its name in the directory.
pub proof fn law_absolute_socket_is_one_place(
    socket: UnixSocket,
    request: BindRequest,
    start: BindProgress,
    located: BindProgress,
    opened: BindProgress,
    created: BindProgress,
    dir_fd: i32,
    fd: i32,
)
    requires
        request.path is Some,
        enclosing(request.path->0@) is Some,
        absolute(enclosing(request.path->0@)->0),
        located@ == socket.bind_progress(request, start, BindEvent::Start),
        opened@ == socket.bind_progress(request, located, BindEvent::DirOpened(dir_fd)),
        created@ == socket.bind_progress(request, opened, BindEvent::SocketCreated(fd)),
    ensures
        ({
            let path = request.path->0@;
            let addr = addressed_in_dir(Some(dir_fd), path, start.full_path_text@);
            &&& socket.bind_outcome(request, start, BindEvent::Start) == Ok::<_, ErrorView>(
                BindStepView::OpenDir { dir: enclosing(path)->0, mode: 0o600 },
            )
            &&& socket.bind_outcome(request, located, BindEvent::DirOpened(dir_fd)) == Ok::<
                _,
                ErrorView,
            >(BindStepView::RemoveOld(path))
            &&& created.full_path@ == path
            &&& addr is Ok ==> socket.bind_outcome(request, created, BindEvent::ModeSet) == Ok::<
                _,
                ErrorView,
            >(BindStepView::Bind { fd, path: addr->Ok_0 })
        }),
{
}

/// A socket with a relative path is put below the parent directory as soon as that is known:
/// its path is recorded below it, and the directory of the path below it is opened. Until
/// then the steps towards the parent directory are taken, and their failure is that of the
/// whole.
pub proof fn law_bind_below_parent_dir(
    socket: UnixSocket,
    request: BindRequest,
    progress: BindProgress,
    inner: ParentDirEvent,
)
    requires
        request.path is Some,
    ensures
        ({
            let path = request.path->0@;
            let event = BindEvent::ParentDir(inner);
            let outcome = socket.bind_outcome(request, progress, event);
            let next = socket.bind_progress(request, progress, event);
            match socket.parent_dir_outcome(inner) {
                Ok(ParentDirStepView::Done(base)) => {
                    let dir = match enclosing(path) {
                        Some(below) => joined(base, below),
                        None => base,
                    };
                    &&& outcome == Ok::<_, ErrorView>(BindStepView::OpenDir { dir, mode: 0o600 })
                    &&& next.dir == dir
                    &&& next.full_path == joined(base, path)
                },
                Ok(step) => outcome == Ok::<_, ErrorView>(BindStepView::ParentDir(step)) && next
                    == progress@,
                Err(e) => outcome == Err::<BindStepView, _>(e) && next == progress@,
            }
        }),
        (enclosing(request.path->0@) is None || !absolute(enclosing(request.path->0@)->0)) ==> {
            &&& socket.bind_outcome(request, progress, BindEvent::Start) == socket.bind_outcome(
                request,
                progress,
                BindEvent::ParentDir(ParentDirEvent::Start),
            )
            &&& socket.bind_progress(request, progress, BindEvent::Start) == socket.bind_progress(
                request,
                progress,
                BindEvent::ParentDir(ParentDirEvent::Start),
            )
        },
{
}

/// A step of finding the parent directory is seen as what it names.
pub proof fn law_parent_dir_step_view(path: Vec<u8>, other: Vec<u8>)
    ensures
        ParentDirStep::Unlink(path)@ == ParentDirStepView::Unlink(path@),
        (ParentDirStep::Symlink { target: path, link: other })@ == (ParentDirStepView::Symlink {
            target: path@,
            link: other@,
        }),
        ParentDirStep::Done(path)@ == ParentDirStepView::Done(path@),
{
}

/// A step of binding a socket is seen as what it names; an address as the path it holds.
pub proof fn law_bind_step_view(step: BindStep)
    ensures
        match step {
            BindStep::ParentDir(inner) => step@ == BindStepView::ParentDir(inner@),
            BindStep::OpenDir { dir, mode } => step@ == (BindStepView::OpenDir { dir: dir@, mode }),
            BindStep::AskTempDir => step@ == BindStepView::AskTempDir,
            BindStep::MakeTemp(path) => step@ == BindStepView::MakeTemp(path@),
            BindStep::RemoveOld(path) => step@ == BindStepView::RemoveOld(path@),
            BindStep::CreateSocket { sock_type, nonblocking, close_on_exec } => step@ == (
            BindStepView::CreateSocket { sock_type, nonblocking, close_on_exec }),
            BindStep::SetMode { fd, mode } => step@ == (BindStepView::SetMode { fd, mode }),
            BindStep::Bind { fd, addr } => step@ == (BindStepView::Bind {
                fd,
                path: unix_addr_path(addr),
            }),
            BindStep::Done => step@ == BindStepView::Done,
        },
{
}

/// What describes a socket and how it is bound is seen whole.
pub proof fn law_socket_views(socket: UnixSocket, request: BindRequest, progress: BindProgress)
    ensures
        socket@.use_full_attach_path == socket.use_full_attach_path,
        socket@.bundle_path == socket.bundle_path@,
        socket.socket_path matches Some(path) ==> socket@.socket_path == Some(path@),
        socket.socket_path is None ==> socket@.socket_path is None,
        socket.cuuid matches Some(cuuid) ==> socket@.cuuid == Some(cuuid@),
        socket.cuuid is None ==> socket@.cuuid is None,
        socket.path matches Some(path) ==> socket@.path == Some(path@),
        socket.path is None ==> socket@.path is None,
        socket@.fd == socket.fd,
        socket@.socket_type == socket.socket_type,
        request.path matches Some(path) ==> request@.path == Some(path@),
        request.path is None ==> request@.path is None,
        request@.sock_type == request.sock_type,
        request@.nonblocking == request.nonblocking,
        request@.close_on_exec == request.close_on_exec,
        request@.perms == request.perms,
        progress@.dir == progress.dir@,
        progress@.full_path == progress.full_path@,
        progress@.full_path_text == progress.full_path_text@,
        progress@.dir_fd == progress.dir_fd,
        progress@.fd == progress.fd,
{
}

/// A client is accepted on the descriptor of the socket, and on none while it has none.
pub proof fn law_accepts(socket: UnixSocket, step: ConmonResult<AcceptStep>)
    requires
        socket.accepts(step),
    ensures
        socket.fd matches Some(fd) ==> step == Ok::<_, ConmonError>(AcceptStep::Accept(fd)),
        socket.fd is None ==> step == Ok::<_, ConmonError>(AcceptStep::Done(None)),
{
}

} // verus!
