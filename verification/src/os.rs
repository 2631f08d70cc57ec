//! What the operating system's interface is asked and answers, as plain values.
use nix::errno::Errno;
use nix::sys::signal::Signal;
use nix::sys::socket::{sockaddr_un, UnixAddr};
use nix::sys::stat::Mode;
use vstd::prelude::*;

verus! {

broadcast use vstd::slice::group_slice_axioms;

/// The failures of system calls that the monitor tells apart.
#[derive(Debug, Copy, Clone, PartialEq, Eq, Structural)]
pub enum ErrorKind {
    /// The call was interrupted by a signal (`EINTR`).
    Interrupted,
    /// There is no child process to wait for (`ECHILD`).
    NoChild,
    /// The call would have to block (`EAGAIN`, `EWOULDBLOCK`).
    WouldBlock,
    /// There is no such file (`ENOENT`).
    NoEntry,
    /// Any other failure.
    Other,
}

/// A failed system call.
#[derive(Debug)]
pub struct OsFailure {
    pub kind: ErrorKind,
    /// The failure in words, as the error message of the operation shows it.
    pub reason: String,
    /// What the call was made on, as the error message of the operation shows it.
    pub subject: String,
}

/// The address of a Unix socket, as the socket calls take it.
#[verifier::external_type_specification]
#[verifier::external_body]
pub struct ExUnixAddr(nix::sys::socket::UnixAddr);

/// The bytes of the path that a socket address holds.
pub uninterp spec fn unix_addr_path(addr: UnixAddr) -> Seq<u8>;

/// Number of bytes in the path of a `sockaddr_un`, the terminating NUL included.
pub const SUN_PATH_LEN: usize = 108;

/// Why a path cannot be the address of a socket.
#[derive(Debug, Copy, Clone, PartialEq, Eq, Structural)]
pub enum AddrFailure {
    /// The path and its terminating NUL do not fit (`ENAMETOOLONG`).
    NameTooLong,
    /// The path holds a NUL (`EINVAL`).
    Invalid,
}

/// Calls `nix::sys::socket::UnixAddr::new`. It refuses a path with a NUL in it, then
/// a path that leaves no room for the terminating NUL, and puts every other path
/// into the address as it is.
#[verifier::external_body]
pub(crate) fn unix_addr(path: &[u8]) -> (addr: Result<UnixAddr, AddrFailure>)
    ensures
        addr is Ok <==> (!path@.contains(0u8) && (path@.len() < SUN_PATH_LEN)),
        addr matches Ok(a) ==> unix_addr_path(a) == path@,
        addr matches Err(why) ==> why == (if path@.contains(0u8) {
            AddrFailure::Invalid
        } else {
            AddrFailure::NameTooLong
        }),
{
    match UnixAddr::new(path) {
        Ok(addr) => Ok(addr),
        Err(Errno::ENAMETOOLONG) => Err(AddrFailure::NameTooLong),
        Err(_) => Err(AddrFailure::Invalid),
    }
}

/// Asks the `sockaddr_un` that `nix` exports for the length of its path, which is
/// 108 on Linux.
#[verifier::external_body]
pub(crate) fn sun_path_len() -> (len: usize)
    ensures
        len == SUN_PATH_LEN,
{
    let addr = sockaddr_un { sun_family: 0, sun_path: [0; SUN_PATH_LEN] };
    addr.sun_path.len()
}

/// Calls `nix::sys::stat::Mode::from_bits_truncate`, which keeps the permission bits
/// and the set-user-id, set-group-id and sticky bits, and drops all others.
#[verifier::external_body]
pub(crate) fn mode_bits(bits: u32) -> (mode: u32)
    ensures
        mode == bits & 0o7777u32,
{
    Mode::from_bits_truncate(bits).bits()
}

/// Calls `nix::sys::signal::Signal::try_from`. On Linux it knows the standard signals, which
/// have the numbers 1 to 31 there, and keeps their numbers; MIPS and SPARC, where one of
/// these numbers has no name, are not considered.
#[verifier::external_body]
pub(crate) fn known_signal(number: i32) -> (signal: Option<i32>)
    ensures
        signal == (if 1 <= number <= 31 {
            Some(number)
        } else {
            None
        }),
{
    match Signal::try_from(number) {
        Ok(signal) => Some(signal as i32),
        Err(_) => None,
    }
}

} // verus!
