//! The configuration that all commands of the monitor share.
use vstd::prelude::*;

verus! {

/// Common configuration of a session. Paths are byte strings.
#[derive(Debug)]
pub struct CommonCfg {
    /// The `--api-version` value.
    pub api_version: i32,
    /// Whether the container writes its logs itself.
    pub logging_passthrough: bool,
    /// Whether sockets lie in the bundle itself.
    pub full_attach: bool,
    /// The bundle of the container.
    pub bundle: Vec<u8>,
    /// The directory for the sockets of containers.
    pub socket_dir_path: Vec<u8>,
    /// The unique id of the container.
    pub cuuid: Option<String>,
    /// Whether the container has a terminal.
    pub terminal: bool,
    /// Whether the container has a stdin.
    pub stdin: bool,
    /// The notify socket of the host.
    pub sdnotify_socket: Option<Vec<u8>>,
    /// Seconds after which the session ends.
    pub timeout: Option<u32>,
    /// Whether `LISTEN_PID` is replaced for the runtime.
    pub replace_listen_pid: bool,
    /// Whether the monitor stays in the foreground.
    pub sync_flag: bool,
    /// The file into which the pid of the monitor is written.
    pub conmon_pidfile: Option<Vec<u8>>,
    /// The file into which the runtime writes the pid of the container.
    pub container_pidfile: Vec<u8>,
    /// The directory for what is kept about the container.
    pub persist_dir: Option<Vec<u8>>,
}

} // verus!
