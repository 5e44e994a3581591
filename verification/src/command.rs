//! The process-wide configuration surface, fixed at startup: mount root,
//! state-storage path, and the transport the daemon listens on.

use vstd::prelude::*;
use vstd::string::StringExecFns;

verus! {

/// Arguments of the TCP transport.
#[derive(Debug)]
pub struct TcpArgs {
    pub port: u16,
}

impl Default for TcpArgs {
    /// The default listening port.
    fn default() -> (r: Self)
        ensures
            r.port == 7280,
    {
        TcpArgs { port: 7280 }
    }
}

/// Arguments of the Unix-domain-socket transport.
#[derive(Debug)]
pub struct UnixArgs {
    pub socket_path: String,
}

impl Default for UnixArgs {
    /// The default plugin socket path.
    fn default() -> (r: Self)
        ensures
            r.socket_path@ == "/run/docker/plugins/xethub.sock"@,
    {
        UnixArgs { socket_path: String::from_str("/run/docker/plugins/xethub.sock") }
    }
}

/// The transport a running instance serves on: exactly one of TCP or Unix
/// socket, selected at startup.
#[derive(Debug)]
pub enum SocketType {
    Tcp(TcpArgs),
    Unix(UnixArgs),
}

/// The startup configuration of the daemon.
#[derive(Debug)]
pub struct VolumePluginCommand {
    /// Transport selection and its port or socket path.
    pub socket_type: SocketType,
    /// Directory under which every volume's mount path is created.
    pub mount_root: String,
    /// Reserved state-storage path; unused by the core logic.
    pub state_storage: String,
}

impl VolumePluginCommand {
    /// A configuration with the given transport and the default mount root
    /// and state-storage paths.
    pub fn with_defaults(socket_type: SocketType) -> (r: Self)
        ensures
            r.socket_type == socket_type,
            r.mount_root@ == "/data"@,
            r.state_storage@ == "/tmp/state"@,
    {
        VolumePluginCommand {
            socket_type,
            mount_root: String::from_str("/data"),
            state_storage: String::from_str("/tmp/state"),
        }
    }
}

} // verus!
