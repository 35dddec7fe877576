//! The command-line surface, as plain values, and the decisions taken on it
//! when the protected listener is opened.

use vstd::prelude::*;
use crate::errors::OpenUnixSocketError;

verus! {

pub const DEFAULT_PODMAN_PATH: &'static str = "/run/docker.sock";

pub const DEFAULT_SOCKET_PATH: &'static str = "/var/run/safe-podman.sock";

pub const DEFAULT_SOCKET_IP: &'static str = "127.0.0.1";

pub const DEFAULT_SOCKET_PORT: u16 = 8787;

pub const DEFAULT_CONFIG_PATH: &'static str = "./config.toml";

/// Command-line arguments.
pub struct Cli {
    /// The full path to the engine socket.
    pub podman_path: String,
    /// The path to the TOML configuration file.
    pub config_path: String,
    pub proxy: Proxy,
}

/// The transport of the protected endpoint.
pub enum Proxy {
    /// Listen on a Unix socket.
    Unix(UnixProxyArgs),
    /// Listen on a TCP socket.
    Inet(InetProxyArgs),
}

pub struct UnixProxyArgs {
    /// The full path of the protected socket.
    pub socket_path: String,
    /// Replace the socket file if it already exists.
    pub replace: bool,
}

pub struct InetProxyArgs {
    /// The address the protected socket listens on.
    pub ip: String,
    /// The port the protected socket listens on.
    pub port: u16,
}

impl UnixProxyArgs {
    /// What to do about the file system entry at the socket path before
    /// binding, given whether one `exists`: `Ok(true)` to remove it first,
    /// `Ok(false)` to bind at once, or refuse because it may not be replaced.
    pub fn remove_existing(&self, exists: bool) -> (r: Result<bool, OpenUnixSocketError>)
        ensures
            !exists ==> r matches Ok(false),
            exists && self.replace ==> r matches Ok(true),
            exists && !self.replace ==> r matches Err(OpenUnixSocketError::SocketExists()),
    {
        if !exists {
            Ok(false)
        } else if self.replace {
            Ok(true)
        } else {
            Err(OpenUnixSocketError::SocketExists())
        }
    }
}

} // verus!
