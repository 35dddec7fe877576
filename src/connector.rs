//! Reaching the engine's socket.

use vstd::prelude::*;
use crate::errors::ConnectPodmanError;

verus! {

/// Opens a fresh connection to the engine socket for each client.
pub struct PodmanSocketConnector {
    podman_path: String,
}

/// A connector is seen as the path it connects to.
impl View for PodmanSocketConnector {
    type V = Seq<char>;

    closed spec fn view(&self) -> Seq<char> {
        self.podman_path@
    }
}

impl PodmanSocketConnector {
    pub fn new(podman_path: String) -> (r: Self)
        ensures
            r@ == podman_path@,
    {
        PodmanSocketConnector { podman_path }
    }

    /// The path of the engine socket.
    pub fn path(&self) -> (r: &String)
        ensures
            r@ == self@,
    {
        &self.podman_path
    }

    /// Whether a connection may be attempted, given what the file system
    /// says of the path: only a socket that exists will do.
    pub fn check_probe(&self, exists: bool, is_socket: bool) -> (r: Result<(), ConnectPodmanError>)
        ensures
            r is Ok <==> exists && is_socket,
            r is Err ==> (r matches Err(ConnectPodmanError::NoSocketFound(p)) && p@ == self@),
    {
        if exists && is_socket {
            Ok(())
        } else {
            Err(ConnectPodmanError::NoSocketFound(self.podman_path.clone()))
        }
    }
}

} // verus!
