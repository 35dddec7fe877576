//! Error kinds of the proxy.

use vstd::prelude::*;

verus! {

#[verifier::external_type_specification]
#[verifier::external_body]
pub struct ExIoError(std::io::Error);

#[verifier::external_type_specification]
#[verifier::external_body]
pub struct ExHttpParseError(httparse::Error);

/// Failure to reach the engine socket.
#[derive(Debug)]
pub enum ConnectPodmanError {
    /// The socket exists but connecting to it failed.
    ConnectError(std::io::Error),
    /// Nothing is at the path, or what is there is not a socket.
    NoSocketFound(String),
}

/// Failure to open the TCP listener.
#[derive(Debug)]
pub enum OpenInetError {
    SocketError(std::io::Error),
}

/// Failure to open the Unix listener.
#[derive(Debug)]
pub enum OpenUnixSocketError {
    SocketError(std::io::Error),
    /// A file is at the socket path and replacing it was not asked for.
    SocketExists(),
}

/// Why no complete request head could be read from the client.
#[derive(Debug)]
pub enum ReadCompleteError {
    /// Reading from the client failed.
    ReadError(std::io::Error),
    /// The client closed the stream before a complete head arrived.
    NoData(),
    /// The bytes read so far are not an HTTP/1.1 request.
    ParseError(httparse::Error),
    /// The request would grow beyond the size cap.
    ExceededMaxSize(),
}

} // verus!
