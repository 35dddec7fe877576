//! Canned refusals and the frames that carry bytes towards the client.

use vstd::prelude::*;
use vstd::slice::slice_to_vec;
use vstd::string::StringSliceAdditionalSpecFns;

verus! {

/// Answer to a request that cannot be framed, parsed or classified.
pub const BAD_REQUEST: &'static str = "HTTP/1.1 400 Bad Request\r\nContent-Type: text/plain; charset=utf-8\r\nConnection: close\r\n\r\n400 bad request";

/// Answer to a request that carries no method.
pub const NOT_ALLOWED: &'static str = "HTTP/1.1 405 Method Not Allowed\r\nContent-Type: text/plain; charset=utf-8\r\nConnection: close\r\n\r\n405 method not allowed";

/// Answer to a request that the policy refuses.
pub const FORBIDDEN: &'static str = "HTTP/1.1 403 Forbidden\r\nContent-Type: text/plain; charset=utf-8\r\nConnection: close\r\n\r\nblocked by proxy";

/// One frame on its way to the client: bytes, and whether the connection
/// ends once they are written.
#[derive(Debug)]
pub struct ClientReponse {
    pub buffer: Vec<u8>,
    pub close: bool,
}

/// What a frame carries, as values.
pub ghost struct FrameView {
    pub buffer: Seq<u8>,
    pub close: bool,
}

impl View for ClientReponse {
    type V = FrameView;

    open spec fn view(&self) -> FrameView {
        FrameView { buffer: self.buffer@, close: self.close }
    }
}

/// A frame that relays bytes and keeps the connection open.
pub fn request_response(buffer: Vec<u8>) -> (r: ClientReponse)
    ensures
        r.buffer@ == buffer@,
        !r.close,
{
    ClientReponse { buffer, close: false }
}

/// A frame that carries `message` as UTF-8 and then ends the connection.
pub fn close_response(message: &str) -> (r: ClientReponse)
    ensures
        r.buffer@ == message.spec_bytes(),
        r.close,
{
    ClientReponse { buffer: slice_to_vec(message.as_bytes()), close: true }
}

} // verus!
