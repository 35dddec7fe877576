//! Request heads: what the HTTP/1.1 parser makes of a buffer, and the
//! framer that accumulates client bytes until a head is complete.

use vstd::prelude::*;
use crate::errors::ReadCompleteError;

verus! {

/// Cap on the bytes accumulated for one request.
pub const MAX_REQUEST_SIZE: usize = 10 * 1024 * 1024;

/// Header slots offered to the parser; a head with more headers is invalid.
pub const MAX_HEADERS: usize = 64;

/// One header line of a request.
pub struct Header {
    pub name: String,
    pub value: Vec<u8>,
}

/// The parts of a request head that the policy reads.
pub struct ParsedRequest {
    pub method: Option<String>,
    pub path: Option<String>,
    pub headers: Vec<Header>,
}

pub ghost struct HeaderView {
    pub name: Seq<char>,
    pub value: Seq<u8>,
}

pub ghost struct RequestView {
    pub method: Option<Seq<char>>,
    pub path: Option<Seq<char>>,
    pub headers: Seq<HeaderView>,
}

/// What the parser makes of a buffer.
pub ghost enum HeadView {
    /// A complete request head, possibly followed by body bytes.
    Complete(RequestView),
    /// A prefix of a request head: more bytes are needed.
    Partial,
    /// Not an HTTP/1.1 request head.
    Invalid,
}

impl View for Header {
    type V = HeaderView;

    open spec fn view(&self) -> HeaderView {
        HeaderView { name: self.name@, value: self.value@ }
    }
}

pub open spec fn string_opt_view(s: Option<String>) -> Option<Seq<char>> {
    match s {
        Some(s) => Some(s@),
        None => None,
    }
}

impl View for ParsedRequest {
    type V = RequestView;

    open spec fn view(&self) -> RequestView {
        RequestView {
            method: string_opt_view(self.method),
            path: string_opt_view(self.path),
            headers: self.headers@.map_values(|h: Header| h@),
        }
    }
}

/// The parser's verdict on `buf`, with `MAX_HEADERS` header slots.
pub uninterp spec fn request_head(buf: Seq<u8>) -> HeadView;

/// Relies on httparse::Request::parse, run on `buf` with `MAX_HEADERS`
/// header slots: complete, partial, or an error, and on completion the
/// method, path and headers it found.
#[verifier::external_body]
pub(crate) fn parse_request(buf: &[u8]) -> (r: Result<Option<ParsedRequest>, httparse::Error>)
    ensures
        match r {
            Ok(Some(req)) => request_head(buf@) == HeadView::Complete(req@),
            Ok(None) => request_head(buf@) is Partial,
            Err(_) => request_head(buf@) is Invalid,
        },
{
    let mut slots = [httparse::EMPTY_HEADER; MAX_HEADERS];
    let mut req = httparse::Request::new(&mut slots);
    match req.parse(buf) {
        Ok(httparse::Status::Complete(_)) => Ok(Some(ParsedRequest {
            method: req.method.map(String::from),
            path: req.path.map(String::from),
            headers: req.headers.iter().map(
                |h| Header { name: h.name.to_string(), value: h.value.to_vec() },
            ).collect(),
        })),
        Ok(httparse::Status::Partial) => Ok(None),
        Err(e) => Err(e),
    }
}

/// One step of the framer: `chunk` is what the last read from the client
/// returned, `buffer` what was accumulated before it. Returns `Ok(true)` once
/// `buffer` holds a complete request head, `Ok(false)` when more bytes are
/// needed, and an error when the request must be given up.
pub fn frame_step(buffer: &mut Vec<u8>, chunk: &mut Vec<u8>) -> (r: Result<bool, ReadCompleteError>)
    ensures
        old(chunk)@.len() == 0 ==> {
            &&& r matches Err(ReadCompleteError::NoData())
            &&& final(buffer)@ == old(buffer)@
        },
        old(chunk)@.len() > 0 && old(buffer)@.len() + old(chunk)@.len() > MAX_REQUEST_SIZE ==> {
            &&& r matches Err(ReadCompleteError::ExceededMaxSize())
            &&& final(buffer)@ == old(buffer)@
        },
        old(chunk)@.len() > 0 && old(buffer)@.len() + old(chunk)@.len() <= MAX_REQUEST_SIZE ==> {
            &&& final(buffer)@ == old(buffer)@ + old(chunk)@
            &&& final(chunk)@.len() == 0
            &&& match request_head(final(buffer)@) {
                HeadView::Complete(_) => r matches Ok(true),
                HeadView::Partial => r matches Ok(false),
                HeadView::Invalid => r matches Err(ReadCompleteError::ParseError(_)),
            }
        },
{
    if chunk.len() == 0 {
        return Err(ReadCompleteError::NoData());
    }
    if buffer.len() > MAX_REQUEST_SIZE || chunk.len() > MAX_REQUEST_SIZE - buffer.len() {
        return Err(ReadCompleteError::ExceededMaxSize());
    }
    buffer.append(chunk);
    match parse_request(buffer.as_slice()) {
        Ok(Some(_)) => Ok(true),
        Ok(None) => Ok(false),
        Err(e) => Err(ReadCompleteError::ParseError(e)),
    }
}

} // verus!
