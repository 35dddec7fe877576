//! The decisions of one proxied connection. Three tasks share it: the filter
//! reads requests from the client and forwards the allowed ones to the engine,
//! the relay turns engine output into frames, and the writer hands queued
//! frames to the client until one of them closes the connection.

use vstd::prelude::*;
use vstd::slice::slice_to_vec;
use vstd::string::StringSliceAdditionalSpecFns;
use crate::errors::ReadCompleteError;
use crate::filter::{decision, FilterResult, FiltersHandler};
use crate::request::{parse_request, request_head, HeadView};
use crate::responses::{
    close_response, request_response, ClientReponse, FrameView, BAD_REQUEST, FORBIDDEN,
    NOT_ALLOWED,
};

verus! {

/// Connections served at the same time, at most.
pub const MAX_CONCURRENT_CONNECTIONS: usize = 10000;

/// Frames that a connection's response queue holds, at most.
pub const RESPONSE_QUEUE_CAPACITY: usize = 1024;

/// What the filter does with the outcome of one framed read.
#[derive(Debug)]
pub enum FilterAction {
    /// Write these bytes to the engine, then frame the next request.
    Forward(Vec<u8>),
    /// Queue this frame for the client, then stop reading.
    Reply(ClientReponse),
    /// Stop reading without answering.
    Stop,
}

pub ghost enum ActionView {
    Forward(Seq<u8>),
    Reply(FrameView),
    Stop,
}

impl View for FilterAction {
    type V = ActionView;

    open spec fn view(&self) -> ActionView {
        match self {
            FilterAction::Forward(b) => ActionView::Forward(b@),
            FilterAction::Reply(f) => ActionView::Reply(f@),
            FilterAction::Stop => ActionView::Stop,
        }
    }
}

/// The canned answer that closes the connection after a refusal.
pub open spec fn refusal(v: FilterResult) -> FrameView {
    FrameView {
        buffer: match v {
            FilterResult::MethodNotAllowed => NOT_ALLOWED.spec_bytes(),
            FilterResult::Forbidden => FORBIDDEN.spec_bytes(),
            _ => BAD_REQUEST.spec_bytes(),
        },
        close: true,
    }
}

/// What the filter does with a framed request `bytes` under `policy`:
/// forward the very bytes when the policy allows the request, otherwise
/// answer with the matching refusal.
pub open spec fn request_action(policy: crate::config::FiltersView, bytes: Seq<u8>) -> ActionView {
    match request_head(bytes) {
        HeadView::Complete(req) => match decision(policy, req) {
            FilterResult::Allowed => ActionView::Forward(bytes),
            v => ActionView::Reply(refusal(v)),
        },
        _ => ActionView::Reply(refusal(FilterResult::BadRequest)),
    }
}

/// The filter's step on the outcome of one framed read: the client closing
/// or failing ends the filter silently, a request that could not be framed
/// is a bad request, and a framed request goes to the policy.
pub fn next_action(
    policy: &FiltersHandler,
    framed: Result<Vec<u8>, ReadCompleteError>,
) -> (r: FilterAction)
    ensures
        match framed {
            Ok(bytes) => r@ == request_action(policy@, bytes@),
            Err(ReadCompleteError::NoData()) => r@ == ActionView::Stop,
            Err(ReadCompleteError::ReadError(_)) => r@ == ActionView::Stop,
            Err(_) => r@ == ActionView::Reply(refusal(FilterResult::BadRequest)),
        },
{
    let bytes = match framed {
        Ok(bytes) => bytes,
        Err(ReadCompleteError::NoData()) => return FilterAction::Stop,
        Err(ReadCompleteError::ReadError(_)) => return FilterAction::Stop,
        Err(_) => return FilterAction::Reply(close_response(BAD_REQUEST)),
    };
    let req = match parse_request(bytes.as_slice()) {
        Ok(Some(req)) => req,
        _ => return FilterAction::Reply(close_response(BAD_REQUEST)),
    };
    match policy.is_action_allowed(&req) {
        FilterResult::Allowed => FilterAction::Forward(bytes),
        FilterResult::MethodNotAllowed => FilterAction::Reply(close_response(NOT_ALLOWED)),
        FilterResult::Forbidden => FilterAction::Reply(close_response(FORBIDDEN)),
        FilterResult::BadRequest => FilterAction::Reply(close_response(BAD_REQUEST)),
    }
}

/// The frame that carries one read from the engine.
pub open spec fn relayed(chunk: Seq<u8>) -> FrameView {
    FrameView { buffer: chunk, close: false }
}

/// The relay's step on one read from the engine: an empty read is the end of
/// the engine's stream, anything else travels on as a copy in an open frame.
pub fn relay_chunk(chunk: &Vec<u8>) -> (r: Option<ClientReponse>)
    ensures
        chunk@.len() == 0 ==> r is None,
        chunk@.len() > 0 ==> (r matches Some(f) && f@ == relayed(chunk@)),
{
    if chunk.len() == 0 {
        None
    } else {
        Some(request_response(slice_to_vec(chunk.as_slice())))
    }
}

/// Whether the writer takes another frame after handing `frame` to the
/// client, where `written` says whether that write succeeded.
pub open spec fn continues_after(frame: FrameView, written: bool) -> bool {
    written && !frame.close
}

/// The writer's step after one frame.
pub fn writer_continues(frame: &ClientReponse, written: bool) -> (r: bool)
    ensures
        r == continues_after(frame@, written),
{
    written && !frame.close
}

/// The bytes that reach the client when the writer drains `frames` and every
/// write succeeds.
pub open spec fn delivered(frames: Seq<FrameView>) -> Seq<u8>
    decreases frames.len(),
{
    if frames.len() == 0 {
        Seq::empty()
    } else if continues_after(frames[0], true) {
        frames[0].buffer + delivered(frames.drop_first())
    } else {
        frames[0].buffer
    }
}

/// Engine output reaches the client whole and in order: relaying a run of
/// non-empty reads and writing the frames delivers their concatenation.
pub proof fn relay_preserves_bytes(chunks: Seq<Seq<u8>>)
    requires
        forall|i: int| 0 <= i < chunks.len() ==> (#[trigger] chunks[i]).len() > 0,
    ensures
        delivered(chunks.map_values(|c: Seq<u8>| relayed(c))) == chunks.flatten(),
    decreases chunks.len(),
{
    let frames = chunks.map_values(|c: Seq<u8>| relayed(c));
    if chunks.len() > 0 {
        let rest = chunks.drop_first();
        assert forall|i: int| 0 <= i < rest.len() implies (#[trigger] rest[i]).len() > 0 by {
            assert(rest[i] == chunks[i + 1]);
        }
        relay_preserves_bytes(rest);
        assert(frames.drop_first() =~= rest.map_values(|c: Seq<u8>| relayed(c)));
    }
}

/// Nothing after a close frame reaches the client: the writer delivers the
/// same bytes as from the queue cut just after that frame.
pub proof fn nothing_after_close(frames: Seq<FrameView>, i: int)
    requires
        0 <= i < frames.len(),
        frames[i].close,
    ensures
        delivered(frames) == delivered(frames.take(i + 1)),
    decreases i,
{
    let cut = frames.take(i + 1);
    if i > 0 {
        assert(frames.drop_first()[i - 1] == frames[i]);
        nothing_after_close(frames.drop_first(), i - 1);
        assert(cut.drop_first() =~= frames.drop_first().take(i));
    }
}

} // verus!
