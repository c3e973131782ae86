//! Message bodies: what a request carries, and the two ends through which the
//! bodies of a request and of its response pass.

use vstd::prelude::*;
use crate::error::ErrorCode;
use crate::shared::StreamId;
use crate::streams::{Finish, FrameStream, Reset};

verus! {

/// The body that a request is sent with.
#[derive(Debug, PartialEq, Eq)]
pub enum Body {
    /// No body.
    Empty,
    /// A body held in one buffer.
    Buf(Vec<u8>),
}

impl Body {
    /// The number of bytes that this body holds.
    pub open spec fn spec_len(&self) -> nat {
        match self {
            Body::Empty => 0,
            Body::Buf(payload) => payload@.len(),
        }
    }
}

/// The writing end of a request: it owns the send half of the stream once
/// the headers are out.
#[derive(Debug, PartialEq, Eq)]
pub struct BodyWriter {
    stream_id: StreamId,
    bytes_sent: u64,
    finish_request: bool,
}

impl BodyWriter {
    pub closed spec fn spec_stream_id(&self) -> StreamId {
        self.stream_id
    }

    pub closed spec fn spec_bytes_sent(&self) -> u64 {
        self.bytes_sent
    }

    pub closed spec fn spec_finish_request(&self) -> bool {
        self.finish_request
    }

    /// A writer on the send half of `stream_id`, on which `bytes_sent` bytes
    /// of body have gone out already.
    pub fn new(stream_id: StreamId, bytes_sent: u64, finish_request: bool) -> (w: BodyWriter)
        ensures
            w.spec_stream_id() == stream_id,
            w.spec_bytes_sent() == bytes_sent,
            w.spec_finish_request() == finish_request,
    {
        BodyWriter { stream_id, bytes_sent, finish_request }
    }

    /// The stream that this writer writes to.
    #[verifier::when_used_as_spec(spec_stream_id)]
    pub fn stream_id(&self) -> (id: StreamId)
        ensures
            id == self.spec_stream_id(),
    {
        self.stream_id
    }

    /// The number of body bytes that went out on the stream.
    #[verifier::when_used_as_spec(spec_bytes_sent)]
    pub fn bytes_sent(&self) -> (n: u64)
        ensures
            n == self.spec_bytes_sent(),
    {
        self.bytes_sent
    }

    /// Ends the request in order: the transport is to finish the send half.
    pub fn close(self) -> (f: Finish)
        ensures
            f == (Finish { stream_id: self.spec_stream_id() }),
    {
        Finish { stream_id: self.stream_id }
    }

    /// Gives the request up before its end: the transport is to reset the
    /// send half with `REQUEST_CANCELLED`.
    pub fn cancel(self) -> (r: Reset)
        ensures
            r == (Reset { stream_id: self.spec_stream_id(), code: ErrorCode::RequestCancelled }),
    {
        Reset { stream_id: self.stream_id, code: ErrorCode::RequestCancelled }
    }
}

/// The reading end of a response: it owns the receive half of the stream
/// once the response headers are in.
#[derive(Debug, PartialEq, Eq)]
pub struct BodyReader {
    recv: FrameStream,
    stream_id: StreamId,
    finish_request: bool,
}

impl BodyReader {
    pub closed spec fn spec_recv(&self) -> FrameStream {
        self.recv
    }

    pub closed spec fn spec_stream_id(&self) -> StreamId {
        self.stream_id
    }

    pub closed spec fn spec_finish_request(&self) -> bool {
        self.finish_request
    }

    /// A reader that takes over the receive half `recv` of `stream_id`.
    pub fn new(recv: FrameStream, stream_id: StreamId, finish_request: bool) -> (r: BodyReader)
        ensures
            r.spec_recv() == recv,
            r.spec_stream_id() == stream_id,
            r.spec_finish_request() == finish_request,
    {
        BodyReader { recv, stream_id, finish_request }
    }

    /// The stream that this reader reads from.
    #[verifier::when_used_as_spec(spec_stream_id)]
    pub fn stream_id(&self) -> (id: StreamId)
        ensures
            id == self.spec_stream_id(),
    {
        self.stream_id
    }

    /// Gives the receive half back, to read the body from it.
    pub fn into_stream(self) -> (recv: FrameStream)
        ensures
            recv == self.spec_recv(),
    {
        self.recv
    }
}

} // verus!
