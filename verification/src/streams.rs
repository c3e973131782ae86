//! The receive half of a request stream, as the pipeline holds it, and the
//! orders that the pipeline gives to the transport about a stream.

use vstd::prelude::*;
use crate::error::ErrorCode;
use crate::shared::StreamId;

verus! {

/// The receive half of a request stream, seen as a stream of frames.
///
/// There is one per stream and it cannot be copied: whoever holds it owns the
/// receive half.
#[derive(Debug, PartialEq, Eq)]
pub struct FrameStream {
    id: StreamId,
}

/// An order to reset one half of a stream with an application error code.
#[derive(Clone, Copy, Debug, PartialEq, Eq, Structural)]
pub struct Reset {
    pub stream_id: StreamId,
    pub code: ErrorCode,
}

/// An order to finish the send half of a stream.
#[derive(Clone, Copy, Debug, PartialEq, Eq, Structural)]
pub struct Finish {
    pub stream_id: StreamId,
}

impl FrameStream {
    /// The stream whose receive half this is.
    pub closed spec fn spec_id(&self) -> StreamId {
        self.id
    }

    /// Takes hold of the receive half of stream `id`.
    pub fn new(id: StreamId) -> (s: FrameStream)
        ensures
            s.spec_id() == id,
    {
        FrameStream { id }
    }

    /// The stream whose receive half this is.
    #[verifier::when_used_as_spec(spec_id)]
    pub fn id(&self) -> (id: StreamId)
        ensures
            id == self.spec_id(),
    {
        self.id
    }

    /// Gives the receive half up: the transport is to reset it with `code`.
    pub fn reset(self, code: ErrorCode) -> (r: Reset)
        ensures
            r == (Reset { stream_id: self.spec_id(), code }),
    {
        Reset { stream_id: self.id, code }
    }
}

} // verus!
