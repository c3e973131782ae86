//! The HTTP/3 frames that a request stream carries.

use vstd::prelude::*;

verus! {

/// A `DATA` frame: a piece of a message body.
#[derive(Debug, PartialEq, Eq)]
pub struct DataFrame {
    pub payload: Vec<u8>,
}

/// A `HEADERS` frame: an encoded field section.
#[derive(Debug, PartialEq, Eq)]
pub struct HeadersFrame {
    pub encoded: Vec<u8>,
}

/// A frame as the frame decoder hands it over.
#[derive(Debug, PartialEq, Eq)]
pub enum HttpFrame {
    Data(DataFrame),
    Headers(HeadersFrame),
    CancelPush(u64),
    Settings,
    PushPromise(u64),
    Goaway(u64),
    MaxPushId(u64),
    /// A frame of a reserved type, sent to exercise the receiver. It carries no meaning.
    Reserved,
}

/// The type of a `DATA` frame on the wire.
pub const DATA: u64 = 0x0;

/// The type of a `HEADERS` frame on the wire.
pub const HEADERS: u64 = 0x1;

/// The type of a `CANCEL_PUSH` frame on the wire.
pub const CANCEL_PUSH: u64 = 0x3;

/// The type of a `SETTINGS` frame on the wire.
pub const SETTINGS: u64 = 0x4;

/// The type of a `PUSH_PROMISE` frame on the wire.
pub const PUSH_PROMISE: u64 = 0x5;

/// The type of a `GOAWAY` frame on the wire.
pub const GOAWAY: u64 = 0x7;

/// The type of a `MAX_PUSH_ID` frame on the wire.
pub const MAX_PUSH_ID: u64 = 0xd;

/// A frame type is reserved when it has the form `0x1f * n + 0x21`.
pub open spec fn is_reserved_type(ty: u64) -> bool {
    ty >= 0x21 && (ty - 0x21) % 0x1f == 0
}

/// Tells whether `ty` is one of the reserved frame types.
pub fn reserved_type(ty: u64) -> (r: bool)
    ensures
        r == is_reserved_type(ty),
{
    ty >= 0x21 && (ty - 0x21) % 0x1f == 0
}

impl HttpFrame {
    /// The frame's type on the wire. A reserved frame has none of its own.
    pub open spec fn spec_ty(&self) -> Option<u64> {
        match self {
            HttpFrame::Data(_) => Some(DATA),
            HttpFrame::Headers(_) => Some(HEADERS),
            HttpFrame::CancelPush(_) => Some(CANCEL_PUSH),
            HttpFrame::Settings => Some(SETTINGS),
            HttpFrame::PushPromise(_) => Some(PUSH_PROMISE),
            HttpFrame::Goaway(_) => Some(GOAWAY),
            HttpFrame::MaxPushId(_) => Some(MAX_PUSH_ID),
            HttpFrame::Reserved => None,
        }
    }

    /// The frame's type on the wire. A reserved frame has none of its own.
    #[verifier::when_used_as_spec(spec_ty)]
    pub fn ty(&self) -> (t: Option<u64>)
        ensures
            t == self.spec_ty(),
    {
        match self {
            HttpFrame::Data(_) => Some(DATA),
            HttpFrame::Headers(_) => Some(HEADERS),
            HttpFrame::CancelPush(_) => Some(CANCEL_PUSH),
            HttpFrame::Settings => Some(SETTINGS),
            HttpFrame::PushPromise(_) => Some(PUSH_PROMISE),
            HttpFrame::Goaway(_) => Some(GOAWAY),
            HttpFrame::MaxPushId(_) => Some(MAX_PUSH_ID),
            HttpFrame::Reserved => None,
        }
    }
}

} // verus!
