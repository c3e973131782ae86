//! Error kinds of the HTTP/3 layer, and the application error codes that go
//! with stream resets and connection close.

use vstd::prelude::*;

verus! {

/// An HTTP/3 application error code.
#[derive(Clone, Copy, Debug, PartialEq, Eq, Structural)]
pub enum ErrorCode {
    NoError,
    GeneralProtocolError,
    InternalError,
    StreamCreationError,
    ClosedCriticalStream,
    FrameUnexpected,
    FrameError,
    ExcessiveLoad,
    IdError,
    SettingsError,
    MissingSettings,
    RequestRejected,
    RequestCancelled,
    RequestIncomplete,
    MessageError,
    ConnectError,
    VersionFallback,
}

impl ErrorCode {
    /// The number that stands for this code on the wire.
    pub open spec fn spec_value(self) -> u64 {
        match self {
            ErrorCode::NoError => 0x100,
            ErrorCode::GeneralProtocolError => 0x101,
            ErrorCode::InternalError => 0x102,
            ErrorCode::StreamCreationError => 0x103,
            ErrorCode::ClosedCriticalStream => 0x104,
            ErrorCode::FrameUnexpected => 0x105,
            ErrorCode::FrameError => 0x106,
            ErrorCode::ExcessiveLoad => 0x107,
            ErrorCode::IdError => 0x108,
            ErrorCode::SettingsError => 0x109,
            ErrorCode::MissingSettings => 0x10a,
            ErrorCode::RequestRejected => 0x10b,
            ErrorCode::RequestCancelled => 0x10c,
            ErrorCode::RequestIncomplete => 0x10d,
            ErrorCode::MessageError => 0x10e,
            ErrorCode::ConnectError => 0x10f,
            ErrorCode::VersionFallback => 0x110,
        }
    }

    /// The number that stands for this code on the wire.
    #[verifier::when_used_as_spec(spec_value)]
    pub fn value(self) -> (v: u64)
        ensures
            v == self.spec_value(),
    {
        match self {
            ErrorCode::NoError => 0x100,
            ErrorCode::GeneralProtocolError => 0x101,
            ErrorCode::InternalError => 0x102,
            ErrorCode::StreamCreationError => 0x103,
            ErrorCode::ClosedCriticalStream => 0x104,
            ErrorCode::FrameUnexpected => 0x105,
            ErrorCode::FrameError => 0x106,
            ErrorCode::ExcessiveLoad => 0x107,
            ErrorCode::IdError => 0x108,
            ErrorCode::SettingsError => 0x109,
            ErrorCode::MissingSettings => 0x10a,
            ErrorCode::RequestRejected => 0x10b,
            ErrorCode::RequestCancelled => 0x10c,
            ErrorCode::RequestIncomplete => 0x10d,
            ErrorCode::MessageError => 0x10e,
            ErrorCode::ConnectError => 0x10f,
            ErrorCode::VersionFallback => 0x110,
        }
    }

    /// The code that a wire value stands for, if it is one of HTTP/3's.
    pub open spec fn spec_from_value(v: u64) -> Option<ErrorCode> {
        if v == 0x100 {
            Some(ErrorCode::NoError)
        } else if v == 0x101 {
            Some(ErrorCode::GeneralProtocolError)
        } else if v == 0x102 {
            Some(ErrorCode::InternalError)
        } else if v == 0x103 {
            Some(ErrorCode::StreamCreationError)
        } else if v == 0x104 {
            Some(ErrorCode::ClosedCriticalStream)
        } else if v == 0x105 {
            Some(ErrorCode::FrameUnexpected)
        } else if v == 0x106 {
            Some(ErrorCode::FrameError)
        } else if v == 0x107 {
            Some(ErrorCode::ExcessiveLoad)
        } else if v == 0x108 {
            Some(ErrorCode::IdError)
        } else if v == 0x109 {
            Some(ErrorCode::SettingsError)
        } else if v == 0x10a {
            Some(ErrorCode::MissingSettings)
        } else if v == 0x10b {
            Some(ErrorCode::RequestRejected)
        } else if v == 0x10c {
            Some(ErrorCode::RequestCancelled)
        } else if v == 0x10d {
            Some(ErrorCode::RequestIncomplete)
        } else if v == 0x10e {
            Some(ErrorCode::MessageError)
        } else if v == 0x10f {
            Some(ErrorCode::ConnectError)
        } else if v == 0x110 {
            Some(ErrorCode::VersionFallback)
        } else {
            None
        }
    }

    /// The code that a wire value stands for, if it is one of HTTP/3's:
    /// the one code with that value.
    #[verifier::when_used_as_spec(spec_from_value)]
    pub fn from_value(v: u64) -> (code: Option<ErrorCode>)
        ensures
            code == ErrorCode::spec_from_value(v),
            code matches Some(c) ==> c.spec_value() == v,
            code is None ==> forall|c: ErrorCode| c.spec_value() != v,
    {
        if v == 0x100 {
            Some(ErrorCode::NoError)
        } else if v == 0x101 {
            Some(ErrorCode::GeneralProtocolError)
        } else if v == 0x102 {
            Some(ErrorCode::InternalError)
        } else if v == 0x103 {
            Some(ErrorCode::StreamCreationError)
        } else if v == 0x104 {
            Some(ErrorCode::ClosedCriticalStream)
        } else if v == 0x105 {
            Some(ErrorCode::FrameUnexpected)
        } else if v == 0x106 {
            Some(ErrorCode::FrameError)
        } else if v == 0x107 {
            Some(ErrorCode::ExcessiveLoad)
        } else if v == 0x108 {
            Some(ErrorCode::IdError)
        } else if v == 0x109 {
            Some(ErrorCode::SettingsError)
        } else if v == 0x10a {
            Some(ErrorCode::MissingSettings)
        } else if v == 0x10b {
            Some(ErrorCode::RequestRejected)
        } else if v == 0x10c {
            Some(ErrorCode::RequestCancelled)
        } else if v == 0x10d {
            Some(ErrorCode::RequestIncomplete)
        } else if v == 0x10e {
            Some(ErrorCode::MessageError)
        } else if v == 0x10f {
            Some(ErrorCode::ConnectError)
        } else if v == 0x110 {
            Some(ErrorCode::VersionFallback)
        } else {
            None
        }
    }
}

/// Why a header block was refused.
#[derive(Clone, Copy, Debug, PartialEq, Eq, Structural)]
pub enum HeaderError {
    /// A field name is empty or holds an upper-case letter.
    InvalidFieldName,
    /// A pseudo-header stands among the ordinary fields.
    ForbiddenPseudoHeader,
    /// A response carries no `:status`.
    MissingStatus,
    /// The field section is larger than the limit that was set for it.
    TooLarge,
}

/// What the HTTP/3 layer reports to the application.
#[derive(Debug, PartialEq, Eq)]
pub enum Error {
    /// The peer broke the protocol. The stream is lost, the connection may live on.
    Peer(String),
    /// A local invariant was broken, such as polling a future that has resolved.
    Internal(String),
    /// The headers to send are not a valid HTTP/3 field section.
    HeaderEncoding(HeaderError),
    /// The headers received are not a valid HTTP/3 field section.
    HeaderDecoding(HeaderError),
    /// The transport failed: the connection closed, the stream was reset, I/O.
    Quic(String),
}

impl Error {
    /// This is `Peer` with exactly the message `msg`.
    pub open spec fn is_peer(&self, msg: Seq<char>) -> bool {
        self matches Error::Peer(s) && s@ == msg
    }

    /// This is `Internal` with exactly the message `msg`.
    pub open spec fn is_internal(&self, msg: Seq<char>) -> bool {
        self matches Error::Internal(s) && s@ == msg
    }

    /// This is `Quic` with exactly the message `msg`.
    pub open spec fn is_quic(&self, msg: Seq<char>) -> bool {
        self matches Error::Quic(s) && s@ == msg
    }

    /// A protocol violation by the peer.
    pub fn peer(msg: &str) -> (e: Error)
        ensures
            e.is_peer(msg@),
    {
        Error::Peer(msg.to_owned())
    }

    /// A broken local invariant.
    pub fn internal(msg: &str) -> (e: Error)
        ensures
            e.is_internal(msg@),
    {
        Error::Internal(msg.to_owned())
    }

    /// A failure of the transport.
    pub fn quic(msg: &str) -> (e: Error)
        ensures
            e.is_quic(msg@),
    {
        Error::Quic(msg.to_owned())
    }

    /// The text that describes this error.
    pub fn message(&self) -> (s: String)
        ensures
            match self {
                Error::Peer(m) => s@ == m@,
                Error::Internal(m) => s@ == m@,
                Error::Quic(m) => s@ == m@,
                Error::HeaderEncoding(h) => s@ == h.spec_describe(),
                Error::HeaderDecoding(h) => s@ == h.spec_describe(),
            },
    {
        match self {
            Error::Peer(m) => m.clone(),
            Error::Internal(m) => m.clone(),
            Error::Quic(m) => m.clone(),
            Error::HeaderEncoding(h) => h.describe().to_owned(),
            Error::HeaderDecoding(h) => h.describe().to_owned(),
        }
    }
}

impl HeaderError {
    /// The text that describes this refusal.
    pub open spec fn spec_describe(self) -> Seq<char> {
        match self {
            HeaderError::InvalidFieldName => "invalid field name"@,
            HeaderError::ForbiddenPseudoHeader => "pseudo-header among the fields"@,
            HeaderError::MissingStatus => "missing status"@,
            HeaderError::TooLarge => "field section too large"@,
        }
    }

    /// The text that describes this refusal.
    pub fn describe(self) -> (s: &'static str)
        ensures
            s@ == self.spec_describe(),
    {
        match self {
            HeaderError::InvalidFieldName => "invalid field name",
            HeaderError::ForbiddenPseudoHeader => "pseudo-header among the fields",
            HeaderError::MissingStatus => "missing status",
            HeaderError::TooLarge => "field section too large",
        }
    }
}

} // verus!
