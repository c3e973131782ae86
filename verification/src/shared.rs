//! Small types that the transport, the crypto layer and the request pipeline share.

use vstd::prelude::*;

verus! {

/// Which end of a connection this is.
#[derive(Clone, Copy, Debug, PartialEq, Eq, Structural)]
pub enum Side {
    /// The end that dialed.
    Client,
    /// The end that accepted.
    Server,
}

impl Side {
    pub open spec fn spec_is_client(self) -> bool {
        self == Side::Client
    }

    pub open spec fn spec_is_server(self) -> bool {
        self == Side::Server
    }

    pub open spec fn spec_peer(self) -> Side {
        match self {
            Side::Client => Side::Server,
            Side::Server => Side::Client,
        }
    }

    /// Tells whether this is the end that dialed.
    #[verifier::when_used_as_spec(spec_is_client)]
    pub fn is_client(self) -> (b: bool)
        ensures
            b == self.spec_is_client(),
    {
        match self {
            Side::Client => true,
            Side::Server => false,
        }
    }

    /// Tells whether this is the end that accepted.
    #[verifier::when_used_as_spec(spec_is_server)]
    pub fn is_server(self) -> (b: bool)
        ensures
            b == self.spec_is_server(),
    {
        match self {
            Side::Client => false,
            Side::Server => true,
        }
    }

    /// The other end.
    #[verifier::when_used_as_spec(spec_peer)]
    pub fn peer(self) -> (p: Side)
        ensures
            p == self.spec_peer(),
    {
        match self {
            Side::Client => Side::Server,
            Side::Server => Side::Client,
        }
    }
}

/// The number of a QUIC stream.
#[derive(Clone, Copy, Debug, PartialEq, Eq, Structural)]
pub struct StreamId(pub u64);

/// The most bytes that a connection ID may have.
pub const MAX_CID_SIZE: usize = 20;

/// The name that an endpoint gives to a connection.
#[derive(Debug, PartialEq, Eq)]
pub struct ConnectionId {
    bytes: Vec<u8>,
}

impl View for ConnectionId {
    type V = Seq<u8>;

    closed spec fn view(&self) -> Seq<u8> {
        self.bytes@
    }
}

impl ConnectionId {
    /// The connection ID made of `bytes`, if they are not too many.
    pub fn new(bytes: &[u8]) -> (r: Option<ConnectionId>)
        ensures
            match r {
                Some(id) => id@ == bytes@ && bytes@.len() <= MAX_CID_SIZE,
                None => bytes@.len() > MAX_CID_SIZE,
            },
    {
        if bytes.len() > MAX_CID_SIZE {
            None
        } else {
            Some(ConnectionId { bytes: vstd::slice::slice_to_vec(bytes) })
        }
    }

    /// The bytes of the connection ID.
    pub fn as_slice(&self) -> (s: &[u8])
        ensures
            s@ == self@,
    {
        self.bytes.as_slice()
    }
}

/// The code of a transport error as it goes into a `CONNECTION_CLOSE` frame.
#[derive(Clone, Copy, Debug, PartialEq, Eq, Structural)]
pub struct TransportErrorCode(pub u64);

/// The code of a protocol violation.
pub const PROTOCOL_VIOLATION: u64 = 0xa;

/// The first of the 256 codes that stand for TLS alerts.
pub const CRYPTO_ERROR: u64 = 0x100;

impl TransportErrorCode {
    /// The code that stands for the TLS alert `alert`.
    pub open spec fn spec_crypto(alert: u8) -> TransportErrorCode {
        TransportErrorCode((CRYPTO_ERROR + alert) as u64)
    }

    /// The TLS alert that this code stands for, if it stands for one.
    pub open spec fn spec_alert(self) -> Option<u8> {
        if CRYPTO_ERROR <= self.0 < CRYPTO_ERROR + 0x100 {
            Some((self.0 - CRYPTO_ERROR) as u8)
        } else {
            None
        }
    }

    /// The code that stands for the TLS alert `alert`.
    pub fn crypto(alert: u8) -> (c: TransportErrorCode)
        ensures
            c == TransportErrorCode::spec_crypto(alert),
            c.spec_alert() == Some(alert),
    {
        TransportErrorCode(CRYPTO_ERROR + alert as u64)
    }

    /// The TLS alert that this code stands for, if it stands for one.
    #[verifier::when_used_as_spec(spec_alert)]
    pub fn alert(self) -> (a: Option<u8>)
        ensures
            a == self.spec_alert(),
    {
        if CRYPTO_ERROR <= self.0 && self.0 < CRYPTO_ERROR + 0x100 {
            Some((self.0 - CRYPTO_ERROR) as u8)
        } else {
            None
        }
    }
}

/// An error that closes the connection.
#[derive(Debug, PartialEq, Eq)]
pub struct TransportError {
    /// What kind of error it is.
    pub code: TransportErrorCode,
    /// The type of the frame that brought it about, if one did.
    pub frame: Option<u64>,
    /// Words for a human reader.
    pub reason: String,
}

impl TransportError {
    /// A violation of the protocol by the peer, put in words by `reason`.
    pub fn protocol_violation(reason: String) -> (e: TransportError)
        ensures
            e == (TransportError {
                code: TransportErrorCode(PROTOCOL_VIOLATION),
                frame: None,
                reason,
            }),
    {
        TransportError { code: TransportErrorCode(PROTOCOL_VIOLATION), frame: None, reason }
    }
}

/// A configuration that cannot be used.
#[derive(Debug, PartialEq, Eq)]
pub enum ConfigError {
    /// A value is out of the range that it may take.
    IllegalValue(&'static str),
    /// A certificate cannot be read. The words are those of the parser.
    InvalidCertificate(String),
}

/// Why a connection could not be started.
#[derive(Debug, PartialEq, Eq)]
pub enum ConnectError {
    /// The endpoint takes no more connections: it is shutting down.
    EndpointStopping,
    /// The endpoint has run out of connection IDs.
    TooManyConnections,
    /// The name given for the server is no DNS name.
    InvalidDnsName(String),
}

} // verus!
