//! The cryptographic layer between a QUIC connection and its TLS 1.3 session,
//! and the client side of the HTTP/3 request pipeline that runs over it.
//!
//! Nothing here performs I/O. The packet protection keys, the handshake
//! session and the header codec are driven by the caller; the request pipeline
//! is a set of state machines that take what the transport delivered and
//! answer with what has to be done next.

pub mod shared;
pub mod error;
pub mod streams;
pub mod frame;
pub mod headers;
pub mod body;
pub mod client;
pub mod transport_parameters;
pub mod buf;
pub mod crypto;
