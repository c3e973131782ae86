//! What the transport asks of the cryptographic protocol that protects it:
//! packet protection keys, header protection keys, signing keys.
//!
//! The traits are the contract; `ring` holds the keys that implement it with
//! an AEAD, HKDF and HMAC.

use vstd::prelude::*;
use crate::buf::bytes_mut_view;
use crate::shared::{ConfigError, ConnectError, ConnectionId, Side, TransportError, TransportErrorCode, PROTOCOL_VIOLATION};
use crate::transport_parameters::TransportParameters;

pub mod ring;
pub mod rustls;

verus! {

/// How far a session has come. A session only ever moves on: from the
/// initial phase to that of the handshake keys, from there to that of the
/// 1-RTT keys, and from anywhere to its end.
#[derive(Clone, Copy, Debug, PartialEq, Eq, Structural)]
pub enum Phase {
    Initial,
    Handshake,
    OneRtt,
    Closed,
}

impl Phase {
    /// The place of the phase in the order in which sessions pass through them.
    pub open spec fn rank(self) -> nat {
        match self {
            Phase::Initial => 0,
            Phase::Handshake => 1,
            Phase::OneRtt => 2,
            Phase::Closed => 3,
        }
    }

    /// The phase that new keys take a session to.
    pub open spec fn spec_next(self) -> Phase {
        match self {
            Phase::Initial => Phase::Handshake,
            Phase::Handshake => Phase::OneRtt,
            Phase::OneRtt => Phase::OneRtt,
            Phase::Closed => Phase::Closed,
        }
    }

    /// The phase that new keys take a session to: the handshake keys lead
    /// out of the initial phase, the 1-RTT keys out of the handshake. There
    /// are no keys beyond those, and none for a session that has ended.
    #[verifier::when_used_as_spec(spec_next)]
    pub fn next(self) -> (p: Phase)
        ensures
            p == self.spec_next(),
            self.rank() <= p.rank(),
    {
        match self {
            Phase::Initial => Phase::Handshake,
            Phase::Handshake => Phase::OneRtt,
            Phase::OneRtt => Phase::OneRtt,
            Phase::Closed => Phase::Closed,
        }
    }
}

/// A cryptographic session, commonly TLS: it takes and gives the bytes of
/// the handshake, and hands out the keys of each encryption level as the
/// handshake reaches it.
pub trait Session: Sized {
    /// The configuration of client sessions.
    type ClientCryptoConfig: ClientCryptoConfig<Self>;

    /// The keys that sign tokens.
    type HmacKey: HmacKey;

    /// The keys that protect packets.
    type Keys: Keys;

    /// The configuration of server sessions.
    type ServerCryptoConfig: ServerCryptoConfig<Self>;

    /// The end of the connection that this session is for.
    spec fn spec_side(&self) -> Side;

    /// How far the session has come.
    spec fn spec_phase(&self) -> Phase;

    /// The session can take handshake bytes: it has not ended, and no read
    /// of it has failed.
    spec fn spec_readable(&self) -> bool;

    /// The session has its 1-RTT keys, and `keys` can be moved on from.
    spec fn spec_can_update(&self, keys: &Self::Keys) -> bool;

    /// The protocol that was agreed on by ALPN, once the peer's first
    /// flight is in and if one was agreed on.
    fn alpn_protocol(&self) -> Option<&[u8]>;

    /// The 0-RTT keys, if the session has the secret for them. Only a
    /// client has them.
    fn early_crypto(&self) -> (k: Option<Self::Keys>)
        ensures
            self.spec_side() is Server ==> k is None,
    ;

    /// Whether the peer took the 0-RTT data. Only a client can tell.
    fn early_data_accepted(&self) -> (r: Option<bool>)
        ensures
            r is Some <==> self.spec_side() is Client,
    ;

    /// True until the handshake is done.
    fn is_handshaking(&self) -> bool;

    /// Takes handshake bytes that came in `CRYPTO` frames. A failure is a
    /// TLS alert, in the codes kept for alerts, or else a protocol
    /// violation, and it ends the session: a session that has ended takes
    /// no more bytes. Reading nothing succeeds and changes nothing.
    fn read_handshake(&mut self, buf: &[u8]) -> (r: Result<(), TransportError>)
        requires
            buf@.len() > 0 ==> old(self).spec_readable(),
        ensures
            buf@.len() == 0 ==> r is Ok && *final(self) == *old(self),
            r is Ok ==> final(self).spec_readable() == old(self).spec_readable(),
            r is Err ==> !final(self).spec_readable(),
            final(self).spec_side() == old(self).spec_side(),
            final(self).spec_phase() == (if r is Ok {
                old(self).spec_phase()
            } else {
                Phase::Closed
            }),
            old(self).spec_phase().rank() <= final(self).spec_phase().rank(),
            r matches Err(e) ==> e.frame is None && (e.code.spec_alert() is Some || e.code
                == TransportErrorCode(PROTOCOL_VIOLATION)),
    ;

    /// The server name that the client asked for. Only a server can tell.
    fn sni_hostname(&self) -> (r: Option<&str>)
        ensures
            self.spec_side() is Client ==> r is None,
    ;

    /// The peer's transport parameters, once its first flight is in.
    /// Parameters that cannot be read are a protocol violation.
    fn transport_parameters(&self) -> (r: Result<Option<TransportParameters>, TransportError>)
        ensures
            r matches Ok(Some(params)) ==> params.wf(),
            r matches Err(e) ==> e.frame is None && e.code == TransportErrorCode(PROTOCOL_VIOLATION),
    ;

    /// Appends the handshake bytes that are due to `buf`. Where this takes
    /// the handshake to its next encryption level, the keys of that level
    /// come back, and the session is in its next phase; without keys it
    /// stays in the phase that it is in.
    fn write_handshake(&mut self, buf: &mut Vec<u8>) -> (k: Option<Self::Keys>)
        ensures
            final(self).spec_side() == old(self).spec_side(),
            final(self).spec_readable() == old(self).spec_readable(),
            final(self).spec_phase() == (if k is Some {
                old(self).spec_phase().spec_next()
            } else {
                old(self).spec_phase()
            }),
            old(self).spec_phase().rank() <= final(self).spec_phase().rank(),
            old(buf)@.len() <= final(buf)@.len(),
            final(buf)@.subrange(0, old(buf)@.len() as int) == old(buf)@,
    ;

    /// The keys that follow `keys` in a key update. Keys are updated once
    /// the session has handed out its 1-RTT keys.
    fn update_keys(&self, keys: &Self::Keys) -> Self::Keys
        requires
            self.spec_can_update(keys),
    ;

    /// The peer's certificates in DER, once they are known.
    fn peer_der_certificates(&self) -> Option<Vec<Vec<u8>>>;
}

/// The configuration from which client sessions start.
pub trait ClientCryptoConfig<S> {
    /// Sessions for QUIC can start from this configuration.
    spec fn accepts_quic(&self) -> bool;

    /// The configuration is set as the default one is.
    spec fn is_default(&self) -> bool;

    /// The default configuration.
    fn new() -> (config: Self) where Self: Sized
        ensures
            config.accepts_quic(),
            config.is_default(),
    ;

    /// Starts a session with the server `server_name`, to which `params` are
    /// declared. A name that is no DNS name is refused.
    fn start_session(&self, server_name: &str, params: &TransportParameters) -> (r: Result<
        S,
        ConnectError,
    >)
        requires
            self.accepts_quic(),
            params.wf(),
        ensures
            r matches Err(e) ==> e matches ConnectError::InvalidDnsName(name) && name@
                == server_name@,
            server_name@.len() == 0 ==> r is Err,
    ;
}

/// The configuration from which server sessions start.
pub trait ServerCryptoConfig<S> {
    /// Sessions for QUIC can start from this configuration.
    spec fn accepts_quic(&self) -> bool;

    /// The configuration is set as the default one is.
    spec fn is_default(&self) -> bool;

    /// The default configuration.
    fn new() -> (config: Self) where Self: Sized
        ensures
            config.accepts_quic(),
            config.is_default(),
    ;

    /// Starts a session with a client, to which `params` are declared.
    fn start_session(&self, params: &TransportParameters) -> S
        requires
            self.accepts_quic(),
            params.wf(),
    ;
}

/// The most bytes that one packet may protect. It is what every AEAD in use
/// takes under one nonce.
pub const MAX_PAYLOAD_LEN: u64 = 0xf_ffff_ffe0;

/// Keys used to protect packet payloads.
pub trait Keys: Sized {
    /// The keys that protect packet headers.
    type HeaderKeys: HeaderKeys;

    /// The number of bytes that the authentication tag takes.
    spec fn spec_tag_len(&self) -> nat;

    /// What sealing makes of `payload` in packet number `packet` under the
    /// header `header`: the ciphertext with its tag.
    spec fn seal(&self, packet: u64, header: Seq<u8>, payload: Seq<u8>) -> Seq<u8>;

    /// What opening finds in `sealed`, received in packet number `packet`
    /// under the header `header`: the payload, or nothing where the packet
    /// does not authenticate.
    spec fn open(&self, packet: u64, header: Seq<u8>, sealed: Seq<u8>) -> Option<Seq<u8>>;

    /// The keys for the first packets of a connection, which both ends can
    /// work out from the ID that the client chose for the server.
    fn new_initial(id: &ConnectionId, side: Side) -> Self;

    /// Seals a packet in place. `buf` holds the header in its first
    /// `header_len` bytes, then the payload, then room for the tag. The
    /// header stays; payload and room become the sealed payload.
    fn encrypt(&self, packet: u64, buf: &mut [u8], header_len: usize)
        requires
            header_len + self.spec_tag_len() <= old(buf)@.len(),
            old(buf)@.len() <= MAX_PAYLOAD_LEN,
        ensures
            final(buf)@.len() == old(buf)@.len(),
            final(buf)@ == old(buf)@.subrange(0, header_len as int) + self.seal(
                packet,
                old(buf)@.subrange(0, header_len as int),
                old(buf)@.subrange(header_len as int, old(buf)@.len() - self.spec_tag_len()),
            ),
    ;

    /// Opens a packet's payload in place. Where it authenticates, `payload`
    /// is left holding what was sealed, shorter by the tag. Where it does
    /// not, as where it is shorter than a tag, the failure says nothing
    /// more, and the packet is to be dropped.
    fn decrypt(&self, packet: u64, header: &[u8], payload: &mut bytes::BytesMut) -> (r: Result<
        (),
        (),
    >)
        ensures
            r is Ok ==> bytes_mut_view(*final(payload)).len() + self.spec_tag_len() == bytes_mut_view(
                *old(payload),
            ).len(),
            bytes_mut_view(*old(payload)).len() < self.spec_tag_len() ==> r is Err,
            match self.open(packet, header@, bytes_mut_view(*old(payload))) {
                Some(plain) => r is Ok && bytes_mut_view(*final(payload)) == plain,
                None => r is Err && bytes_mut_view(*final(payload)).len() == bytes_mut_view(
                    *old(payload),
                ).len(),
            },
    ;

    /// The keys that protect the headers of the packets that these keys seal.
    fn header_keys(&self) -> Self::HeaderKeys;

    /// The number of bytes that the authentication tag takes.
    fn tag_len(&self) -> (n: usize)
        ensures
            n == self.spec_tag_len(),
    ;
}

/// Keys used to protect packet headers.
pub trait HeaderKeys {
    /// The number of bytes of sealed payload that the mask is made from.
    spec fn spec_sample_size(&self) -> nat;

    /// The packet with its header protected.
    spec fn protected(&self, pn_offset: int, packet: Seq<u8>) -> Seq<u8>;

    /// The packet with the protection of its header taken off.
    spec fn unprotected(&self, pn_offset: int, packet: Seq<u8>) -> Seq<u8>;

    /// Takes the protection off a received packet's header. The packet
    /// number starts at `pn_offset`; the sample starts four bytes later.
    fn decrypt(&self, pn_offset: usize, packet: &mut [u8])
        requires
            pn_offset + 4 + self.spec_sample_size() <= old(packet)@.len(),
        ensures
            final(packet)@.len() == old(packet)@.len(),
            final(packet)@ == self.unprotected(pn_offset as int, old(packet)@),
    ;

    /// Protects the header of a packet to send.
    fn encrypt(&self, pn_offset: usize, packet: &mut [u8])
        requires
            pn_offset + 4 + self.spec_sample_size() <= old(packet)@.len(),
        ensures
            final(packet)@.len() == old(packet)@.len(),
            final(packet)@ == self.protected(pn_offset as int, old(packet)@),
    ;

    /// The number of bytes of sealed payload that the mask is made from.
    fn sample_size(&self) -> (n: usize)
        ensures
            n == self.spec_sample_size(),
    ;
}

/// A key for signing with an HMAC.
pub trait HmacKey: Sized {
    /// The length that a key must have.
    const KEY_LEN: usize;

    /// The signature of `data` under this key.
    spec fn signature(&self, data: Seq<u8>) -> Seq<u8>;

    /// Makes a key of `key`, which must have the length `KEY_LEN`.
    fn new(key: &[u8]) -> (r: Result<Self, ConfigError>)
        ensures
            r is Ok <==> key@.len() == Self::KEY_LEN,
    ;

    /// Signs `data`.
    fn sign(&self, data: &[u8]) -> (s: Vec<u8>)
        ensures
            s@ == self.signature(data@),
    ;

    /// Checks that `signature` is that of `data` under this key.
    fn verify(&self, data: &[u8], signature: &[u8]) -> (r: Result<(), ()>)
        ensures
            r is Ok <==> signature@ == self.signature(data@),
    ;
}

} // verus!
