//! The TLS 1.3 session, with *rustls* as the TLS engine.
//!
//! The engine runs the handshake. What is decided here is what becomes of
//! its answers: which error a failed read is, which keys a pair of secrets
//! gives to which end, what the peer's parameters say.

use std::sync::Arc;
use vstd::prelude::*;
use crate::crypto::ring::{
    expand_label, hkdf_expand_label, prk_clone, prk_hash, prk_new, prk_secret, AeadAlgorithm, Crypto,
    HashAlgorithm, HmacSha256Key, Label,
};
use crate::crypto::{ClientCryptoConfig, Phase, ServerCryptoConfig, Session};
use crate::shared::{ConnectError, Side, TransportError, TransportErrorCode, PROTOCOL_VIOLATION};
use crate::transport_parameters::{encode_params, read_spec, Error, TransportParameters};

verus! {

/// `rustls::ClientSession`, the TLS engine of a client. Nothing is known
/// of what goes on inside it.
#[verifier::external_type_specification]
#[verifier::external_body]
pub struct ExClientSession(rustls::ClientSession);

/// `rustls::ServerSession`, the TLS engine of a server. Nothing is known of
/// what goes on inside it.
#[verifier::external_type_specification]
#[verifier::external_body]
pub struct ExServerSession(rustls::ServerSession);

/// `rustls::ClientConfig`. Of what it holds, only the versions have a name.
#[verifier::external_type_specification]
#[verifier::external_body]
pub struct ExClientConfig(rustls::ClientConfig);

/// `rustls::ServerConfig`. Of what it holds, only the versions and the
/// limit on early data have names.
#[verifier::external_type_specification]
#[verifier::external_body]
pub struct ExServerConfig(rustls::ServerConfig);

/// A rustls TLS session, with the phase that it has come to.
pub enum TlsSession {
    Client(rustls::ClientSession, Phase),
    Server(rustls::ServerSession, Phase),
}

/// What a cipher suite says about the protection of packets.
#[derive(Clone, Copy, Debug, PartialEq, Eq, Structural)]
pub struct CipherSuite {
    pub aead: AeadAlgorithm,
    /// The hash of the suite, where it is one that keys are updated with.
    pub hash: Option<HashAlgorithm>,
}

/// The traffic secrets of one encryption level.
pub struct Secrets {
    /// The secret under which the client sends.
    pub client: ring::hkdf::Prk,
    /// The secret under which the server sends.
    pub server: ring::hkdf::Prk,
}

/// The name is a DNS name in the eyes of `webpki::DNSNameRef::try_from_ascii_str`.
pub uninterp spec fn is_dns_name(name: Seq<char>) -> bool;

/// A character that a DNS name may hold: a letter, a digit, a hyphen, an
/// underscore or a dot.
pub open spec fn is_dns_char(c: char) -> bool {
    let n = c as u32;
    (0x61 <= n <= 0x7a) || (0x41 <= n <= 0x5a) || is_digit(c) || n == 0x2d || n == 0x5f || n == 0x2e
}

/// A digit.
pub open spec fn is_digit(c: char) -> bool {
    0x30 <= c as u32 <= 0x39
}

/// The characters from `start` up to `end` are the last label of the name,
/// with or without a dot behind it, and all of them are digits.
pub open spec fn is_last_label_of_digits(name: Seq<char>, start: int, end: int) -> bool {
    &&& 0 <= start < end <= name.len()
    &&& (start == 0 || name[start - 1] == '.')
    &&& (end == name.len() || (end == name.len() - 1 && name[end] == '.'))
    &&& forall|i: int| start <= i < end ==> is_digit(#[trigger] name[i])
}

/// The last label of the name is made of digits alone, as the last label
/// of an IPv4 address is.
pub open spec fn ends_in_numeric_label(name: Seq<char>) -> bool {
    exists|start: int, end: int| #[trigger] is_last_label_of_digits(name, start, end)
}

/// The versions that the client configuration offers, each as its number
/// in the protocol.
pub uninterp spec fn client_config_versions(config: rustls::ClientConfig) -> Seq<u16>;

/// The versions that the server configuration takes, each as its number in
/// the protocol.
pub uninterp spec fn server_config_versions(config: rustls::ServerConfig) -> Seq<u16>;

/// The number of TLS 1.3 in the protocol.
pub const TLS13: u16 = 0x0304;

/// All the versions are TLS 1.3 or later ones.
pub open spec fn from_tls13_on(versions: Seq<u16>) -> bool {
    forall|i: int| 0 <= i < versions.len() ==> #[trigger] versions[i] >= TLS13
}

/// The most early data that the server configuration takes.
pub uninterp spec fn server_config_max_early_data_size(config: rustls::ServerConfig) -> u32;

/// The transport parameters that the server session was made with, as the
/// bytes that it declares to its peer.
pub uninterp spec fn server_session_parameters(session: rustls::ServerSession) -> Seq<u8>;

/// Whether the client configuration lets early data be sent.
pub uninterp spec fn client_config_early_data(config: rustls::ClientConfig) -> bool;

/// The client session is without the state from which it reads on: a read
/// has failed and taken it.
pub uninterp spec fn client_session_stranded(session: rustls::ClientSession) -> bool;

/// The server session is without the state from which it reads on: a read
/// has failed and taken it.
pub uninterp spec fn server_session_stranded(session: rustls::ServerSession) -> bool;

/// `QuicExt::read_hs` of a client session. The error comes back as its
/// text. rustls takes the session's state to read on from it and puts the
/// next one back only where the read succeeds; without a state it panics.
#[verifier::external_body]
fn client_read_hs(session: &mut rustls::ClientSession, buf: &[u8]) -> (r: Result<(), String>)
    requires
        !client_session_stranded(*old(session)),
    ensures
        r is Ok ==> !client_session_stranded(*final(session)),
{
    match rustls::quic::QuicExt::read_hs(session, buf) {
        Ok(()) => Ok(()),
        Err(e) => Err(e.to_string()),
    }
}

/// `QuicExt::read_hs` of a server session. The error comes back as its
/// text. rustls takes the session's state to read on from it and puts the
/// next one back only where the read succeeds; without a state it panics.
#[verifier::external_body]
fn server_read_hs(session: &mut rustls::ServerSession, buf: &[u8]) -> (r: Result<(), String>)
    requires
        !server_session_stranded(*old(session)),
    ensures
        r is Ok ==> !server_session_stranded(*final(session)),
{
    match rustls::quic::QuicExt::read_hs(session, buf) {
        Ok(()) => Ok(()),
        Err(e) => Err(e.to_string()),
    }
}

/// `QuicExt::get_alert` of a client session, as the alert's number.
#[verifier::external_body]
fn client_alert(session: &rustls::ClientSession) -> Option<u8> {
    match rustls::quic::QuicExt::get_alert(session) {
        Some(alert) => Some(alert.get_u8()),
        None => None,
    }
}

/// `QuicExt::get_alert` of a server session, as the alert's number.
#[verifier::external_body]
fn server_alert(session: &rustls::ServerSession) -> Option<u8> {
    match rustls::quic::QuicExt::get_alert(session) {
        Some(alert) => Some(alert.get_u8()),
        None => None,
    }
}

/// `QuicExt::write_hs` of a client session: it appends to `buf` and leaves
/// what `buf` held. It does not touch the state that the session reads from.
#[verifier::external_body]
fn client_write_hs(session: &mut rustls::ClientSession, buf: &mut Vec<u8>) -> (secrets: Option<Secrets>)
    ensures
        old(buf)@.len() <= final(buf)@.len(),
        final(buf)@.subrange(0, old(buf)@.len() as int) == old(buf)@,
        client_session_stranded(*final(session)) == client_session_stranded(*old(session)),
{
    match rustls::quic::QuicExt::write_hs(session, buf) {
        Some(secrets) => Some(Secrets { client: secrets.client, server: secrets.server }),
        None => None,
    }
}

/// `QuicExt::write_hs` of a server session: it appends to `buf` and leaves
/// what `buf` held. It does not touch the state that the session reads from.
#[verifier::external_body]
fn server_write_hs(session: &mut rustls::ServerSession, buf: &mut Vec<u8>) -> (secrets: Option<Secrets>)
    ensures
        old(buf)@.len() <= final(buf)@.len(),
        final(buf)@.subrange(0, old(buf)@.len() as int) == old(buf)@,
        server_session_stranded(*final(session)) == server_session_stranded(*old(session)),
{
    match rustls::quic::QuicExt::write_hs(session, buf) {
        Some(secrets) => Some(Secrets { client: secrets.client, server: secrets.server }),
        None => None,
    }
}

/// `QuicExt::get_early_secret` of a client session, as a copy.
#[verifier::external_body]
fn client_early_secret(session: &rustls::ClientSession) -> Option<ring::hkdf::Prk> {
    rustls::quic::QuicExt::get_early_secret(session).cloned()
}

/// `Session::get_negotiated_ciphersuite` of a client session: the AEAD
/// that the suite names, and its hash as the number that TLS gives it.
#[verifier::external_body]
fn client_suite(session: &rustls::ClientSession) -> Option<(AeadAlgorithm, u8)> {
    let suite = rustls::Session::get_negotiated_ciphersuite(session)?;
    let aead = match suite.bulk {
        rustls::BulkAlgorithm::AES_128_GCM => AeadAlgorithm::Aes128Gcm,
        rustls::BulkAlgorithm::AES_256_GCM => AeadAlgorithm::Aes256Gcm,
        rustls::BulkAlgorithm::CHACHA20_POLY1305 => AeadAlgorithm::ChaCha20Poly1305,
    };
    Some((aead, suite.hash.get_u8()))
}

/// `Session::get_negotiated_ciphersuite` of a server session: the AEAD
/// that the suite names, and its hash as the number that TLS gives it.
#[verifier::external_body]
fn server_suite(session: &rustls::ServerSession) -> Option<(AeadAlgorithm, u8)> {
    let suite = rustls::Session::get_negotiated_ciphersuite(session)?;
    let aead = match suite.bulk {
        rustls::BulkAlgorithm::AES_128_GCM => AeadAlgorithm::Aes128Gcm,
        rustls::BulkAlgorithm::AES_256_GCM => AeadAlgorithm::Aes256Gcm,
        rustls::BulkAlgorithm::CHACHA20_POLY1305 => AeadAlgorithm::ChaCha20Poly1305,
    };
    Some((aead, suite.hash.get_u8()))
}

/// `Session::is_handshaking` of a client session.
#[verifier::external_body]
fn client_is_handshaking(session: &rustls::ClientSession) -> bool {
    rustls::Session::is_handshaking(session)
}

/// `Session::is_handshaking` of a server session.
#[verifier::external_body]
fn server_is_handshaking(session: &rustls::ServerSession) -> bool {
    rustls::Session::is_handshaking(session)
}

/// `Session::get_alpn_protocol` of a client session.
#[verifier::external_body]
fn client_alpn_protocol(session: &rustls::ClientSession) -> Option<&[u8]> {
    rustls::Session::get_alpn_protocol(session)
}

/// `Session::get_alpn_protocol` of a server session.
#[verifier::external_body]
fn server_alpn_protocol(session: &rustls::ServerSession) -> Option<&[u8]> {
    rustls::Session::get_alpn_protocol(session)
}

/// `QuicExt::get_quic_transport_parameters` of a client session.
#[verifier::external_body]
fn client_transport_parameters(session: &rustls::ClientSession) -> Option<&[u8]> {
    rustls::quic::QuicExt::get_quic_transport_parameters(session)
}

/// `QuicExt::get_quic_transport_parameters` of a server session.
#[verifier::external_body]
fn server_transport_parameters(session: &rustls::ServerSession) -> Option<&[u8]> {
    rustls::quic::QuicExt::get_quic_transport_parameters(session)
}

/// `Session::get_peer_certificates` of a client session, each certificate as its bytes.
#[verifier::external_body]
fn client_peer_certificates(session: &rustls::ClientSession) -> Option<Vec<Vec<u8>>> {
    rustls::Session::get_peer_certificates(session).map(|certs| certs.into_iter().map(|cert| cert.0).collect())
}

/// `Session::get_peer_certificates` of a server session, each certificate as its bytes.
#[verifier::external_body]
fn server_peer_certificates(session: &rustls::ServerSession) -> Option<Vec<Vec<u8>>> {
    rustls::Session::get_peer_certificates(session).map(|certs| certs.into_iter().map(|cert| cert.0).collect())
}

/// `ClientSession::is_early_data_accepted`.
#[verifier::external_body]
fn client_is_early_data_accepted(session: &rustls::ClientSession) -> bool {
    session.is_early_data_accepted()
}

/// `ServerSession::get_sni_hostname`.
#[verifier::external_body]
fn server_sni_hostname(session: &rustls::ServerSession) -> Option<&str> {
    session.get_sni_hostname()
}

/// `ClientConfig::new` of rustls.
#[verifier::external_body]
fn client_config_new() -> rustls::ClientConfig {
    rustls::ClientConfig::new()
}

/// Sets the versions of a client configuration to TLS 1.3 alone. The
/// switch for early data stays.
#[verifier::external_body]
fn client_config_set_tls13(config: &mut rustls::ClientConfig)
    ensures
        client_config_versions(*final(config)) == seq![TLS13],
        client_config_early_data(*final(config)) == client_config_early_data(*old(config)),
{
    config.versions = vec![rustls::ProtocolVersion::TLSv1_3];
}

/// Sets whether a client configuration lets early data be sent. The
/// versions stay.
#[verifier::external_body]
fn client_config_set_enable_early_data(config: &mut rustls::ClientConfig, enable: bool)
    ensures
        client_config_early_data(*final(config)) == enable,
        client_config_versions(*final(config)) == client_config_versions(*old(config)),
{
    config.enable_early_data = enable;
}

/// `ServerConfig::new` of rustls, for clients that do not authenticate.
#[verifier::external_body]
fn server_config_new() -> rustls::ServerConfig {
    rustls::ServerConfig::new(rustls::NoClientAuth::new())
}

/// Sets the versions of a server configuration to TLS 1.3 alone. The limit
/// on early data stays.
#[verifier::external_body]
fn server_config_set_tls13(config: &mut rustls::ServerConfig)
    ensures
        server_config_versions(*final(config)) == seq![TLS13],
        server_config_max_early_data_size(*final(config)) == server_config_max_early_data_size(
            *old(config),
        ),
{
    config.versions = vec![rustls::ProtocolVersion::TLSv1_3];
}

/// Sets the most early data that a server configuration takes. The
/// versions stay.
#[verifier::external_body]
fn server_config_set_max_early_data_size(config: &mut rustls::ServerConfig, size: u32)
    ensures
        server_config_max_early_data_size(*final(config)) == size,
        server_config_versions(*final(config)) == server_config_versions(*old(config)),
{
    config.max_early_data_size = size;
}

/// `DNSNameRef::try_from_ascii_str` of webpki: whether it takes the name
/// for a DNS name. It takes no name that is empty or longer than 253
/// bytes, none that holds another character than letters, digits, hyphen,
/// underscore and dot, and none whose last label is made of digits alone.
#[verifier::external_body]
fn dns_name_is_valid(name: &str) -> (valid: bool)
    ensures
        valid == is_dns_name(name@),
        valid ==> 0 < name@.len() <= 253,
        valid ==> forall|i: int| 0 <= i < name@.len() ==> is_dns_char(#[trigger] name@[i]),
        valid ==> !ends_in_numeric_label(name@),
{
    webpki::DNSNameRef::try_from_ascii_str(name).is_ok()
}

/// `ClientQuicExt::new_quic` of rustls, for a server name that webpki takes
/// for a DNS name. rustls asks for a configuration whose versions are TLS
/// 1.3 and later ones. The session starts with the state of a handshake
/// that begins.
#[verifier::external_body]
fn client_new_quic(config: &Arc<rustls::ClientConfig>, server_name: &str, params: Vec<u8>) -> (session: rustls::ClientSession)
    requires
        from_tls13_on(client_config_versions(**config)),
        is_dns_name(server_name@),
    ensures
        !client_session_stranded(session),
{
    let name = webpki::DNSNameRef::try_from_ascii_str(server_name).unwrap();
    <rustls::ClientSession as rustls::quic::ClientQuicExt>::new_quic(config, name, params)
}

/// `ServerQuicExt::new_quic` of rustls. It asks for a configuration whose
/// versions are TLS 1.3 and later ones, and which takes early data without
/// limit or not at all. The session keeps `params` as the transport
/// parameters to declare, and starts with the state that awaits the
/// client's first message.
#[verifier::external_body]
fn server_new_quic(config: &Arc<rustls::ServerConfig>, params: Vec<u8>) -> (session: rustls::ServerSession)
    requires
        from_tls13_on(server_config_versions(**config)),
        server_config_max_early_data_size(**config) == 0 || server_config_max_early_data_size(
            **config,
        ) == 0xffff_ffff,
    ensures
        server_session_parameters(session) == params@,
        !server_session_stranded(session),
{
    <rustls::ServerSession as rustls::quic::ServerQuicExt>::new_quic(config, params)
}

/// The words that go before the text of a TLS error that came without an alert.
pub open spec fn tls_error_prefix() -> Seq<char> {
    "TLS error: "@
}

/// `e` is the transport error that a failed read of handshake bytes is,
/// where the TLS engine gave `alert` as its alert and `text` as its words:
/// with an alert, the alert's code and the words; without, a protocol
/// violation whose reason is the words behind "TLS error: ".
pub open spec fn is_handshake_error(e: TransportError, alert: Option<u8>, text: Seq<char>) -> bool {
    &&& e.frame is None
    &&& match alert {
        Some(a) => e.code == TransportErrorCode::spec_crypto(a) && e.code.spec_alert() == Some(a)
            && e.reason@ == text,
        None => e.code == TransportErrorCode(PROTOCOL_VIOLATION) && e.reason@ == tls_error_prefix()
            + text,
    }
}

/// The transport error that a failed read of handshake bytes is: with an
/// alert, the alert's code and the error's text; without, a protocol
/// violation whose reason is the text behind "TLS error: ".
pub fn handshake_error(alert: Option<u8>, text: String) -> (e: TransportError)
    ensures
        is_handshake_error(e, alert, text@),
        alert is Some ==> e.reason == text,
{
    match alert {
        Some(a) => TransportError { code: TransportErrorCode::crypto(a), frame: None, reason: text },
        None => TransportError::protocol_violation(
            String::from_str("TLS error: ").concat(text.as_str()),
        ),
    }
}

/// The words for a refusal of the peer's transport parameters.
pub open spec fn parameters_error_text(e: Error) -> Seq<char> {
    match e {
        Error::IllegalValue => "illegal value"@,
        Error::Malformed => "malformed"@,
    }
}

/// `r` is what the end `side` makes of `raw`, the bytes that the TLS engine
/// holds as the peer's transport parameters: nothing while there are none,
/// the parameters once they read, a protocol violation where they do not.
pub open spec fn is_decoded(
    side: Side,
    raw: Option<Seq<u8>>,
    r: Result<Option<TransportParameters>, TransportError>,
) -> bool {
    match raw {
        None => r matches Ok(None),
        Some(bytes) => match read_spec(side, bytes) {
            Ok(ps) => r matches Ok(Some(params)) && params@ == ps && params.wf(),
            Err(e) => {
                &&& r matches Err(error)
                &&& error.code == TransportErrorCode(PROTOCOL_VIOLATION)
                &&& error.frame is None
                &&& error.reason@ == parameters_error_text(e)
            },
        },
    }
}

/// The bytes that the TLS engine gave, as a sequence.
pub open spec fn raw_view(raw: Option<&[u8]>) -> Option<Seq<u8>> {
    match raw {
        Some(bytes) => Some(bytes@),
        None => None,
    }
}

/// What the end `side` makes of the bytes that the TLS engine holds as the
/// peer's transport parameters: nothing while there are none, the
/// parameters once they read, a protocol violation where they do not.
pub fn decode_transport_parameters(side: Side, raw: Option<&[u8]>) -> (r: Result<
    Option<TransportParameters>,
    TransportError,
>)
    ensures
        is_decoded(side, raw_view(raw), r),
{
    match raw {
        None => Ok(None),
        Some(bytes) => match TransportParameters::read(side, bytes) {
            Ok(params) => Ok(Some(params)),
            Err(Error::IllegalValue) => Err(
                TransportError::protocol_violation(String::from_str("illegal value")),
            ),
            Err(Error::Malformed) => Err(
                TransportError::protocol_violation(String::from_str("malformed")),
            ),
        },
    }
}

/// The hash that stands behind a number of TLS, where it is one that keys
/// are updated with: SHA-256, SHA-384 or SHA-512.
pub open spec fn spec_tls_hash(code: u8) -> Option<HashAlgorithm> {
    if code == 4 {
        Some(HashAlgorithm::Sha256)
    } else if code == 5 {
        Some(HashAlgorithm::Sha384)
    } else if code == 6 {
        Some(HashAlgorithm::Sha512)
    } else {
        None
    }
}

/// The hash that stands behind a number of TLS, where it is one that keys
/// are updated with.
#[verifier::when_used_as_spec(spec_tls_hash)]
pub fn tls_hash(code: u8) -> (h: Option<HashAlgorithm>)
    ensures
        h == spec_tls_hash(code),
{
    if code == 4 {
        Some(HashAlgorithm::Sha256)
    } else if code == 5 {
        Some(HashAlgorithm::Sha384)
    } else if code == 6 {
        Some(HashAlgorithm::Sha512)
    } else {
        None
    }
}

/// What the suite that the TLS engine names says about the protection of
/// packets. Any hash makes a suite; only one of the three makes its keys
/// such that they can be updated.
pub fn cipher_suite(named: Option<(AeadAlgorithm, u8)>) -> (c: Option<CipherSuite>)
    ensures
        c == match named {
            Some((aead, hash)) => Some(CipherSuite { aead, hash: spec_tls_hash(hash) }),
            None => None::<CipherSuite>,
        },
{
    match named {
        Some((aead, hash)) => Some(CipherSuite { aead, hash: tls_hash(hash) }),
        None => None,
    }
}

/// The keys of `side` for the secrets of the encryption level that the
/// handshake has reached, under the suite that was agreed on. No secrets, no keys.
pub fn keys_from_secrets(side: Side, suite: Option<CipherSuite>, secrets: Option<Secrets>) -> (k: Option<
    Crypto,
>)
    ensures
        match (secrets, suite) {
            (Some(s), Some(c)) => {
                &&& k matches Some(keys)
                &&& keys.aead() == c.aead
                &&& keys.hash() == c.hash
                &&& keys.local_secret() == (if side is Client {
                    s.client
                } else {
                    s.server
                })
                &&& keys.remote_secret() == (if side is Client {
                    s.server
                } else {
                    s.client
                })
            },
            _ => k is None,
        },
{
    match (secrets, suite) {
        (Some(s), Some(c)) => Some(Crypto::new(side, c.aead, c.hash, s.client, s.server)),
        _ => None,
    }
}

/// The 0-RTT keys for the early secret, under the suite of the session that
/// is resumed: both directions run under the one secret. No secret, no keys.
pub fn early_keys(side: Side, suite: Option<CipherSuite>, secret: Option<ring::hkdf::Prk>) -> (k: Option<
    Crypto,
>)
    ensures
        match (secret, suite) {
            (Some(s), Some(c)) => {
                &&& k matches Some(keys)
                &&& keys.aead() == c.aead
                &&& keys.hash() == c.hash
                &&& keys.local_secret() == s
                &&& keys.remote_secret() == s
            },
            _ => k is None,
        },
{
    match (secret, suite) {
        (Some(s), Some(c)) => {
            let copy = prk_clone(&s);
            Some(Crypto::new(side, c.aead, c.hash, copy, s))
        },
        _ => None,
    }
}

/// The secrets that follow `client` and `server` in a key update: each is
/// derived from the one before under "quic ku", as long as a digest of `hash`.
pub fn update_secrets(hash: HashAlgorithm, client: &ring::hkdf::Prk, server: &ring::hkdf::Prk) -> (s: Secrets)
    ensures
        prk_hash(s.client) == hash,
        prk_hash(s.server) == hash,
        prk_secret(s.client) == expand_label(*client, Label::QuicKu, hash.spec_output_len() as nat),
        prk_secret(s.server) == expand_label(*server, Label::QuicKu, hash.spec_output_len() as nat),
{
    let len = hash.output_len();
    let next_client = hkdf_expand_label(client, Label::QuicKu, len);
    let next_server = hkdf_expand_label(server, Label::QuicKu, len);
    Secrets {
        client: prk_new(hash, next_client.as_slice()),
        server: prk_new(hash, next_server.as_slice()),
    }
}

/// The parameters as they go into the handshake.
pub fn to_vec(params: &TransportParameters) -> (bytes: Vec<u8>)
    requires
        params.wf(),
    ensures
        bytes@ == encode_params(params@),
{
    let mut bytes: Vec<u8> = Vec::new();
    params.write(&mut bytes);
    assert(bytes@ =~= encode_params(params@));
    bytes
}

impl TlsSession {
    /// The end of the connection that this session is for.
    pub fn side(&self) -> (s: Side)
        ensures
            s == self.spec_side(),
    {
        match self {
            TlsSession::Client(_, _) => Side::Client,
            TlsSession::Server(_, _) => Side::Server,
        }
    }

    /// How far the session has come.
    pub fn phase(&self) -> (p: Phase)
        ensures
            p == self.spec_phase(),
    {
        match self {
            TlsSession::Client(_, phase) => *phase,
            TlsSession::Server(_, phase) => *phase,
        }
    }

    /// The AEAD and the hash of the suite that was agreed on, once one was,
    /// as `cipher_suite` makes them of what the TLS engine names.
    pub fn suite(&self) -> Option<CipherSuite> {
        let named = match self {
            TlsSession::Client(session, _) => client_suite(session),
            TlsSession::Server(session, _) => server_suite(session),
        };
        cipher_suite(named)
    }
}

impl Session for TlsSession {
    type ClientCryptoConfig = Arc<rustls::ClientConfig>;

    type HmacKey = HmacSha256Key;

    type Keys = Crypto;

    type ServerCryptoConfig = Arc<rustls::ServerConfig>;

    open spec fn spec_side(&self) -> Side {
        match self {
            TlsSession::Client(_, _) => Side::Client,
            TlsSession::Server(_, _) => Side::Server,
        }
    }

    open spec fn spec_phase(&self) -> Phase {
        match self {
            TlsSession::Client(_, phase) => *phase,
            TlsSession::Server(_, phase) => *phase,
        }
    }

    open spec fn spec_readable(&self) -> bool {
        match self {
            TlsSession::Client(engine, phase) => !(*phase is Closed) && !client_session_stranded(
                *engine,
            ),
            TlsSession::Server(engine, phase) => !(*phase is Closed) && !server_session_stranded(
                *engine,
            ),
        }
    }

    open spec fn spec_can_update(&self, keys: &Crypto) -> bool {
        self.spec_phase() is OneRtt && keys.hash() is Some
    }

    fn alpn_protocol(&self) -> Option<&[u8]> {
        match self {
            TlsSession::Client(session, _) => client_alpn_protocol(session),
            TlsSession::Server(session, _) => server_alpn_protocol(session),
        }
    }

    /// The 0-RTT keys of a client, made of the early secret by `early_keys`:
    /// they run both ways under that one secret. A server has none.
    fn early_crypto(&self) -> (k: Option<Crypto>)
        ensures
            k matches Some(keys) ==> keys.local_secret() == keys.remote_secret(),
    {
        match self {
            TlsSession::Client(session, _) => early_keys(
                Side::Client,
                self.suite(),
                client_early_secret(session),
            ),
            TlsSession::Server(_, _) => None,
        }
    }

    fn early_data_accepted(&self) -> (r: Option<bool>) {
        match self {
            TlsSession::Client(session, _) => Some(client_is_early_data_accepted(session)),
            TlsSession::Server(_, _) => None,
        }
    }

    fn is_handshaking(&self) -> bool {
        match self {
            TlsSession::Client(session, _) => client_is_handshaking(session),
            TlsSession::Server(session, _) => server_is_handshaking(session),
        }
    }

    /// Hands the bytes to the TLS engine, unless there are none. Where it
    /// fails, the error is the one that `handshake_error` makes of the
    /// engine's alert and of its words.
    fn read_handshake(&mut self, buf: &[u8]) -> (r: Result<(), TransportError>)
        ensures
            r matches Err(e) ==> exists|alert: Option<u8>, text: Seq<char>| #[trigger]
                is_handshake_error(e, alert, text),
    {
        if buf.len() == 0 {
            return Ok(());
        }
        match self {
            TlsSession::Client(session, phase) => match client_read_hs(session, buf) {
                Ok(()) => Ok(()),
                Err(text) => {
                    *phase = Phase::Closed;
                    let alert = client_alert(session);
                    let ghost words = text@;
                    let e = handshake_error(alert, text);
                    assert(is_handshake_error(e, alert, words));
                    Err(e)
                },
            },
            TlsSession::Server(session, phase) => match server_read_hs(session, buf) {
                Ok(()) => Ok(()),
                Err(text) => {
                    *phase = Phase::Closed;
                    let alert = server_alert(session);
                    let ghost words = text@;
                    let e = handshake_error(alert, text);
                    assert(is_handshake_error(e, alert, words));
                    Err(e)
                },
            },
        }
    }

    fn sni_hostname(&self) -> (r: Option<&str>) {
        match self {
            TlsSession::Client(_, _) => None,
            TlsSession::Server(session, _) => server_sni_hostname(session),
        }
    }

    /// The peer's transport parameters, read by `decode_transport_parameters`
    /// from the bytes that the TLS engine holds.
    fn transport_parameters(&self) -> (r: Result<Option<TransportParameters>, TransportError>)
        ensures
            exists|raw: Option<Seq<u8>>| #[trigger] is_decoded(self.spec_side(), raw, r),
    {
        let raw = match self {
            TlsSession::Client(session, _) => client_transport_parameters(session),
            TlsSession::Server(session, _) => server_transport_parameters(session),
        };
        let r = decode_transport_parameters(self.side(), raw);
        assert(is_decoded(self.spec_side(), raw_view(raw), r));
        r
    }

    /// Lets the TLS engine append its bytes. The keys are those that
    /// `keys_from_secrets` makes of the secrets that it hands out with them.
    fn write_handshake(&mut self, buf: &mut Vec<u8>) -> (k: Option<Crypto>) {
        let secrets = match self {
            TlsSession::Client(session, _) => client_write_hs(session, buf),
            TlsSession::Server(session, _) => server_write_hs(session, buf),
        };
        let keys = keys_from_secrets(self.side(), self.suite(), secrets);
        if keys.is_some() {
            match self {
                TlsSession::Client(_, phase) => {
                    *phase = phase.next();
                },
                TlsSession::Server(_, phase) => {
                    *phase = phase.next();
                },
            }
        }
        keys
    }

    /// The next keys: each direction's secret is derived from the one
    /// before, and the AEAD and the hash are those of `keys`, which are
    /// those of the session for keys that it has handed out.
    fn update_keys(&self, keys: &Crypto) -> (k: Crypto)
        ensures
            k.follows(keys),
    {
        let (client_secret, server_secret) = match self.side() {
            Side::Client => (keys.local(), keys.remote()),
            Side::Server => (keys.remote(), keys.local()),
        };
        let hash = keys.hash_algorithm().unwrap();
        let secrets = update_secrets(hash, client_secret, server_secret);
        Crypto::new(
            self.side(),
            keys.aead_algorithm(),
            keys.hash_algorithm(),
            secrets.client,
            secrets.server,
        )
    }

    fn peer_der_certificates(&self) -> Option<Vec<Vec<u8>>> {
        match self {
            TlsSession::Client(session, _) => client_peer_certificates(session),
            TlsSession::Server(session, _) => server_peer_certificates(session),
        }
    }
}

impl ClientCryptoConfig<TlsSession> for Arc<rustls::ClientConfig> {
    open spec fn accepts_quic(&self) -> bool {
        from_tls13_on(client_config_versions(**self))
    }

    /// The default offers TLS 1.3 alone and lets early data be sent.
    open spec fn is_default(&self) -> bool {
        &&& client_config_versions(**self) == seq![TLS13]
        &&& client_config_early_data(**self)
    }

    /// The default configuration: TLS 1.3 alone, and early data may be sent.
    fn new() -> (config: Arc<rustls::ClientConfig>) {
        let mut config = client_config_new();
        client_config_set_tls13(&mut config);
        client_config_set_enable_early_data(&mut config, true);
        Arc::new(config)
    }

    fn start_session(&self, server_name: &str, params: &TransportParameters) -> (r: Result<
        TlsSession,
        ConnectError,
    >)
        ensures
            r is Ok <==> is_dns_name(server_name@),
            r matches Ok(session) ==> session.spec_side() is Client && session.spec_phase() is Initial
                && session.spec_readable(),
            ends_in_numeric_label(server_name@) ==> r is Err,
            (exists|i: int| 0 <= i < server_name@.len() && !is_dns_char(#[trigger] server_name@[i]))
                ==> r is Err,
    {
        if dns_name_is_valid(server_name) {
            Ok(TlsSession::Client(client_new_quic(self, server_name, to_vec(params)), Phase::Initial))
        } else {
            Err(ConnectError::InvalidDnsName(String::from_str(server_name)))
        }
    }
}

impl ServerCryptoConfig<TlsSession> for Arc<rustls::ServerConfig> {
    open spec fn accepts_quic(&self) -> bool {
        &&& from_tls13_on(server_config_versions(**self))
        &&& (server_config_max_early_data_size(**self) == 0 || server_config_max_early_data_size(
            **self,
        ) == 0xffff_ffff)
    }

    /// The default takes TLS 1.3 alone, and early data without limit.
    open spec fn is_default(&self) -> bool {
        &&& server_config_versions(**self) == seq![TLS13]
        &&& server_config_max_early_data_size(**self) == u32::MAX
    }

    /// The default configuration: TLS 1.3 alone, and early data is taken
    /// without limit.
    fn new() -> (config: Arc<rustls::ServerConfig>) {
        let mut config = server_config_new();
        server_config_set_tls13(&mut config);
        server_config_set_max_early_data_size(&mut config, u32::MAX);
        Arc::new(config)
    }

    fn start_session(&self, params: &TransportParameters) -> (session: TlsSession)
        ensures
            session.spec_side() is Server,
            session.spec_phase() is Initial,
            session.spec_readable(),
            session matches TlsSession::Server(engine, _) && server_session_parameters(engine)
                == encode_params(params@),
    {
        TlsSession::Server(server_new_quic(self, to_vec(params)), Phase::Initial)
    }
}

} // verus!
