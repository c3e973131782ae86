//! Packet protection, header protection and token signing with the AEAD, HKDF
//! and HMAC of *ring*.
//!
//! *ring* computes; what is computed, from which bytes, under which nonce and
//! label, is decided here. Each call into it is a small function of its own,
//! whose contract names the value that comes back.

use vstd::prelude::*;
use crate::buf::{bytes_mut_len, bytes_mut_split_off, bytes_mut_view};
use crate::crypto::{HeaderKeys, HmacKey, Keys, MAX_PAYLOAD_LEN};
use crate::shared::{ConfigError, ConnectionId, Side};

verus! {

/// `ring::hkdf::Prk`, a pseudorandom key of HKDF. What it holds stays
/// inside it; `prk_secret` and `prk_hash` are the names for it.
#[verifier::external_type_specification]
#[verifier::external_body]
pub struct ExPrk(ring::hkdf::Prk);

/// The AEAD of a cipher suite.
#[derive(Clone, Copy, Debug, PartialEq, Eq, Structural)]
pub enum AeadAlgorithm {
    Aes128Gcm,
    Aes256Gcm,
    ChaCha20Poly1305,
}

/// A hash that HKDF runs with. The first is there only because keys made
/// elsewhere may have it.
#[derive(Clone, Copy, Debug, PartialEq, Eq, Structural)]
pub enum HashAlgorithm {
    Sha1,
    Sha256,
    Sha384,
    Sha512,
}

/// The length of the tag that every AEAD in use appends.
pub const TAG_LEN: usize = 16;

/// The length of the nonce that every AEAD in use takes.
pub const NONCE_LEN: usize = 12;

/// The length of the sample that a header protection mask is made from.
pub const SAMPLE_LEN: usize = 16;

/// The length of a header protection mask.
pub const MASK_LEN: usize = 5;

/// The longest output that HKDF gives with every hash: 255 digests of the
/// shortest.
pub const MAX_EXPAND_LEN: usize = 5100;

impl AeadAlgorithm {
    pub open spec fn spec_key_len(self) -> usize {
        match self {
            AeadAlgorithm::Aes128Gcm => 16,
            AeadAlgorithm::Aes256Gcm => 32,
            AeadAlgorithm::ChaCha20Poly1305 => 32,
        }
    }

    /// The length of a key of this AEAD.
    #[verifier::when_used_as_spec(spec_key_len)]
    pub fn key_len(self) -> (n: usize)
        ensures
            n == self.spec_key_len(),
    {
        match self {
            AeadAlgorithm::Aes128Gcm => 16,
            AeadAlgorithm::Aes256Gcm => 32,
            AeadAlgorithm::ChaCha20Poly1305 => 32,
        }
    }
}

impl HashAlgorithm {
    pub open spec fn spec_output_len(self) -> usize {
        match self {
            HashAlgorithm::Sha1 => 20,
            HashAlgorithm::Sha256 => 32,
            HashAlgorithm::Sha384 => 48,
            HashAlgorithm::Sha512 => 64,
        }
    }

    /// The length of a digest of this hash.
    #[verifier::when_used_as_spec(spec_output_len)]
    pub fn output_len(self) -> (n: usize)
        ensures
            n == self.spec_output_len(),
    {
        match self {
            HashAlgorithm::Sha1 => 20,
            HashAlgorithm::Sha256 => 32,
            HashAlgorithm::Sha384 => 48,
            HashAlgorithm::Sha512 => 64,
        }
    }
}

/// The bytes that a pseudorandom key was made from: the output of the
/// extraction or expansion that gave it, or the bytes handed to
/// `Prk::new_less_safe`.
pub uninterp spec fn prk_secret(prk: ring::hkdf::Prk) -> Seq<u8>;

/// The hash that a pseudorandom key was made for: one of the four that
/// *ring* has for HKDF.
pub uninterp spec fn prk_hash(prk: ring::hkdf::Prk) -> HashAlgorithm;

/// HKDF-Extract with `hash`: the pseudorandom key from `salt` and the input `ikm`.
pub uninterp spec fn hkdf_extract(hash: HashAlgorithm, salt: Seq<u8>, ikm: Seq<u8>) -> Seq<u8>;

/// HKDF-Expand with `hash`: `len` bytes from the pseudorandom key `prk` and `info`.
pub uninterp spec fn hkdf_expand(hash: HashAlgorithm, prk: Seq<u8>, info: Seq<u8>, len: nat) -> Seq<u8>;

/// The sealing of `plain`: its ciphertext, then the tag.
pub uninterp spec fn aead_seal(
    aead: AeadAlgorithm,
    key: Seq<u8>,
    nonce: Seq<u8>,
    aad: Seq<u8>,
    plain: Seq<u8>,
) -> Seq<u8>;

/// The opening of `sealed`: what was sealed, or nothing where the tag does not fit.
pub uninterp spec fn aead_open(
    aead: AeadAlgorithm,
    key: Seq<u8>,
    nonce: Seq<u8>,
    aad: Seq<u8>,
    sealed: Seq<u8>,
) -> Option<Seq<u8>>;

/// The header protection mask that the cipher of `aead` makes from `sample`.
pub uninterp spec fn header_protection_mask(aead: AeadAlgorithm, key: Seq<u8>, sample: Seq<u8>) -> Seq<u8>;

/// HMAC with SHA-256: the tag of `data` under `key`.
pub uninterp spec fn hmac_sha256(key: Seq<u8>, data: Seq<u8>) -> Seq<u8>;

/// The length that `ring::hkdf::Prk::expand` is asked for.
pub struct OkmLen(pub usize);

impl ring::hkdf::KeyType for OkmLen {
    fn len(&self) -> (n: usize)
        ensures
            n == self.0,
    {
        self.0
    }
}

/// `ring::hkdf::Salt::extract`, on a salt made for `hash`: the pseudorandom
/// key is that of HKDF-Extract, and expands with the same hash.
#[verifier::external_body]
pub(crate) fn prk_extract(hash: HashAlgorithm, salt: &[u8], ikm: &[u8]) -> (prk: ring::hkdf::Prk)
    ensures
        prk_secret(prk) == hkdf_extract(hash, salt@, ikm@),
        prk_hash(prk) == hash,
{
    let algorithm = match hash {
        HashAlgorithm::Sha1 => ring::hkdf::HKDF_SHA1_FOR_LEGACY_USE_ONLY,
        HashAlgorithm::Sha256 => ring::hkdf::HKDF_SHA256,
        HashAlgorithm::Sha384 => ring::hkdf::HKDF_SHA384,
        HashAlgorithm::Sha512 => ring::hkdf::HKDF_SHA512,
    };
    ring::hkdf::Salt::new(algorithm, salt).extract(ikm)
}

/// `ring::hkdf::Prk::new_less_safe`: the pseudorandom key that holds the
/// bytes of `secret`, for use with `hash`.
#[verifier::external_body]
pub(crate) fn prk_new(hash: HashAlgorithm, secret: &[u8]) -> (prk: ring::hkdf::Prk)
    ensures
        prk_secret(prk) == secret@,
        prk_hash(prk) == hash,
{
    let algorithm = match hash {
        HashAlgorithm::Sha1 => ring::hkdf::HKDF_SHA1_FOR_LEGACY_USE_ONLY,
        HashAlgorithm::Sha256 => ring::hkdf::HKDF_SHA256,
        HashAlgorithm::Sha384 => ring::hkdf::HKDF_SHA384,
        HashAlgorithm::Sha512 => ring::hkdf::HKDF_SHA512,
    };
    ring::hkdf::Prk::new_less_safe(algorithm, secret)
}

/// `Clone` of `ring::hkdf::Prk`: the same key once more.
#[verifier::external_body]
pub(crate) fn prk_clone(prk: &ring::hkdf::Prk) -> (copy: ring::hkdf::Prk)
    ensures
        copy == *prk,
{
    prk.clone()
}

/// `ring::hkdf::Prk::expand`, filled into a buffer of `len` bytes: the output
/// of HKDF-Expand with the key's hash. *ring* refuses more than 255 digests'
/// worth of output; `len` stays below that.
#[verifier::external_body]
pub(crate) fn prk_expand(prk: &ring::hkdf::Prk, info: &[u8], len: usize) -> (okm: Vec<u8>)
    requires
        len <= 255 * prk_hash(*prk).spec_output_len(),
    ensures
        okm@ == hkdf_expand(prk_hash(*prk), prk_secret(*prk), info@, len as nat),
        okm@.len() == len,
{
    let mut okm = vec![0u8; len];
    prk.expand(&[info], OkmLen(len)).unwrap().fill(&mut okm).unwrap();
    okm
}

/// `ring::aead::LessSafeKey::seal_in_place_separate_tag`, with a key made of
/// `key`: `in_out` is left holding the ciphertext and the tag comes back.
/// Together they are the sealing of what `in_out` held, and opening them
/// with the same key, nonce and associated data gives that back.
#[verifier::external_body]
pub(crate) fn seal_in_place_separate_tag(
    aead: AeadAlgorithm,
    key: &[u8],
    nonce: &[u8],
    aad: &[u8],
    in_out: &mut [u8],
) -> (tag: Vec<u8>)
    requires
        key@.len() == aead.spec_key_len(),
        nonce@.len() == NONCE_LEN,
        old(in_out)@.len() <= MAX_PAYLOAD_LEN,
    ensures
        final(in_out)@.len() == old(in_out)@.len(),
        tag@.len() == TAG_LEN,
        final(in_out)@ + tag@ == aead_seal(aead, key@, nonce@, aad@, old(in_out)@),
        aead_open(aead, key@, nonce@, aad@, final(in_out)@ + tag@) == Some(old(in_out)@),
{
    let algorithm = match aead {
        AeadAlgorithm::Aes128Gcm => &ring::aead::AES_128_GCM,
        AeadAlgorithm::Aes256Gcm => &ring::aead::AES_256_GCM,
        AeadAlgorithm::ChaCha20Poly1305 => &ring::aead::CHACHA20_POLY1305,
    };
    let key = ring::aead::LessSafeKey::new(ring::aead::UnboundKey::new(algorithm, key).unwrap());
    let nonce = ring::aead::Nonce::try_assume_unique_for_key(nonce).unwrap();
    key.seal_in_place_separate_tag(nonce, ring::aead::Aad::from(aad), in_out).unwrap().as_ref().to_vec()
}

/// `ring::aead::LessSafeKey::open_in_place`, with a key made of `key`, on
/// the whole of `in_out`. Where the tag fits, the plaintext takes the place
/// of the ciphertext and the tag stays behind it. Where it does not, the
/// buffer keeps its length.
#[verifier::external_body]
pub(crate) fn open_in_place(
    aead: AeadAlgorithm,
    key: &[u8],
    nonce: &[u8],
    aad: &[u8],
    in_out: &mut bytes::BytesMut,
) -> (ok: bool)
    requires
        key@.len() == aead.spec_key_len(),
        nonce@.len() == NONCE_LEN,
    ensures
        match aead_open(aead, key@, nonce@, aad@, bytes_mut_view(*old(in_out))) {
            Some(plain) => {
                &&& ok
                &&& plain.len() + TAG_LEN == bytes_mut_view(*old(in_out)).len()
                &&& bytes_mut_view(*final(in_out)) == plain + bytes_mut_view(*old(in_out)).subrange(
                    plain.len() as int,
                    bytes_mut_view(*old(in_out)).len() as int,
                )
            },
            None => !ok && bytes_mut_view(*final(in_out)).len() == bytes_mut_view(*old(in_out)).len(),
        },
{
    let algorithm = match aead {
        AeadAlgorithm::Aes128Gcm => &ring::aead::AES_128_GCM,
        AeadAlgorithm::Aes256Gcm => &ring::aead::AES_256_GCM,
        AeadAlgorithm::ChaCha20Poly1305 => &ring::aead::CHACHA20_POLY1305,
    };
    let key = ring::aead::LessSafeKey::new(ring::aead::UnboundKey::new(algorithm, key).unwrap());
    let nonce = ring::aead::Nonce::try_assume_unique_for_key(nonce).unwrap();
    key.open_in_place(nonce, ring::aead::Aad::from(aad), in_out.as_mut()).is_ok()
}

/// `ring::aead::quic::HeaderProtectionKey::new_mask`, with a key made of
/// `key`: the five bytes of mask for `sample`.
#[verifier::external_body]
pub(crate) fn new_mask(aead: AeadAlgorithm, key: &[u8], sample: &[u8]) -> (mask: Vec<u8>)
    requires
        key@.len() == aead.spec_key_len(),
        sample@.len() == SAMPLE_LEN,
    ensures
        mask@ == header_protection_mask(aead, key@, sample@),
        mask@.len() == MASK_LEN,
{
    let algorithm = match aead {
        AeadAlgorithm::Aes128Gcm => &ring::aead::quic::AES_128,
        AeadAlgorithm::Aes256Gcm => &ring::aead::quic::AES_256,
        AeadAlgorithm::ChaCha20Poly1305 => &ring::aead::quic::CHACHA20,
    };
    let key = ring::aead::quic::HeaderProtectionKey::new(algorithm, key).unwrap();
    key.new_mask(sample).unwrap().to_vec()
}

/// `ring::hmac::sign`, with a SHA-256 key made of `key`: the tag of `data`.
#[verifier::external_body]
pub(crate) fn hmac_sign(key: &[u8], data: &[u8]) -> (tag: Vec<u8>)
    ensures
        tag@ == hmac_sha256(key@, data@),
{
    ring::hmac::sign(&ring::hmac::Key::new(ring::hmac::HMAC_SHA256, key), data).as_ref().to_vec()
}

/// `ring::hmac::verify`, with a SHA-256 key made of `key`: it computes the
/// tag of `data` and accepts `tag` where the two are equal.
#[verifier::external_body]
pub(crate) fn hmac_verify(key: &[u8], data: &[u8], tag: &[u8]) -> (ok: bool)
    ensures
        ok == (tag@ == hmac_sha256(key@, data@)),
{
    ring::hmac::verify(&ring::hmac::Key::new(ring::hmac::HMAC_SHA256, key), data, tag).is_ok()
}

/// The labels under which keys are derived.
#[derive(Clone, Copy, Debug, PartialEq, Eq, Structural)]
pub enum Label {
    /// "client in": the client's initial secret.
    ClientIn,
    /// "server in": the server's initial secret.
    ServerIn,
    /// "quic key": the packet protection key.
    QuicKey,
    /// "quic iv": the packet protection IV.
    QuicIv,
    /// "quic hp": the header protection key.
    QuicHp,
    /// "quic ku": the next traffic secret.
    QuicKu,
}

impl Label {
    /// The label in ASCII.
    pub open spec fn bytes(self) -> Seq<u8> {
        match self {
            Label::ClientIn => seq![0x63u8, 0x6c, 0x69, 0x65, 0x6e, 0x74, 0x20, 0x69, 0x6e],
            Label::ServerIn => seq![0x73u8, 0x65, 0x72, 0x76, 0x65, 0x72, 0x20, 0x69, 0x6e],
            Label::QuicKey => seq![0x71u8, 0x75, 0x69, 0x63, 0x20, 0x6b, 0x65, 0x79],
            Label::QuicIv => seq![0x71u8, 0x75, 0x69, 0x63, 0x20, 0x69, 0x76],
            Label::QuicHp => seq![0x71u8, 0x75, 0x69, 0x63, 0x20, 0x68, 0x70],
            Label::QuicKu => seq![0x71u8, 0x75, 0x69, 0x63, 0x20, 0x6b, 0x75],
        }
    }

    /// The label in ASCII.
    pub fn to_vec(self) -> (v: Vec<u8>)
        ensures
            v@ == self.bytes(),
    {
        let v = match self {
            Label::ClientIn => vec![0x63u8, 0x6c, 0x69, 0x65, 0x6e, 0x74, 0x20, 0x69, 0x6e],
            Label::ServerIn => vec![0x73u8, 0x65, 0x72, 0x76, 0x65, 0x72, 0x20, 0x69, 0x6e],
            Label::QuicKey => vec![0x71u8, 0x75, 0x69, 0x63, 0x20, 0x6b, 0x65, 0x79],
            Label::QuicIv => vec![0x71u8, 0x75, 0x69, 0x63, 0x20, 0x69, 0x76],
            Label::QuicHp => vec![0x71u8, 0x75, 0x69, 0x63, 0x20, 0x68, 0x70],
            Label::QuicKu => vec![0x71u8, 0x75, 0x69, 0x63, 0x20, 0x6b, 0x75],
        };
        assert(v@ =~= self.bytes());
        v
    }
}

/// "tls13 ", which TLS 1.3 puts before every label.
pub open spec fn label_prefix() -> Seq<u8> {
    seq![0x74u8, 0x6c, 0x73, 0x31, 0x33, 0x20]
}

/// The `info` of HKDF-Expand-Label for `label`, an empty context and `len`
/// bytes of output: the length in two bytes, the prefixed label behind its
/// length, and the length of the context, zero.
pub open spec fn hkdf_label_spec(label: Seq<u8>, len: nat) -> Seq<u8> {
    seq![(len / 256) as u8, (len % 256) as u8, (6 + label.len()) as u8] + label_prefix() + label
        + seq![0u8]
}

/// Builds the `info` of HKDF-Expand-Label for `label` and `len` bytes of output.
pub fn hkdf_label(label: Label, len: usize) -> (info: Vec<u8>)
    requires
        len <= 0xffff,
    ensures
        info@ == hkdf_label_spec(label.bytes(), len as nat),
{
    let mut name = label.to_vec();
    let mut prefix: Vec<u8> = vec![0x74u8, 0x6c, 0x73, 0x31, 0x33, 0x20];
    let mut info: Vec<u8> = Vec::new();
    info.push((len / 256) as u8);
    info.push((len % 256) as u8);
    info.push((6 + name.len()) as u8);
    info.append(&mut prefix);
    info.append(&mut name);
    info.push(0);
    assert(info@ =~= hkdf_label_spec(label.bytes(), len as nat));
    info
}

/// HKDF-Expand-Label on `secret`: `len` bytes under `label`.
pub open spec fn expand_label(secret: ring::hkdf::Prk, label: Label, len: nat) -> Seq<u8> {
    hkdf_expand(prk_hash(secret), prk_secret(secret), hkdf_label_spec(label.bytes(), len), len)
}

/// Derives `len` bytes from `secret` under `label`, by HKDF-Expand-Label.
pub fn hkdf_expand_label(secret: &ring::hkdf::Prk, label: Label, len: usize) -> (out: Vec<u8>)
    requires
        len <= MAX_EXPAND_LEN,
    ensures
        out@ == expand_label(*secret, label, len as nat),
        out@.len() == len,
{
    let info = hkdf_label(label, len);
    prk_expand(secret, info.as_slice(), len)
}

/// The packet protection key that goes with a traffic secret.
pub open spec fn packet_key(aead: AeadAlgorithm, secret: ring::hkdf::Prk) -> Seq<u8> {
    expand_label(secret, Label::QuicKey, aead.spec_key_len() as nat)
}

/// The packet protection IV that goes with a traffic secret.
pub open spec fn packet_iv(secret: ring::hkdf::Prk) -> Seq<u8> {
    expand_label(secret, Label::QuicIv, NONCE_LEN as nat)
}

/// The header protection key that goes with a traffic secret.
pub open spec fn header_key(aead: AeadAlgorithm, secret: ring::hkdf::Prk) -> Seq<u8> {
    expand_label(secret, Label::QuicHp, aead.spec_key_len() as nat)
}

/// Byte `i` of the packet number, written in twelve bytes, big end first.
pub open spec fn packet_number_byte(packet: u64, i: int) -> u8 {
    if 4 <= i < 12 {
        ((packet >> ((8 * (11 - i)) as u64)) & 0xff) as u8
    } else {
        0u8
    }
}

/// The nonce of packet number `packet`: the IV, with the packet number
/// xored into its last bytes.
pub open spec fn nonce_spec(iv: Seq<u8>, packet: u64) -> Seq<u8> {
    Seq::new(NONCE_LEN as nat, |i: int| iv[i] ^ packet_number_byte(packet, i))
}

/// Makes the nonce of packet number `packet` from the IV.
pub fn nonce(iv: &[u8], packet: u64) -> (n: Vec<u8>)
    requires
        iv@.len() == NONCE_LEN,
    ensures
        n@ == nonce_spec(iv@, packet),
        n@.len() == NONCE_LEN,
{
    let mut n: Vec<u8> = Vec::new();
    let mut i: usize = 0;
    while i < NONCE_LEN
        invariant
            i <= NONCE_LEN,
            iv@.len() == NONCE_LEN,
            n@.len() == i,
            forall|j: int| 0 <= j < i ==> n@[j] == iv@[j] ^ packet_number_byte(packet, j),
        decreases NONCE_LEN - i,
    {
        let b: u8 = if i >= 4 {
            let shift: u64 = (8 * (11 - i)) as u64;
            ((packet >> shift) & 0xff) as u8
        } else {
            0u8
        };
        n.push(iv[i] ^ b);
        i += 1;
    }
    assert(n@ =~= nonce_spec(iv@, packet));
    n
}

/// Overwrites `dst` with `src`.
fn copy_into(dst: &mut [u8], src: &[u8])
    requires
        old(dst)@.len() == src@.len(),
    ensures
        final(dst)@ == src@,
{
    let mut i: usize = 0;
    while i < src.len()
        invariant
            i <= src@.len(),
            dst@.len() == src@.len(),
            forall|j: int| 0 <= j < i ==> dst@[j] == src@[j],
        decreases src@.len() - i,
    {
        dst[i] = src[i];
        i += 1;
    }
    assert(dst@ =~= src@);
}

/// What sealing with the keys of `secret` makes of `payload`.
pub open spec fn seal_with(
    aead: AeadAlgorithm,
    secret: ring::hkdf::Prk,
    packet: u64,
    header: Seq<u8>,
    payload: Seq<u8>,
) -> Seq<u8> {
    aead_seal(aead, packet_key(aead, secret), nonce_spec(packet_iv(secret), packet), header, payload)
}

/// What opening with the keys of `secret` finds in `sealed`.
pub open spec fn open_with(
    aead: AeadAlgorithm,
    secret: ring::hkdf::Prk,
    packet: u64,
    header: Seq<u8>,
    sealed: Seq<u8>,
) -> Option<Seq<u8>> {
    aead_open(aead, packet_key(aead, secret), nonce_spec(packet_iv(secret), packet), header, sealed)
}

/// The salt from which the initial secrets of QUIC version 1 are extracted.
pub open spec fn initial_salt() -> Seq<u8> {
    seq![
        0x38u8, 0x76, 0x2c, 0xf7, 0xf5, 0x59, 0x34, 0xb3, 0x4d, 0x17, 0x9a, 0xe6, 0xa4, 0xc8, 0x0c,
        0xad, 0xcc, 0xbb, 0x7f, 0x0a,
    ]
}

/// The label of the initial secret under which `side` sends.
pub open spec fn initial_label(side: Side) -> Label {
    match side {
        Side::Client => Label::ClientIn,
        Side::Server => Label::ServerIn,
    }
}

/// The initial secret under which `side` sends on the connection that the
/// client opened towards the connection ID `id`.
pub open spec fn initial_secret(id: Seq<u8>, side: Side) -> Seq<u8> {
    hkdf_expand(
        HashAlgorithm::Sha256,
        hkdf_extract(HashAlgorithm::Sha256, initial_salt(), id),
        hkdf_label_spec(initial_label(side).bytes(), 32),
        32,
    )
}

/// Packet protection keys for both directions of one encryption level.
pub struct Crypto {
    aead: AeadAlgorithm,
    hash: Option<HashAlgorithm>,
    local_secret: ring::hkdf::Prk,
    local_key: Vec<u8>,
    local_iv: Vec<u8>,
    remote_secret: ring::hkdf::Prk,
    remote_key: Vec<u8>,
    remote_iv: Vec<u8>,
}

impl Crypto {
    #[verifier::type_invariant]
    spec fn well_formed(self) -> bool {
        &&& self.local_key@ == packet_key(self.aead, self.local_secret)
        &&& self.local_key@.len() == self.aead.spec_key_len()
        &&& self.local_iv@ == packet_iv(self.local_secret)
        &&& self.local_iv@.len() == NONCE_LEN
        &&& self.remote_key@ == packet_key(self.aead, self.remote_secret)
        &&& self.remote_key@.len() == self.aead.spec_key_len()
        &&& self.remote_iv@ == packet_iv(self.remote_secret)
        &&& self.remote_iv@.len() == NONCE_LEN
    }

    /// The AEAD that these keys are for.
    pub closed spec fn aead(&self) -> AeadAlgorithm {
        self.aead
    }

    /// The hash with which the next secrets are derived, where the suite
    /// of the keys has one that HKDF runs with.
    pub closed spec fn hash(&self) -> Option<HashAlgorithm> {
        self.hash
    }

    /// The traffic secret of the packets that this end sends.
    pub closed spec fn local_secret(&self) -> ring::hkdf::Prk {
        self.local_secret
    }

    /// The traffic secret of the packets that this end receives.
    pub closed spec fn remote_secret(&self) -> ring::hkdf::Prk {
        self.remote_secret
    }

    /// These are the initial keys of `side` for the connection ID `id`.
    pub open spec fn is_initial(&self, id: Seq<u8>, side: Side) -> bool {
        &&& self.aead() == AeadAlgorithm::Aes128Gcm
        &&& self.hash() == Some(HashAlgorithm::Sha256)
        &&& prk_hash(self.local_secret()) == HashAlgorithm::Sha256
        &&& prk_hash(self.remote_secret()) == HashAlgorithm::Sha256
        &&& prk_secret(self.local_secret()) == initial_secret(id, side)
        &&& prk_secret(self.remote_secret()) == initial_secret(id, side.spec_peer())
    }

    /// This end receives under the secret under which `sender` sends, with
    /// the same AEAD.
    pub open spec fn receives_from(&self, sender: &Crypto) -> bool {
        &&& self.aead() == sender.aead()
        &&& prk_hash(self.remote_secret()) == prk_hash(sender.local_secret())
        &&& prk_secret(self.remote_secret()) == prk_secret(sender.local_secret())
    }

    /// `sealed` is what `encrypt` leaves behind the header `header` of packet
    /// number `packet`, where it found `payload`.
    pub open spec fn sealed(&self, packet: u64, header: Seq<u8>, payload: Seq<u8>, sealed: Seq<u8>) -> bool {
        &&& sealed == seal_with(self.aead(), self.local_secret(), packet, header, payload)
        &&& open_with(self.aead(), self.local_secret(), packet, header, sealed) == Some(payload)
    }

    /// The keys of `side` for the traffic secrets of one encryption level:
    /// each end sends under its own secret and receives under the other's.
    pub fn new(
        side: Side,
        aead: AeadAlgorithm,
        hash: Option<HashAlgorithm>,
        client_secret: ring::hkdf::Prk,
        server_secret: ring::hkdf::Prk,
    ) -> (k: Crypto)
        ensures
            k.aead() == aead,
            k.hash() == hash,
            k.local_secret() == (if side is Client {
                client_secret
            } else {
                server_secret
            }),
            k.remote_secret() == (if side is Client {
                server_secret
            } else {
                client_secret
            }),
    {
        let (local_secret, remote_secret) = match side {
            Side::Client => (client_secret, server_secret),
            Side::Server => (server_secret, client_secret),
        };
        let local_key = hkdf_expand_label(&local_secret, Label::QuicKey, aead.key_len());
        let local_iv = hkdf_expand_label(&local_secret, Label::QuicIv, NONCE_LEN);
        let remote_key = hkdf_expand_label(&remote_secret, Label::QuicKey, aead.key_len());
        let remote_iv = hkdf_expand_label(&remote_secret, Label::QuicIv, NONCE_LEN);
        Crypto {
            aead,
            hash,
            local_secret,
            local_key,
            local_iv,
            remote_secret,
            remote_key,
            remote_iv,
        }
    }

    /// The AEAD that these keys are for.
    pub fn aead_algorithm(&self) -> (a: AeadAlgorithm)
        ensures
            a == self.aead(),
    {
        self.aead
    }

    /// The hash with which the next secrets are derived, where there is one.
    pub fn hash_algorithm(&self) -> (h: Option<HashAlgorithm>)
        ensures
            h == self.hash(),
    {
        self.hash
    }

    /// The traffic secret of the packets that this end sends.
    pub(crate) fn local(&self) -> (secret: &ring::hkdf::Prk)
        ensures
            *secret == self.local_secret(),
    {
        &self.local_secret
    }

    /// The traffic secret of the packets that this end receives.
    pub(crate) fn remote(&self) -> (secret: &ring::hkdf::Prk)
        ensures
            *secret == self.remote_secret(),
    {
        &self.remote_secret
    }

    /// What one end has sealed, the end that receives from it opens: the
    /// payload comes back as it was.
    pub proof fn lemma_receiver_opens(
        sender: Crypto,
        receiver: Crypto,
        packet: u64,
        header: Seq<u8>,
        payload: Seq<u8>,
        sealed: Seq<u8>,
    )
        requires
            receiver.receives_from(&sender),
            sender.sealed(packet, header, payload, sealed),
        ensures
            receiver.open(packet, header, sealed) == Some(payload),
    {
    }

    /// Keys whose two directions run under one secret, as the 0-RTT keys
    /// do, open what they have sealed themselves.
    pub proof fn lemma_one_secret_opens_its_own(
        keys: Crypto,
        packet: u64,
        header: Seq<u8>,
        payload: Seq<u8>,
        sealed: Seq<u8>,
    )
        requires
            keys.local_secret() == keys.remote_secret(),
            keys.sealed(packet, header, payload, sealed),
        ensures
            keys.open(packet, header, sealed) == Some(payload),
    {
    }

    /// The initial keys of the two ends of a connection fit: what the client
    /// seals the server opens, and what the server seals the client opens.
    pub proof fn lemma_initial_keys_fit(
        client: Crypto,
        server: Crypto,
        id: Seq<u8>,
        packet: u64,
        header: Seq<u8>,
        payload: Seq<u8>,
        sealed: Seq<u8>,
    )
        requires
            client.is_initial(id, Side::Client),
            server.is_initial(id, Side::Server),
        ensures
            server.receives_from(&client),
            client.receives_from(&server),
            client.sealed(packet, header, payload, sealed) ==> server.open(packet, header, sealed)
                == Some(payload),
            server.sealed(packet, header, payload, sealed) ==> client.open(packet, header, sealed)
                == Some(payload),
    {
    }

    /// Two ends whose keys fit stay fitted through a key update: after each
    /// has moved to its next keys, the one still receives from the other.
    pub proof fn lemma_update_keeps_fit(sender: Crypto, receiver: Crypto, next_sender: Crypto, next_receiver: Crypto)
        requires
            receiver.receives_from(&sender),
            sender.hash() == receiver.hash(),
            next_sender.follows(&sender),
            next_receiver.follows(&receiver),
        ensures
            next_receiver.receives_from(&next_sender),
    {
    }

    /// These are the keys that a key update makes of `before`: each
    /// direction's secret is derived from the one before under "quic ku",
    /// with the hash of the keys, and the AEAD stays.
    pub open spec fn follows(&self, before: &Crypto) -> bool {
        &&& self.aead() == before.aead()
        &&& before.hash() is Some
        &&& self.hash() == before.hash()
        &&& prk_hash(self.local_secret()) == before.hash()->0
        &&& prk_hash(self.remote_secret()) == before.hash()->0
        &&& prk_secret(self.local_secret()) == expand_label(
            before.local_secret(),
            Label::QuicKu,
            before.hash()->0.spec_output_len() as nat,
        )
        &&& prk_secret(self.remote_secret()) == expand_label(
            before.remote_secret(),
            Label::QuicKu,
            before.hash()->0.spec_output_len() as nat,
        )
    }
}

impl Keys for Crypto {
    type HeaderKeys = RingHeaderCrypto;

    open spec fn spec_tag_len(&self) -> nat {
        TAG_LEN as nat
    }

    open spec fn seal(&self, packet: u64, header: Seq<u8>, payload: Seq<u8>) -> Seq<u8> {
        seal_with(self.aead(), self.local_secret(), packet, header, payload)
    }

    open spec fn open(&self, packet: u64, header: Seq<u8>, sealed: Seq<u8>) -> Option<Seq<u8>> {
        open_with(self.aead(), self.remote_secret(), packet, header, sealed)
    }

    /// The initial keys of QUIC version 1: AES-128-GCM, under secrets that
    /// are derived with SHA-256 from the connection ID and a fixed salt.
    fn new_initial(id: &ConnectionId, side: Side) -> (k: Crypto)
        ensures
            k.is_initial(id@, side),
    {
        let salt: Vec<u8> = vec![
            0x38u8, 0x76, 0x2c, 0xf7, 0xf5, 0x59, 0x34, 0xb3, 0x4d, 0x17, 0x9a, 0xe6, 0xa4, 0xc8, 0x0c,
            0xad, 0xcc, 0xbb, 0x7f, 0x0a,
        ];
        assert(salt@ =~= initial_salt());
        let initial = prk_extract(HashAlgorithm::Sha256, salt.as_slice(), id.as_slice());
        let client = hkdf_expand_label(&initial, Label::ClientIn, 32);
        let server = hkdf_expand_label(&initial, Label::ServerIn, 32);
        Crypto::new(
            side,
            AeadAlgorithm::Aes128Gcm,
            Some(HashAlgorithm::Sha256),
            prk_new(HashAlgorithm::Sha256, client.as_slice()),
            prk_new(HashAlgorithm::Sha256, server.as_slice()),
        )
    }

    fn encrypt(&self, packet: u64, buf: &mut [u8], header_len: usize)
        ensures
            self.sealed(
                packet,
                old(buf)@.subrange(0, header_len as int),
                old(buf)@.subrange(header_len as int, old(buf)@.len() - TAG_LEN),
                final(buf)@.subrange(header_len as int, old(buf)@.len() as int),
            ),
    {
        proof {
            use_type_invariant(self);
        }
        let nonce = nonce(self.local_iv.as_slice(), packet);
        let len = buf.len();
        let (header, rest) = buf.split_at_mut(header_len);
        let (payload, tag_storage) = rest.split_at_mut(len - header_len - TAG_LEN);
        assert(payload@ =~= old(buf)@.subrange(header_len as int, old(buf)@.len() - TAG_LEN));
        let ghost plain = payload@;
        let tag = seal_in_place_separate_tag(
            self.aead,
            self.local_key.as_slice(),
            nonce.as_slice(),
            header,
            payload,
        );
        copy_into(tag_storage, tag.as_slice());
        proof {
            let sealed = seal_with(self.aead(), self.local_secret(), packet, header@, plain);
            assert(final(buf)@.subrange(header_len as int, old(buf)@.len() as int) =~= sealed);
        }
    }

    fn decrypt(&self, packet: u64, header: &[u8], payload: &mut bytes::BytesMut) -> (r: Result<(), ()>) {
        proof {
            use_type_invariant(self);
        }
        let nonce = nonce(self.remote_iv.as_slice(), packet);
        let len = bytes_mut_len(payload);
        if open_in_place(self.aead, self.remote_key.as_slice(), nonce.as_slice(), header, payload) {
            bytes_mut_split_off(payload, len - TAG_LEN);
            proof {
                let plain = self.open(packet, header@, bytes_mut_view(*old(payload)))->0;
                assert(bytes_mut_view(*payload) =~= plain);
            }
            Ok(())
        } else {
            Err(())
        }
    }

    /// The header protection keys of both directions, each derived from its
    /// direction's traffic secret under "quic hp".
    fn header_keys(&self) -> (h: RingHeaderCrypto)
        ensures
            h.aead() == self.aead(),
            h.local_key() == header_key(self.aead(), self.local_secret()),
            h.remote_key() == header_key(self.aead(), self.remote_secret()),
    {
        let local = hkdf_expand_label(&self.local_secret, Label::QuicHp, self.aead.key_len());
        let remote = hkdf_expand_label(&self.remote_secret, Label::QuicHp, self.aead.key_len());
        RingHeaderCrypto { aead: self.aead, local, remote }
    }

    fn tag_len(&self) -> (n: usize) {
        TAG_LEN
    }
}

/// The part of the mask's first byte that goes onto a header's first byte:
/// four bits of a long header, five of a short one.
pub open spec fn first_byte_mask(first: u8, mask: u8) -> u8 {
    if first & 0x80 == 0x80 {
        mask & 0x0f
    } else {
        mask & 0x1f
    }
}

/// The length of the packet number, which the two lowest bits of the
/// unprotected first byte give.
pub open spec fn packet_number_len(first: u8) -> int {
    (first & 0x03) as int + 1
}

/// The sample of a packet whose packet number starts at `pn_offset`.
pub open spec fn sample_of(packet: Seq<u8>, pn_offset: int) -> Seq<u8> {
    packet.subrange(pn_offset + 4, pn_offset + 4 + SAMPLE_LEN)
}

/// The packet with the first `n` bytes of the packet number xored with the
/// mask's bytes from the second on.
pub open spec fn xor_packet_number(packet: Seq<u8>, pn_offset: int, mask: Seq<u8>, n: int) -> Seq<u8>
    decreases n,
{
    if n <= 0 {
        packet
    } else {
        let before = xor_packet_number(packet, pn_offset, mask, n - 1);
        before.update(pn_offset + n - 1, before[pn_offset + n - 1] ^ mask[n])
    }
}

/// The packet with its header protected under `key`.
pub open spec fn protect(aead: AeadAlgorithm, key: Seq<u8>, pn_offset: int, packet: Seq<u8>) -> Seq<u8> {
    let mask = header_protection_mask(aead, key, sample_of(packet, pn_offset));
    let first = packet[0];
    xor_packet_number(
        packet.update(0, first ^ first_byte_mask(first, mask[0])),
        pn_offset,
        mask,
        packet_number_len(first),
    )
}

/// The packet with the protection under `key` taken off its header.
pub open spec fn unprotect(aead: AeadAlgorithm, key: Seq<u8>, pn_offset: int, packet: Seq<u8>) -> Seq<u8> {
    let mask = header_protection_mask(aead, key, sample_of(packet, pn_offset));
    let first = packet[0] ^ first_byte_mask(packet[0], mask[0]);
    xor_packet_number(packet.update(0, first), pn_offset, mask, packet_number_len(first))
}

/// Xors the first `n` bytes of the packet number with the mask.
fn xor_packet_number_in_place(packet: &mut [u8], pn_offset: usize, mask: &[u8], n: usize)
    requires
        pn_offset + n <= old(packet)@.len(),
        n < mask@.len(),
    ensures
        final(packet)@.len() == old(packet)@.len(),
        final(packet)@ == xor_packet_number(old(packet)@, pn_offset as int, mask@, n as int),
{
    let ghost before = packet@;
    let len = packet.len();
    let mut i: usize = 0;
    while i < n
        invariant
            i <= n,
            packet@.len() == len,
            pn_offset + n <= packet@.len(),
            n < mask@.len(),
            packet@ == xor_packet_number(before, pn_offset as int, mask@, i as int),
        decreases n - i,
    {
        let b: u8 = packet[pn_offset + i];
        packet[pn_offset + i] = b ^ mask[i + 1];
        i += 1;
    }
}

proof fn lemma_first_byte(b: u8, m: u8)
    by (bit_vector)
    ensures
        (b ^ (m & 0x0f)) & 0x80 == b & 0x80,
        (b ^ (m & 0x1f)) & 0x80 == b & 0x80,
        (b ^ (m & 0x0f)) ^ (m & 0x0f) == b,
        (b ^ (m & 0x1f)) ^ (m & 0x1f) == b,
        b & 0x03 <= 3,
{
}

proof fn lemma_xor_twice(b: u8, m: u8)
    by (bit_vector)
    ensures
        (b ^ m) ^ m == b,
{
}

/// Byte `j` of a packet whose packet number was xored with the mask.
proof fn lemma_xor_packet_number(packet: Seq<u8>, pn_offset: int, mask: Seq<u8>, n: int, j: int)
    requires
        0 <= pn_offset,
        0 <= n,
        pn_offset + n <= packet.len(),
        0 <= j < packet.len(),
    ensures
        xor_packet_number(packet, pn_offset, mask, n).len() == packet.len(),
        xor_packet_number(packet, pn_offset, mask, n)[j] == (if pn_offset <= j < pn_offset + n {
            packet[j] ^ mask[j - pn_offset + 1]
        } else {
            packet[j]
        }),
    decreases n,
{
    if n > 0 {
        lemma_xor_packet_number(packet, pn_offset, mask, n - 1, j);
        lemma_xor_packet_number(packet, pn_offset, mask, n - 1, pn_offset + n - 1);
    }
}

/// Taking the protection off a header that was protected under the same key
/// gives the packet back as it was, wherever the packet number does not
/// start on the first byte and the sample lies within the packet.
pub proof fn lemma_unprotect_protect(aead: AeadAlgorithm, key: Seq<u8>, pn_offset: int, packet: Seq<u8>)
    requires
        1 <= pn_offset,
        pn_offset + 4 + SAMPLE_LEN <= packet.len(),
    ensures
        unprotect(aead, key, pn_offset, protect(aead, key, pn_offset, packet)) == packet,
{
    let mask = header_protection_mask(aead, key, sample_of(packet, pn_offset));
    let first = packet[0];
    let n = packet_number_len(first);
    let masked_first = first ^ first_byte_mask(first, mask[0]);
    let p0 = packet.update(0, masked_first);
    let p1 = xor_packet_number(p0, pn_offset, mask, n);
    lemma_first_byte(first, mask[0]);
    assert(p1 == protect(aead, key, pn_offset, packet));
    assert forall|j: int| 0 <= j < packet.len() implies #[trigger] p1[j] == (if j == 0 {
        masked_first
    } else if pn_offset <= j < pn_offset + n {
        packet[j] ^ mask[j - pn_offset + 1]
    } else {
        packet[j]
    }) && p1.len() == packet.len() by {
        lemma_xor_packet_number(p0, pn_offset, mask, n, j);
    }
    lemma_xor_packet_number(p0, pn_offset, mask, n, 0);
    assert(sample_of(p1, pn_offset) =~= sample_of(packet, pn_offset));
    assert(first_byte_mask(masked_first, mask[0]) == first_byte_mask(first, mask[0]));
    assert(p1[0] ^ first_byte_mask(p1[0], mask[0]) == first);
    let q0 = p1.update(0, first);
    let q1 = xor_packet_number(q0, pn_offset, mask, n);
    assert(q1 == unprotect(aead, key, pn_offset, p1));
    assert forall|j: int| 0 <= j < packet.len() implies #[trigger] q1[j] == packet[j] by {
        lemma_xor_packet_number(q0, pn_offset, mask, n, j);
        if pn_offset <= j < pn_offset + n {
            lemma_xor_twice(packet[j], mask[j - pn_offset + 1]);
        }
    }
    lemma_xor_packet_number(q0, pn_offset, mask, n, 0);
    assert(q1 =~= packet);
}

/// Header protection keys for both directions of one encryption level.
pub struct RingHeaderCrypto {
    aead: AeadAlgorithm,
    local: Vec<u8>,
    remote: Vec<u8>,
}

impl RingHeaderCrypto {
    #[verifier::type_invariant]
    spec fn well_formed(self) -> bool {
        &&& self.local@.len() == self.aead.spec_key_len()
        &&& self.remote@.len() == self.aead.spec_key_len()
    }

    /// The AEAD whose cipher makes the masks.
    pub closed spec fn aead(&self) -> AeadAlgorithm {
        self.aead
    }

    /// The key under which the headers to send are protected.
    pub closed spec fn local_key(&self) -> Seq<u8> {
        self.local@
    }

    /// The key under which the headers received were protected.
    pub closed spec fn remote_key(&self) -> Seq<u8> {
        self.remote@
    }

    /// What one end has protected, the end that holds its key as the remote
    /// one restores.
    pub proof fn lemma_receiver_restores(sender: RingHeaderCrypto, receiver: RingHeaderCrypto, pn_offset: int, packet: Seq<u8>)
        requires
            receiver.aead() == sender.aead(),
            receiver.remote_key() == sender.local_key(),
            1 <= pn_offset,
            pn_offset + 4 + SAMPLE_LEN <= packet.len(),
        ensures
            receiver.unprotected(pn_offset, sender.protected(pn_offset, packet)) == packet,
    {
        lemma_unprotect_protect(sender.aead(), sender.local_key(), pn_offset, packet);
    }
}

impl HeaderKeys for RingHeaderCrypto {
    open spec fn spec_sample_size(&self) -> nat {
        SAMPLE_LEN as nat
    }

    open spec fn protected(&self, pn_offset: int, packet: Seq<u8>) -> Seq<u8> {
        protect(self.aead(), self.local_key(), pn_offset, packet)
    }

    open spec fn unprotected(&self, pn_offset: int, packet: Seq<u8>) -> Seq<u8> {
        unprotect(self.aead(), self.remote_key(), pn_offset, packet)
    }

    fn decrypt(&self, pn_offset: usize, packet: &mut [u8]) {
        proof {
            use_type_invariant(self);
        }
        let len = packet.len();
        assert(pn_offset + 4 + SAMPLE_LEN <= len);
        let mask = new_mask(
            self.aead,
            self.remote.as_slice(),
            vstd::slice::slice_subrange(packet, pn_offset + 4, pn_offset + 4 + SAMPLE_LEN),
        );
        let protected: u8 = packet[0];
        let m: u8 = if protected & 0x80 == 0x80 {
            mask[0] & 0x0f
        } else {
            mask[0] & 0x1f
        };
        let first: u8 = protected ^ m;
        proof {
            lemma_first_byte(first, m);
        }
        let n: usize = (first & 0x03) as usize + 1;
        packet[0] = first;
        xor_packet_number_in_place(packet, pn_offset, mask.as_slice(), n);
    }

    fn encrypt(&self, pn_offset: usize, packet: &mut [u8]) {
        proof {
            use_type_invariant(self);
        }
        let len = packet.len();
        assert(pn_offset + 4 + SAMPLE_LEN <= len);
        let mask = new_mask(
            self.aead,
            self.local.as_slice(),
            vstd::slice::slice_subrange(packet, pn_offset + 4, pn_offset + 4 + SAMPLE_LEN),
        );
        let first: u8 = packet[0];
        proof {
            lemma_first_byte(first, mask@[0]);
        }
        let n: usize = (first & 0x03) as usize + 1;
        let m: u8 = if first & 0x80 == 0x80 {
            mask[0] & 0x0f
        } else {
            mask[0] & 0x1f
        };
        packet[0] = first ^ m;
        xor_packet_number_in_place(packet, pn_offset, mask.as_slice(), n);
    }

    fn sample_size(&self) -> (n: usize) {
        SAMPLE_LEN
    }
}

/// A key that signs with HMAC-SHA-256.
pub struct HmacSha256Key {
    key: Vec<u8>,
}

impl HmacSha256Key {
    /// The bytes of the key.
    pub closed spec fn key(&self) -> Seq<u8> {
        self.key@
    }
}

impl HmacKey for HmacSha256Key {
    const KEY_LEN: usize = 64;

    open spec fn signature(&self, data: Seq<u8>) -> Seq<u8> {
        hmac_sha256(self.key(), data)
    }

    fn new(key: &[u8]) -> (r: Result<HmacSha256Key, ConfigError>)
        ensures
            r is Ok <==> key@.len() == 64,
            r matches Ok(k) ==> k.key() == key@,
            r matches Err(e) ==> e == ConfigError::IllegalValue("key length must be 64 bytes"),
    {
        if key.len() == 64 {
            Ok(HmacSha256Key { key: vstd::slice::slice_to_vec(key) })
        } else {
            Err(ConfigError::IllegalValue("key length must be 64 bytes"))
        }
    }

    fn sign(&self, data: &[u8]) -> (s: Vec<u8>) {
        hmac_sign(self.key.as_slice(), data)
    }

    fn verify(&self, data: &[u8], signature: &[u8]) -> (r: Result<(), ()>) {
        if hmac_verify(self.key.as_slice(), data, signature) {
            Ok(())
        } else {
            Err(())
        }
    }
}

} // verus!
