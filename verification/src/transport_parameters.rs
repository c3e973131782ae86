//! The transport parameters that the two ends of a connection declare to
//! each other inside the handshake, and their encoding.
//!
//! A set of parameters goes over the wire as a sequence of entries, each an
//! identifier, a length and that many bytes of value; identifier and length
//! are variable-length integers.

use vstd::prelude::*;
use crate::shared::Side;

verus! {

/// The largest number that a variable-length integer can hold.
pub const VARINT_MAX: u64 = 0x3fff_ffff_ffff_ffff;

/// Why a sequence of bytes is not a set of transport parameters.
#[derive(Clone, Copy, Debug, PartialEq, Eq, Structural)]
pub enum Error {
    /// A parameter is there twice, or one that only a server may send came
    /// from a client.
    IllegalValue,
    /// The bytes are not a sequence of entries.
    Malformed,
}

/// One parameter: its identifier and its value as it goes over the wire.
#[derive(Debug, PartialEq, Eq)]
pub struct TransportParameter {
    pub id: u64,
    pub value: Vec<u8>,
}

impl View for TransportParameter {
    type V = (u64, Seq<u8>);

    open spec fn view(&self) -> (u64, Seq<u8>) {
        (self.id, self.value@)
    }
}

/// The parameters in `params`, each as identifier and value.
pub open spec fn views(params: Seq<TransportParameter>) -> Seq<(u64, Seq<u8>)> {
    Seq::new(params.len(), |i: int| params[i]@)
}

/// The number of bytes that `x` takes as a variable-length integer.
pub open spec fn varint_len(x: u64) -> nat {
    if x < 0x40 {
        1
    } else if x < 0x4000 {
        2
    } else if x < 0x4000_0000 {
        4
    } else {
        8
    }
}

/// `x` as a variable-length integer: the two highest bits of the first byte
/// say how many bytes there are, the rest is the number, big end first.
#[verifier::opaque]
pub open spec fn encode_varint(x: u64) -> Seq<u8> {
    if x < 0x40 {
        seq![x as u8]
    } else if x < 0x4000 {
        seq![(0x40 + x / 0x100) as u8, (x % 0x100) as u8]
    } else if x < 0x4000_0000 {
        seq![
            (0x80 + x / 0x100_0000) as u8,
            (x / 0x1_0000 % 0x100) as u8,
            (x / 0x100 % 0x100) as u8,
            (x % 0x100) as u8,
        ]
    } else {
        seq![
            (0xc0 + x / 0x100_0000_0000_0000) as u8,
            (x / 0x1_0000_0000_0000 % 0x100) as u8,
            (x / 0x100_0000_0000 % 0x100) as u8,
            (x / 0x1_0000_0000 % 0x100) as u8,
            (x / 0x100_0000 % 0x100) as u8,
            (x / 0x1_0000 % 0x100) as u8,
            (x / 0x100 % 0x100) as u8,
            (x % 0x100) as u8,
        ]
    }
}

/// The number of bytes of the variable-length integer that starts with `first`.
pub open spec fn varint_width(first: u8) -> nat {
    if first < 0x40 {
        1
    } else if first < 0x80 {
        2
    } else if first < 0xc0 {
        4
    } else {
        8
    }
}

/// The variable-length integer at the start of `b` and the number of bytes
/// that it takes, if `b` holds all of them.
#[verifier::opaque]
pub open spec fn decode_varint(b: Seq<u8>) -> Option<(u64, nat)> {
    if b.len() == 0 || b.len() < varint_width(b[0]) {
        None
    } else if b[0] < 0x40 {
        Some((b[0] as u64, 1))
    } else if b[0] < 0x80 {
        Some((((b[0] - 0x40) * 0x100 + b[1]) as u64, 2))
    } else if b[0] < 0xc0 {
        Some((((b[0] - 0x80) * 0x100_0000 + b[1] * 0x1_0000 + b[2] * 0x100 + b[3]) as u64, 4))
    } else {
        Some(
            (
                ((b[0] - 0xc0) * 0x100_0000_0000_0000 + b[1] * 0x1_0000_0000_0000 + b[2]
                    * 0x100_0000_0000 + b[3] * 0x1_0000_0000 + b[4] * 0x100_0000 + b[5] * 0x1_0000
                    + b[6] * 0x100 + b[7]) as u64,
                8,
            ),
        )
    }
}

proof fn lemma_split_2(x: u64)
    by (bit_vector)
    requires
        x < 0x4000,
    ensures
        x / 0x100 < 0x40,
        x % 0x100 < 0x100,
        (x / 0x100) * 0x100 + x % 0x100 == x,
{
}

proof fn lemma_split_4(x: u64)
    by (bit_vector)
    requires
        x < 0x4000_0000,
    ensures
        x / 0x100_0000 < 0x40,
        x / 0x1_0000 % 0x100 < 0x100,
        x / 0x100 % 0x100 < 0x100,
        x % 0x100 < 0x100,
        (x / 0x100_0000) * 0x100_0000 + (x / 0x1_0000 % 0x100) * 0x1_0000 + (x / 0x100 % 0x100)
            * 0x100 + x % 0x100 == x,
{
}

proof fn lemma_split_8(x: u64)
    by (bit_vector)
    requires
        x <= 0x3fff_ffff_ffff_ffff,
    ensures
        x / 0x100_0000_0000_0000 < 0x40,
        x / 0x1_0000_0000_0000 % 0x100 < 0x100,
        x / 0x100_0000_0000 % 0x100 < 0x100,
        x / 0x1_0000_0000 % 0x100 < 0x100,
        x / 0x100_0000 % 0x100 < 0x100,
        x / 0x1_0000 % 0x100 < 0x100,
        x / 0x100 % 0x100 < 0x100,
        x % 0x100 < 0x100,
        (x / 0x100_0000_0000_0000) * 0x100_0000_0000_0000 + (x / 0x1_0000_0000_0000 % 0x100)
            * 0x1_0000_0000_0000 + (x / 0x100_0000_0000 % 0x100) * 0x100_0000_0000 + (x
            / 0x1_0000_0000 % 0x100) * 0x1_0000_0000 + (x / 0x100_0000 % 0x100) * 0x100_0000 + (x
            / 0x1_0000 % 0x100) * 0x1_0000 + (x / 0x100 % 0x100) * 0x100 + x % 0x100 == x,
{
}

/// A variable-length integer that was written is read back, whatever follows it.
pub proof fn lemma_varint_round_trip(x: u64, rest: Seq<u8>)
    requires
        x <= VARINT_MAX,
    ensures
        encode_varint(x).len() == varint_len(x),
        decode_varint(encode_varint(x) + rest) == Some((x, varint_len(x))),
{
    reveal(encode_varint);
    reveal(decode_varint);
    let b = encode_varint(x) + rest;
    if x < 0x40 {
        assert(b[0] == x as u8);
    } else if x < 0x4000 {
        lemma_split_2(x);
        let (q1, q0) = (x / 0x100, x % 0x100);
        assert(b[0] == (0x40 + q1) as u8);
        assert(b[1] == q0 as u8);
    } else if x < 0x4000_0000 {
        lemma_split_4(x);
        let (q3, q2, q1, q0) = (x / 0x100_0000, x / 0x1_0000 % 0x100, x / 0x100 % 0x100, x % 0x100);
        assert(b[0] == (0x80 + q3) as u8);
        assert(b[1] == q2 as u8);
        assert(b[2] == q1 as u8);
        assert(b[3] == q0 as u8);
    } else {
        lemma_split_8(x);
        let (q7, q6, q5, q4) = (
            x / 0x100_0000_0000_0000,
            x / 0x1_0000_0000_0000 % 0x100,
            x / 0x100_0000_0000 % 0x100,
            x / 0x1_0000_0000 % 0x100,
        );
        let (q3, q2, q1, q0) = (x / 0x100_0000 % 0x100, x / 0x1_0000 % 0x100, x / 0x100 % 0x100, x % 0x100);
        assert(b[0] == (0xc0 + q7) as u8);
        assert(b[1] == q6 as u8);
        assert(b[2] == q5 as u8);
        assert(b[3] == q4 as u8);
        assert(b[4] == q3 as u8);
        assert(b[5] == q2 as u8);
        assert(b[6] == q1 as u8);
        assert(b[7] == q0 as u8);
        assert(b[0] - 0xc0 == q7);
    }
}

/// Appends `x` to `out` as a variable-length integer.
pub fn write_varint(x: u64, out: &mut Vec<u8>)
    requires
        x <= VARINT_MAX,
    ensures
        final(out)@ == old(out)@ + encode_varint(x),
{
    reveal(encode_varint);
    if x < 0x40 {
        out.push(x as u8);
    } else if x < 0x4000 {
        out.push((0x40 + x / 0x100) as u8);
        out.push((x % 0x100) as u8);
    } else if x < 0x4000_0000 {
        out.push((0x80 + x / 0x100_0000) as u8);
        out.push((x / 0x1_0000 % 0x100) as u8);
        out.push((x / 0x100 % 0x100) as u8);
        out.push((x % 0x100) as u8);
    } else {
        out.push((0xc0 + x / 0x100_0000_0000_0000) as u8);
        out.push((x / 0x1_0000_0000_0000 % 0x100) as u8);
        out.push((x / 0x100_0000_0000 % 0x100) as u8);
        out.push((x / 0x1_0000_0000 % 0x100) as u8);
        out.push((x / 0x100_0000 % 0x100) as u8);
        out.push((x / 0x1_0000 % 0x100) as u8);
        out.push((x / 0x100 % 0x100) as u8);
        out.push((x % 0x100) as u8);
    }
    assert(out@ =~= old(out)@ + encode_varint(x));
}

/// Reads the variable-length integer that starts at `pos` in `bytes`, and
/// says how many bytes it takes.
pub fn read_varint(bytes: &[u8], pos: usize) -> (r: Option<(u64, usize)>)
    requires
        pos <= bytes@.len(),
    ensures
        match decode_varint(bytes@.skip(pos as int)) {
            Some((x, n)) => r == Some((x, n as usize)) && pos + n <= bytes@.len() && x <= VARINT_MAX
                && 1 <= n <= 8,
            None => r is None,
        },
{
    reveal(decode_varint);
    let len = bytes.len();
    let ghost b = bytes@.skip(pos as int);
    if pos == len {
        return None;
    }
    let first: u8 = bytes[pos];
    assert(b[0] == first);
    let width: usize = if first < 0x40 {
        1
    } else if first < 0x80 {
        2
    } else if first < 0xc0 {
        4
    } else {
        8
    };
    if len - pos < width {
        return None;
    }
    assert(forall|k: int| 0 <= k < width ==> b[k] == bytes@[pos + k]);
    if first < 0x40 {
        Some((first as u64, 1))
    } else if first < 0x80 {
        Some(((first - 0x40) as u64 * 0x100 + bytes[pos + 1] as u64, 2))
    } else if first < 0xc0 {
        Some(
            (
                (first - 0x80) as u64 * 0x100_0000 + bytes[pos + 1] as u64 * 0x1_0000 + bytes[pos
                    + 2] as u64 * 0x100 + bytes[pos + 3] as u64,
                4,
            ),
        )
    } else {
        Some(
            (
                (first - 0xc0) as u64 * 0x100_0000_0000_0000 + bytes[pos + 1] as u64
                    * 0x1_0000_0000_0000 + bytes[pos + 2] as u64 * 0x100_0000_0000 + bytes[pos
                    + 3] as u64 * 0x1_0000_0000 + bytes[pos + 4] as u64 * 0x100_0000 + bytes[pos
                    + 5] as u64 * 0x1_0000 + bytes[pos + 6] as u64 * 0x100 + bytes[pos + 7] as u64,
                8,
            ),
        )
    }
}

/// One entry as it goes over the wire: identifier, length, value.
pub open spec fn encode_param(p: (u64, Seq<u8>)) -> Seq<u8> {
    encode_varint(p.0) + encode_varint(p.1.len() as u64) + p.1
}

/// The entries of `ps` as they go over the wire, one after the other.
pub open spec fn encode_params(ps: Seq<(u64, Seq<u8>)>) -> Seq<u8>
    decreases ps.len(),
{
    if ps.len() == 0 {
        Seq::empty()
    } else {
        encode_param(ps[0]) + encode_params(ps.skip(1))
    }
}

/// The entry at the start of `b` and the number of bytes that it takes, if
/// `b` holds all of it.
pub open spec fn decode_param(b: Seq<u8>) -> Option<((u64, Seq<u8>), nat)> {
    match decode_varint(b) {
        None => None,
        Some((id, n1)) => match decode_varint(b.skip(n1 as int)) {
            None => None,
            Some((len, n2)) => if n1 + n2 + len <= b.len() {
                Some(((id, b.subrange((n1 + n2) as int, n1 + n2 + len)), (n1 + n2 + len) as nat))
            } else {
                None
            },
        },
    }
}

/// The entries that `b` is made of, if it is made of entries from its first
/// byte to its last.
pub open spec fn decode_params(b: Seq<u8>) -> Option<Seq<(u64, Seq<u8>)>>
    decreases b.len(),
{
    if b.len() == 0 {
        Some(Seq::empty())
    } else {
        match decode_param(b) {
            None => None,
            Some((p, n)) => if 0 < n <= b.len() {
                match decode_params(b.skip(n as int)) {
                    None => None,
                    Some(rest) => Some(seq![p] + rest),
                }
            } else {
                None
            },
        }
    }
}

/// The parameters that only a server may send: the connection ID that the
/// client's first packet was sent to, the stateless reset token, the
/// preferred address and the connection ID that a retry came from.
pub open spec fn is_server_only(id: u64) -> bool {
    id == 0x00 || id == 0x02 || id == 0x0d || id == 0x10
}

/// Some identifier is there twice.
pub open spec fn has_duplicate(ps: Seq<(u64, Seq<u8>)>) -> bool {
    exists|i: int, j: int| 0 <= i < j < ps.len() && #[trigger] ps[i].0 == #[trigger] ps[j].0
}

/// Some parameter is one that only a server may send.
pub open spec fn has_server_only(ps: Seq<(u64, Seq<u8>)>) -> bool {
    exists|i: int| 0 <= i < ps.len() && is_server_only(#[trigger] ps[i].0)
}

/// Every identifier and every length can be written as a variable-length integer.
pub open spec fn encodable(ps: Seq<(u64, Seq<u8>)>) -> bool {
    forall|i: int| 0 <= i < ps.len() ==> (#[trigger] ps[i]).0 <= VARINT_MAX && ps[i].1.len() <= VARINT_MAX
}

/// What the end `side` makes of the bytes `b` that its peer sent as its
/// transport parameters: the parameters, or why they are refused. Bytes that
/// are no sequence of entries are malformed. A parameter that is there
/// twice is illegal, and so is, for a server, one that only servers send.
pub open spec fn read_spec(side: Side, b: Seq<u8>) -> Result<Seq<(u64, Seq<u8>)>, Error> {
    match decode_params(b) {
        None => Err(Error::Malformed),
        Some(ps) => if has_duplicate(ps) || (side is Server && has_server_only(ps)) {
            Err(Error::IllegalValue)
        } else {
            Ok(ps)
        },
    }
}

/// An entry that was written is read back, whatever follows it.
proof fn lemma_param_round_trip(p: (u64, Seq<u8>), rest: Seq<u8>)
    requires
        p.0 <= VARINT_MAX,
        p.1.len() <= VARINT_MAX,
    ensures
        decode_param(encode_param(p) + rest) == Some((p, encode_param(p).len())),
        encode_param(p).len() > 0,
{
    let len = p.1.len() as u64;
    let b = encode_param(p) + rest;
    let n1 = varint_len(p.0);
    let n2 = varint_len(len);
    assert(b =~= encode_varint(p.0) + (encode_varint(len) + p.1 + rest));
    lemma_varint_round_trip(p.0, encode_varint(len) + p.1 + rest);
    assert(b.skip(n1 as int) =~= encode_varint(len) + (p.1 + rest));
    lemma_varint_round_trip(len, p.1 + rest);
    assert(b.subrange((n1 + n2) as int, n1 + n2 + len) =~= p.1);
}

/// Entries that were written are read back.
pub proof fn lemma_params_round_trip(ps: Seq<(u64, Seq<u8>)>)
    requires
        encodable(ps),
    ensures
        decode_params(encode_params(ps)) == Some(ps),
    decreases ps.len(),
{
    if ps.len() == 0 {
        assert(ps =~= Seq::empty());
    } else {
        let tail = ps.skip(1);
        let b = encode_params(ps);
        assert(encodable(tail)) by {
            assert forall|i: int| 0 <= i < tail.len() implies (#[trigger] tail[i]).0 <= VARINT_MAX
                && tail[i].1.len() <= VARINT_MAX by {
                assert(tail[i] == ps[i + 1]);
            }
        }
        lemma_param_round_trip(ps[0], encode_params(tail));
        lemma_params_round_trip(tail);
        let n = encode_param(ps[0]).len();
        assert(b.skip(n as int) =~= encode_params(tail));
        assert(seq![ps[0]] + tail =~= ps);
    }
}

/// Writing a set of parameters and reading the bytes back gives the set:
/// for every set that can be written and that holds no parameter twice, and
/// for a server none that a client may not send.
pub proof fn lemma_read_write(side: Side, ps: Seq<(u64, Seq<u8>)>)
    requires
        encodable(ps),
        !has_duplicate(ps),
        side is Server ==> !has_server_only(ps),
    ensures
        read_spec(side, encode_params(ps)) == Ok::<Seq<(u64, Seq<u8>)>, Error>(ps),
{
    lemma_params_round_trip(ps);
}

/// The entries of a sequence that has one more: those before, then the last.
proof fn lemma_encode_params_push(ps: Seq<(u64, Seq<u8>)>, p: (u64, Seq<u8>))
    ensures
        encode_params(ps.push(p)) == encode_params(ps) + encode_param(p),
    decreases ps.len(),
{
    if ps.len() == 0 {
        reveal_with_fuel(encode_params, 2);
        assert(ps.push(p).skip(1) =~= Seq::empty());
        assert(ps.push(p)[0] == p);
        assert(encode_params(ps.push(p)) =~= encode_param(p));
        assert(encode_params(ps) + encode_param(p) =~= encode_param(p));
    } else {
        lemma_encode_params_push(ps.skip(1), p);
        assert(ps.push(p).skip(1) =~= ps.skip(1).push(p));
        assert(ps.push(p)[0] == ps[0]);
        assert(encode_params(ps.push(p)) =~= encode_params(ps) + encode_param(p));
    }
}

/// A set of transport parameters: no identifier twice, and nothing that
/// could not be written.
#[derive(Debug, PartialEq, Eq)]
pub struct TransportParameters {
    params: Vec<TransportParameter>,
}

impl View for TransportParameters {
    type V = Seq<(u64, Seq<u8>)>;

    closed spec fn view(&self) -> Seq<(u64, Seq<u8>)> {
        views(self.params@)
    }
}

impl TransportParameters {
    /// The set can be written, and it holds no parameter twice.
    pub open spec fn wf(&self) -> bool {
        encodable(self@) && !has_duplicate(self@)
    }

    /// The empty set.
    pub fn new() -> (r: TransportParameters)
        ensures
            r@ == Seq::<(u64, Seq<u8>)>::empty(),
            r.wf(),
    {
        let params: Vec<TransportParameter> = Vec::new();
        assert(views(params@) =~= Seq::empty());
        TransportParameters { params }
    }

    /// The number of parameters in the set.
    pub fn len(&self) -> (n: usize)
        ensures
            n == self@.len(),
    {
        self.params.len()
    }

    /// The value of the parameter `id`, if the set holds it.
    pub fn get(&self, id: u64) -> (r: Option<&Vec<u8>>)
        ensures
            match r {
                Some(value) => exists|i: int| 0 <= i < self@.len() && #[trigger] self@[i] == (id, value@),
                None => forall|i: int| 0 <= i < self@.len() ==> (#[trigger] self@[i]).0 != id,
            },
    {
        let mut i: usize = 0;
        while i < self.params.len()
            invariant
                i <= self.params@.len(),
                forall|j: int| 0 <= j < i ==> (#[trigger] views(self.params@)[j]).0 != id,
            decreases self.params@.len() - i,
        {
            if self.params[i].id == id {
                let value = &self.params[i].value;
                assert(self@[i as int] == (id, value@));
                return Some(value);
            }
            i += 1;
        }
        None
    }

    /// Adds the parameter `id` with `value` at the end of the set. An
    /// identifier that is too large for the wire, or that the set holds
    /// already, is an illegal value, and so is a value too long for the wire;
    /// the set then stays as it is.
    pub fn insert(&mut self, id: u64, value: Vec<u8>) -> (r: Result<(), Error>)
        requires
            old(self).wf(),
        ensures
            final(self).wf(),
            match r {
                Ok(()) => final(self)@ == old(self)@.push((id, value@)),
                Err(e) => e == Error::IllegalValue && final(self)@ == old(self)@,
            },
            r is Ok <==> id <= VARINT_MAX && value@.len() <= VARINT_MAX && forall|i: int|
                0 <= i < old(self)@.len() ==> (#[trigger] old(self)@[i]).0 != id,
    {
        if id > VARINT_MAX || value.len() as u64 > VARINT_MAX {
            return Err(Error::IllegalValue);
        }
        if self.get(id).is_some() {
            return Err(Error::IllegalValue);
        }
        let ghost before = self.params@;
        self.params.push(TransportParameter { id, value });
        proof {
            let after = views(self.params@);
            assert(after =~= views(before).push((id, value@)));
            assert(!has_duplicate(after)) by {
                if has_duplicate(after) {
                    let (i, j) = choose|i: int, j: int|
                        0 <= i < j < after.len() && #[trigger] after[i].0 == #[trigger] after[j].0;
                    if j < before.len() {
                        assert(views(before)[i].0 == views(before)[j].0);
                    } else {
                        assert(views(before)[i].0 == id);
                    }
                }
            }
        }
        Ok(())
    }

    /// Appends the set to `out` as it goes over the wire. What is appended
    /// reads back as this set: at a client always, at a server unless the
    /// set holds a parameter that only servers send.
    pub fn write(&self, out: &mut Vec<u8>)
        requires
            self.wf(),
        ensures
            final(out)@ == old(out)@ + encode_params(self@),
            read_spec(Side::Client, encode_params(self@)) == Ok::<Seq<(u64, Seq<u8>)>, Error>(self@),
            !has_server_only(self@) ==> read_spec(Side::Server, encode_params(self@)) == Ok::<
                Seq<(u64, Seq<u8>)>,
                Error,
            >(self@),
    {
        proof {
            lemma_read_write(Side::Client, self@);
            if !has_server_only(self@) {
                lemma_read_write(Side::Server, self@);
            }
        }
        let mut i: usize = 0;
        assert(views(self.params@).take(0) =~= Seq::empty());
        while i < self.params.len()
            invariant
                i <= self.params@.len(),
                encodable(views(self.params@)),
                out@ == old(out)@ + encode_params(views(self.params@).take(i as int)),
            decreases self.params@.len() - i,
        {
            let ghost done = views(self.params@).take(i as int);
            let ghost p = views(self.params@)[i as int];
            let param = &self.params[i];
            assert(param@ == p);
            write_varint(param.id, out);
            write_varint(param.value.len() as u64, out);
            let mut value = param.value.clone();
            out.append(&mut value);
            proof {
                lemma_encode_params_push(done, p);
                assert(views(self.params@).take(i + 1) =~= done.push(p));
                assert(out@ =~= old(out)@ + (encode_params(done) + encode_param(p)));
            }
            i += 1;
        }
        assert(views(self.params@).take(i as int) =~= views(self.params@));
    }

    /// Reads the set that the peer of `side` sent as `bytes`.
    pub fn read(side: Side, bytes: &[u8]) -> (r: Result<TransportParameters, Error>)
        ensures
            match read_spec(side, bytes@) {
                Ok(ps) => r matches Ok(params) && params@ == ps && params.wf(),
                Err(e) => r == Err::<TransportParameters, Error>(e),
            },
    {
        let len = bytes.len();
        let mut params: Vec<TransportParameter> = Vec::new();
        let mut pos: usize = 0;
        assert(bytes@.skip(0) =~= bytes@);
        assert(views(params@) =~= Seq::empty());
        while pos < len
            invariant
                pos <= len,
                len == bytes@.len(),
                encodable(views(params@)),
                decode_params(bytes@) == (match decode_params(bytes@.skip(pos as int)) {
                    None => None::<Seq<(u64, Seq<u8>)>>,
                    Some(rest) => Some(views(params@) + rest),
                }),
            decreases len - pos,
        {
            let ghost b = bytes@.skip(pos as int);
            let (id, n1) = match read_varint(bytes, pos) {
                None => {
                    return Err(Error::Malformed);
                },
                Some(found) => found,
            };
            assert(b.skip(n1 as int) =~= bytes@.skip(pos + n1));
            let (value_len, n2) = match read_varint(bytes, pos + n1) {
                None => {
                    return Err(Error::Malformed);
                },
                Some(found) => found,
            };
            let start = pos + n1 + n2;
            if value_len > (len - start) as u64 {
                return Err(Error::Malformed);
            }
            let end = start + value_len as usize;
            let value = vstd::slice::slice_to_vec(vstd::slice::slice_subrange(bytes, start, end));
            proof {
                let p = (id, value@);
                let n = (n1 + n2 + value_len) as nat;
                assert(value@ =~= b.subrange(n1 + n2, n1 + n2 + value_len));
                assert(decode_param(b) == Some((p, n)));
                assert(b.skip(n as int) =~= bytes@.skip(end as int));
                let before = views(params@);
                match decode_params(bytes@.skip(end as int)) {
                    None => {},
                    Some(rest) => {
                        assert(before + (seq![p] + rest) =~= before.push(p) + rest);
                    },
                }
                assert(views(params@.push(TransportParameter { id, value })) =~= before.push(p));
            }
            params.push(TransportParameter { id, value });
            pos = end;
        }
        proof {
            assert(bytes@.skip(pos as int).len() == 0);
            assert(views(params@) + Seq::<(u64, Seq<u8>)>::empty() =~= views(params@));
            assert(decode_params(bytes@) == Some(views(params@)));
        }
        if find_duplicate(&params) {
            return Err(Error::IllegalValue);
        }
        if side.is_server() && find_server_only(&params) {
            return Err(Error::IllegalValue);
        }
        Ok(TransportParameters { params })
    }
}

/// Tells whether some identifier is there twice.
fn find_duplicate(params: &Vec<TransportParameter>) -> (found: bool)
    ensures
        found == has_duplicate(views(params@)),
{
    let ghost ps = views(params@);
    let mut j: usize = 0;
    while j < params.len()
        invariant
            j <= params@.len(),
            ps == views(params@),
            forall|a: int, b: int| 0 <= a < b < j ==> (#[trigger] ps[a]).0 != (#[trigger] ps[b]).0,
        decreases params@.len() - j,
    {
        let mut i: usize = 0;
        while i < j
            invariant
                i <= j,
                j < params@.len(),
                ps == views(params@),
                forall|a: int| 0 <= a < i ==> (#[trigger] ps[a]).0 != ps[j as int].0,
            decreases j - i,
        {
            if params[i].id == params[j].id {
                assert(ps[i as int].0 == ps[j as int].0);
                return true;
            }
            i += 1;
        }
        j += 1;
    }
    false
}

/// Tells whether some parameter is one that only a server may send.
fn find_server_only(params: &Vec<TransportParameter>) -> (found: bool)
    ensures
        found == has_server_only(views(params@)),
{
    let ghost ps = views(params@);
    let mut i: usize = 0;
    while i < params.len()
        invariant
            i <= params@.len(),
            ps == views(params@),
            forall|a: int| 0 <= a < i ==> !is_server_only((#[trigger] ps[a]).0),
        decreases params@.len() - i,
    {
        let id: u64 = params[i].id;
        if id == 0x00 || id == 0x02 || id == 0x0d || id == 0x10 {
            assert(is_server_only(ps[i as int].0));
            return true;
        }
        i += 1;
    }
    false
}

} // verus!
