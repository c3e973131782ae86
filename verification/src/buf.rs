//! The byte buffer in which a received packet's payload is opened.

use vstd::prelude::*;

verus! {

/// `bytes::BytesMut`, a buffer of bytes that can grow and be cut.
#[verifier::external_type_specification]
#[verifier::external_body]
pub struct ExBytesMut(bytes::BytesMut);

/// The bytes that a `BytesMut` holds, in order.
pub uninterp spec fn bytes_mut_view(b: bytes::BytesMut) -> Seq<u8>;

/// `BytesMut::len`: the number of bytes that the buffer holds.
#[verifier::external_body]
pub(crate) fn bytes_mut_len(b: &bytes::BytesMut) -> (n: usize)
    ensures
        n == bytes_mut_view(*b).len(),
{
    b.len()
}

/// `BytesMut::split_off`, with the part that is split off let go: the buffer
/// keeps its first `at` bytes. `at` may not go past the end, where the
/// buffer's capacity might end too.
#[verifier::external_body]
pub(crate) fn bytes_mut_split_off(b: &mut bytes::BytesMut, at: usize)
    requires
        at <= bytes_mut_view(*old(b)).len(),
    ensures
        bytes_mut_view(*final(b)) == bytes_mut_view(*old(b)).subrange(0, at as int),
{
    let _ = b.split_off(at);
}

} // verus!
