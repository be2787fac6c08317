use vstd::prelude::*;
use bytes::BytesMut;

verus! {

/// `bytes::BytesMut`, a growable byte buffer, carried opaquely.
#[verifier::external_type_specification]
#[verifier::external_body]
pub struct ExBytesMut(BytesMut);

/// The bytes that a `BytesMut` holds, first to last.
pub uninterp spec fn bytes_mut_contents(b: BytesMut) -> Seq<u8>;

/// `BytesMut::with_capacity`: an empty buffer with room for `capacity`
/// bytes (allocation refuses more than `isize::MAX`).
#[verifier::external_body]
pub(crate) fn bytes_with_capacity(capacity: usize) -> (r: BytesMut)
    requires
        capacity <= isize::MAX,
    ensures
        bytes_mut_contents(r) == Seq::<u8>::empty(),
{
    BytesMut::with_capacity(capacity)
}

/// `BytesMut::resize`: extends the buffer with copies of `value` up to
/// `new_len` bytes, or truncates it to `new_len`.
#[verifier::external_body]
pub(crate) fn bytes_resize(b: &mut BytesMut, new_len: usize, value: u8)
    requires
        new_len <= isize::MAX,
    ensures
        bytes_mut_contents(*final(b)) == (if new_len <= bytes_mut_contents(*old(b)).len() {
            bytes_mut_contents(*old(b)).take(new_len as int)
        } else {
            bytes_mut_contents(*old(b)) + Seq::new(
                (new_len - bytes_mut_contents(*old(b)).len()) as nat,
                |i: int| value,
            )
        }),
{
    b.resize(new_len, value)
}

/// A buffer of `len` copies of `value`.
pub(crate) fn bytes_filled(len: usize, value: u8) -> (r: BytesMut)
    requires
        len <= isize::MAX,
    ensures
        bytes_mut_contents(r) == Seq::new(len as nat, |i: int| value),
{
    let mut b = bytes_with_capacity(len);
    bytes_resize(&mut b, len, value);
    assert(bytes_mut_contents(b) =~= Seq::new(len as nat, |i: int| value));
    b
}

/// `BytesMut::len`: the number of bytes held.
#[verifier::external_body]
pub(crate) fn bytes_len(b: &BytesMut) -> (r: usize)
    ensures
        r == bytes_mut_contents(*b).len(),
{
    b.len()
}

/// Indexing through `BytesMut`'s `Deref` to `[u8]`: the byte at `i`.
#[verifier::external_body]
pub(crate) fn bytes_get(b: &BytesMut, i: usize) -> (r: u8)
    requires
        i < bytes_mut_contents(*b).len(),
    ensures
        r == bytes_mut_contents(*b)[i as int],
{
    b[i]
}

/// Assignment through `BytesMut`'s `DerefMut` to `[u8]`: replaces the byte at `i`.
#[verifier::external_body]
pub(crate) fn bytes_set(b: &mut BytesMut, i: usize, value: u8)
    requires
        i < bytes_mut_contents(*old(b)).len(),
    ensures
        bytes_mut_contents(*final(b)) == bytes_mut_contents(*old(b)).update(i as int, value),
{
    b[i] = value;
}

/// Range indexing through `BytesMut`'s `Deref` to `[u8]`: the bytes from
/// `start` up to `end`.
#[verifier::external_body]
pub(crate) fn bytes_range(b: &BytesMut, start: usize, end: usize) -> (r: &[u8])
    requires
        start <= end <= bytes_mut_contents(*b).len(),
    ensures
        r@ == bytes_mut_contents(*b).subrange(start as int, end as int),
{
    &b[start..end]
}

/// `BytesMut::clone`: a buffer holding a copy of the same bytes.
#[verifier::external_body]
pub(crate) fn bytes_clone(b: &BytesMut) -> (r: BytesMut)
    ensures
        bytes_mut_contents(r) == bytes_mut_contents(*b),
{
    b.clone()
}

} // verus!
