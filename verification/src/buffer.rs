use vstd::prelude::*;
use bytes::Bytes;

verus! {

/// `bytes::Bytes`, taken as it is. Of what a value holds only `bytes_of`
/// speaks.
#[verifier::external_type_specification]
#[verifier::external_body]
pub struct ExBytes(Bytes);

/// The bytes that a `Bytes` value holds, first to last.
pub uninterp spec fn bytes_of(b: Bytes) -> Seq<u8>;

/// Largest number of bytes that one buffer is let to hold: a quarter of the
/// largest allocation. A buffer that grows asks for up to twice the room it
/// had, and that room may count bytes in front of the buffer too.
pub open spec fn capacity_limit() -> nat {
    (isize::MAX / 4) as nat
}

/// `Bytes::new`: a buffer that holds nothing.
#[verifier::external_body]
pub(crate) fn empty() -> (r: Bytes)
    ensures
        bytes_of(r) == Seq::<u8>::empty(),
{
    Bytes::new()
}

/// `Bytes::len`: the number of bytes held.
#[verifier::external_body]
pub(crate) fn length(b: &Bytes) -> (r: usize)
    ensures
        r == bytes_of(*b).len(),
{
    b.len()
}

/// `Extend::extend` of `Bytes`, fed with the bytes of `chunk`: what `buf`
/// held stays in front and the bytes of `chunk` follow in their order. To
/// make room the call may allocate anew, for less than four times the bytes
/// that `buf` is to hold, and an allocation of more than `isize::MAX` bytes
/// panics; the precondition keeps the call away from that.
#[verifier::external_body]
pub(crate) fn append(buf: &mut Bytes, chunk: Bytes)
    requires
        bytes_of(*old(buf)).len() + bytes_of(chunk).len() <= capacity_limit(),
    ensures
        bytes_of(*final(buf)) == bytes_of(*old(buf)) + bytes_of(chunk),
{
    buf.extend(chunk);
}

} // verus!
