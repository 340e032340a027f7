//! The buffer that a burst read fills.

use generic_array::typenum::consts::U6;
use generic_array::GenericArray;
use vstd::prelude::*;

verus! {

/// Six bytes in a `GenericArray`: room for the low and the high byte of
/// three axes. The array is opaque to the verifier; what it holds is known
/// through `burst_bytes` alone.
#[verifier::external_body]
pub struct Burst {
    bytes: GenericArray<u8, U6>,
}

/// The bytes that a buffer holds, first to last.
pub uninterp spec fn burst_bytes(burst: Burst) -> Seq<u8>;

/// A fresh buffer. Calls `GenericArray::default`, which builds the array from
/// the default of its element type: six bytes, each zero.
#[verifier::external_body]
pub(crate) fn zeroed() -> (burst: Burst)
    ensures
        burst_bytes(burst) == Seq::new(6, |i: int| 0u8),
{
    Burst { bytes: GenericArray::<u8, U6>::default() }
}

/// The buffer as a slice to write into. Calls `GenericArray`'s `deref_mut`,
/// which hands out the whole array as one slice: the slice starts out with
/// the buffer's bytes, and the buffer ends up with what the slice is left
/// holding.
#[verifier::external_body]
pub(crate) fn as_mut_slice(burst: &mut Burst) -> (slice: &mut [u8])
    ensures
        slice@ == burst_bytes(*old(burst)),
        final(slice)@ == burst_bytes(*final(burst)),
{
    std::ops::DerefMut::deref_mut(&mut burst.bytes)
}

/// The buffer's bytes as a plain array. Calls `GenericArray`'s `into` for
/// `[u8; 6]`, which reinterprets the array without touching a byte.
#[verifier::external_body]
pub(crate) fn into_array(burst: Burst) -> (bytes: [u8; 6])
    ensures
        bytes@ == burst_bytes(burst),
{
    burst.bytes.into()
}

} // verus!
