//! Copies between slices, arrays and vectors of bytes.

use vstd::prelude::*;
use vstd::slice::slice_to_vec;

verus! {

/// Copies the first `N` bytes of a slice into an array.
pub(crate) fn to_array<const N: usize>(bytes: &[u8]) -> (array: [u8; N])
    requires
        bytes@.len() >= N,
    ensures
        array@ == bytes@.take(N as int),
{
    let mut array = [0u8; N];
    let mut i: usize = 0;
    while i < N
        invariant
            i <= N,
            bytes@.len() >= N,
            forall|j: int| 0 <= j < i ==> array@[j] == bytes@[j],
        decreases N - i,
    {
        array[i] = bytes[i];
        i += 1;
    }
    assert(array@ =~= bytes@.take(N as int));
    array
}

/// Copies an array into a vector.
pub(crate) fn to_vec<const N: usize>(array: &[u8; N]) -> (bytes: Vec<u8>)
    ensures
        bytes@ == array@,
{
    slice_to_vec(array.as_slice())
}

} // verus!
