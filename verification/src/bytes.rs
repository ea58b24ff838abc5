//! Byte-string helpers shared by the wire format and the crypto framing.

use vstd::prelude::*;

verus! {

/// Copy `N` bytes of `data`, starting at `start`, into an array.
pub fn copy_array<const N: usize>(data: &[u8], start: usize) -> (a: [u8; N])
    requires
        start + N <= data@.len(),
    ensures
        a@ == data@.subrange(start as int, start + N),
{
    let n = data.len();
    let mut a = [0u8; N];
    let mut i: usize = 0;
    while i < N
        invariant
            i <= N,
            n == data@.len(),
            start + N <= data@.len(),
            a@.len() == N,
            forall|j: int| 0 <= j < i ==> a@[j] == data@[start + j],
        decreases N - i,
    {
        a[i] = data[start + i];
        i = i + 1;
    }
    assert(a@ =~= data@.subrange(start as int, start + N));
    a
}

/// Append all bytes of `src` to `buf`.
pub fn append_bytes(buf: &mut Vec<u8>, src: &[u8])
    ensures
        final(buf)@ == old(buf)@ + src@,
{
    let ghost before = buf@;
    buf.extend_from_slice(src);
    assert(buf@ =~= before + src@);
}

} // verus!
