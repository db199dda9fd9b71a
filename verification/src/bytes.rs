//! Moving bytes between slices and fixed-size arrays.

use vstd::prelude::*;

verus! {

/// Copies the `N` bytes of `bytes` that start at `at` into an array.
pub(crate) fn chunk<const N: usize>(bytes: &[u8], at: usize) -> (out: [u8; N])
    requires
        at + N <= bytes@.len(),
    ensures
        out@ == bytes@.subrange(at as int, at + N),
{
    let len: usize = bytes.len();
    let mut out: [u8; N] = [0u8; N];
    let mut i: usize = 0;
    while i < N
        invariant
            i <= N,
            at + N <= len == bytes@.len(),
            forall|k: int| 0 <= k < i ==> out@[k] == bytes@[at + k],
        decreases N - i,
    {
        out[i] = bytes[at + i];
        i += 1;
    }
    assert(out@ =~= bytes@.subrange(at as int, at + N));
    out
}

/// Lays three arrays of equal size end to end.
pub(crate) fn concat3<const M: usize, const N: usize>(a: &[u8; M], b: &[u8; M], c: &[u8; M]) -> (out:
    [u8; N])
    requires
        N == 3 * M,
    ensures
        out@ == a@ + b@ + c@,
{
    let mut out: [u8; N] = [0u8; N];
    let mut i: usize = 0;
    while i < M
        invariant
            i <= M,
            N == 3 * M,
            forall|k: int| 0 <= k < i ==> out@[k] == a@[k],
            forall|k: int| 0 <= k < i ==> out@[M + k] == b@[k],
            forall|k: int| 0 <= k < i ==> out@[2 * M + k] == c@[k],
        decreases M - i,
    {
        out[i] = a[i];
        out[M + i] = b[i];
        out[2 * M + i] = c[i];
        i += 1;
    }
    assert(out@ =~= a@ + b@ + c@);
    out
}

} // verus!
