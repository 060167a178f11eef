//! Small operations on byte strings.
use vstd::prelude::*;

verus! {

/// Whether two byte strings are equal.
pub(crate) fn same_bytes(a: &[u8], b: &[u8]) -> (same: bool)
    ensures
        same == (a@ == b@),
{
    if a.len() != b.len() {
        return false;
    }
    let mut i: usize = 0;
    while i < a.len()
        invariant
            i <= a@.len(),
            a@.len() == b@.len(),
            forall|j: int| 0 <= j < i ==> a@[j] == b@[j],
        decreases a@.len() - i,
    {
        if a[i] != b[i] {
            return false;
        }
        i += 1;
    }
    assert(a@ =~= b@);
    true
}

/// The `N` bytes of `source` that start at `from`.
pub(crate) fn bytes_at<const N: usize>(source: &[u8], from: usize) -> (out: [u8; N])
    requires
        from + N <= source@.len(),
    ensures
        out@ == source@.subrange(from as int, from + N),
{
    let mut out: [u8; N] = [0u8; N];
    let len: usize = source.len();
    let mut i: usize = 0;
    while i < N
        invariant
            i <= N,
            from + N <= len == source@.len(),
            forall|j: int| 0 <= j < i ==> out@[j] == source@[from + j],
        decreases N - i,
    {
        out[i] = source[from + i];
        i += 1;
    }
    assert(out@ =~= source@.subrange(from as int, from + N));
    out
}

/// `target` with the bytes from `from` on replaced by `patch`.
pub(crate) fn overwrite(target: Vec<u8>, from: usize, patch: &[u8]) -> (out: Vec<u8>)
    requires
        from + patch@.len() <= target@.len(),
    ensures
        out@ == target@.take(from as int) + patch@ + target@.skip(from + patch@.len()),
{
    let mut out = target;
    let len: usize = out.len();
    let mut i: usize = 0;
    while i < patch.len()
        invariant
            i <= patch@.len(),
            from + patch@.len() <= len == out@.len() == target@.len(),
            forall|j: int|
                0 <= j < out@.len() ==> out@[j] == if from <= j < from + i {
                    patch@[j - from]
                } else {
                    target@[j]
                },
        decreases patch@.len() - i,
    {
        out.set(from + i, patch[i]);
        i += 1;
    }
    assert(out@ =~= target@.take(from as int) + patch@ + target@.skip(from + patch@.len()));
    out
}

} // verus!
