//! SHA-512 digests, and the byte-array helpers built around them.

use sha2::Digest;
use vstd::prelude::*;

verus! {

/// The SHA-512 digest of `data`, as the `sha2` crate computes it.
pub uninterp spec fn sha512(data: Seq<u8>) -> Seq<u8>;

/// The first 32 bytes of the SHA-512 digest of `data`.
pub open spec fn sha512_prefix32(data: Seq<u8>) -> Seq<u8> {
    sha512(data).subrange(0, 32)
}

/// Trusted: calls `sha2::Sha512::digest` and claims that the 64 bytes it
/// returns are `sha512(data)`.
#[verifier::external_body]
pub(crate) fn sha512_digest(data: &[u8]) -> (digest: [u8; 64])
    ensures
        digest@ == sha512(data@),
{
    sha2::Sha512::digest(data).into()
}

/// Copies the first `N` bytes of `bytes` into an array.
pub fn prefix_array<const N: usize>(bytes: &[u8]) -> (out: [u8; N])
    requires
        N <= bytes@.len(),
    ensures
        out@ == bytes@.subrange(0, N as int),
{
    copy_array::<N>(bytes, 0)
}

/// Copies the `N` bytes of `bytes` that start at `offset` into an array.
pub fn copy_array<const N: usize>(bytes: &[u8], offset: usize) -> (out: [u8; N])
    requires
        offset + N <= bytes@.len(),
    ensures
        out@ == bytes@.subrange(offset as int, offset + N),
{
    let len: usize = bytes.len();
    let mut out = [0u8; N];
    let mut i: usize = 0;
    while i < N
        invariant
            i <= N,
            len == bytes@.len(),
            offset + N <= bytes@.len(),
            out@.len() == N,
            forall|j: int| 0 <= j < i ==> out@[j] == bytes@[offset + j],
        decreases N - i,
    {
        out[i] = bytes[offset + i];
        i = i + 1;
    }
    assert(out@ =~= bytes@.subrange(offset as int, offset + N));
    out
}

/// The first 32 bytes of the SHA-512 digest of `data`.
pub fn sha512_32(data: &[u8]) -> (out: [u8; 32])
    ensures
        out@ == sha512_prefix32(data@),
{
    let digest = sha512_digest(data);
    prefix_array::<32>(digest.as_slice())
}

} // verus!
