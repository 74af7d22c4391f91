//! Byte-string building blocks: appending, comparing, integer encodings and
//! fixed-size blocks.

use vstd::prelude::*;

verus! {

/// The concatenation of `blocks`, in order.
pub open spec fn flatten(blocks: Seq<Seq<u8>>) -> Seq<u8>
    decreases blocks.len(),
{
    if blocks.len() == 0 {
        Seq::empty()
    } else {
        flatten(blocks.drop_last()) + blocks.last()
    }
}

/// Every block of `blocks` is 32 bytes long.
pub open spec fn all_32(blocks: Seq<Seq<u8>>) -> bool {
    forall|i: int| 0 <= i < blocks.len() ==> #[trigger] blocks[i].len() == 32
}

/// The views of an array of 32-byte arrays.
pub open spec fn block_views<const N: usize>(blocks: [[u8; 32]; N]) -> Seq<Seq<u8>> {
    blocks@.map_values(|b: [u8; 32]| b@)
}

/// The `n` consecutive 32-byte blocks that make up `bytes`.
pub open spec fn chunks_32(bytes: Seq<u8>, n: nat) -> Seq<Seq<u8>> {
    Seq::new(n, |i: int| bytes.subrange(32 * i, 32 * i + 32))
}

/// Thirty-two zero bytes: the empty slot of a record's peer and hash lists.
pub open spec fn zero_bytes() -> Seq<u8> {
    Seq::new(32, |i: int| 0u8)
}

/// The big-endian encoding of `x`.
pub open spec fn u64_be_bytes(x: u64) -> Seq<u8> {
    Seq::new(8, |i: int| ((x >> ((56 - 8 * i) as u64)) & 0xff) as u8)
}

pub proof fn lemma_flatten_len(blocks: Seq<Seq<u8>>)
    requires
        all_32(blocks),
    ensures
        flatten(blocks).len() == 32 * blocks.len(),
    decreases blocks.len(),
{
    if blocks.len() > 0 {
        assert(blocks.last().len() == 32);
        lemma_flatten_len(blocks.drop_last());
    }
}

pub proof fn lemma_flatten_block(blocks: Seq<Seq<u8>>, i: int)
    requires
        all_32(blocks),
        0 <= i < blocks.len(),
    ensures
        flatten(blocks).subrange(32 * i, 32 * i + 32) == blocks[i],
    decreases blocks.len(),
{
    let prefix = blocks.drop_last();
    lemma_flatten_len(prefix);
    assert(blocks.last().len() == 32);
    if i == blocks.len() - 1 {
        assert(flatten(blocks).subrange(32 * i, 32 * i + 32) =~= blocks.last());
    } else {
        lemma_flatten_block(prefix, i);
        assert(flatten(blocks).subrange(32 * i, 32 * i + 32) =~= flatten(prefix).subrange(
            32 * i,
            32 * i + 32,
        ));
    }
}

pub proof fn lemma_flatten_chunks(bytes: Seq<u8>, n: nat)
    requires
        bytes.len() == 32 * n,
    ensures
        flatten(chunks_32(bytes, n)) == bytes,
    decreases n,
{
    if n > 0 {
        let m = (n - 1) as nat;
        let prefix = bytes.subrange(0, 32 * m as int);
        lemma_flatten_chunks(prefix, m);
        assert forall|i: int| 0 <= i < m implies #[trigger] chunks_32(bytes, n).drop_last()[i]
            == chunks_32(prefix, m)[i] by {
            assert(bytes.subrange(32 * i, 32 * i + 32) =~= prefix.subrange(32 * i, 32 * i + 32));
        }
        assert(chunks_32(bytes, n).drop_last() =~= chunks_32(prefix, m));
        assert(flatten(chunks_32(bytes, n)) =~= bytes);
    }
}

pub proof fn lemma_chunks_flatten(blocks: Seq<Seq<u8>>)
    requires
        all_32(blocks),
    ensures
        chunks_32(flatten(blocks), blocks.len()) == blocks,
{
    lemma_flatten_len(blocks);
    assert forall|i: int| 0 <= i < blocks.len() implies #[trigger] chunks_32(
        flatten(blocks),
        blocks.len(),
    )[i] == blocks[i] by {
        lemma_flatten_block(blocks, i);
    }
    assert(chunks_32(flatten(blocks), blocks.len()) =~= blocks);
}

pub proof fn lemma_block_views_32<const N: usize>(blocks: [[u8; 32]; N])
    ensures
        all_32(block_views(blocks)),
        block_views(blocks).len() == N,
{
}

/// Appends `bytes` to `buf`.
pub fn append_bytes(buf: &mut Vec<u8>, bytes: &[u8])
    ensures
        final(buf)@ == old(buf)@ + bytes@,
{
    let len: usize = bytes.len();
    let mut i: usize = 0;
    while i < len
        invariant
            i <= len,
            len == bytes@.len(),
            buf@ == old(buf)@ + bytes@.subrange(0, i as int),
        decreases len - i,
    {
        buf.push(bytes[i]);
        i = i + 1;
        assert(buf@ =~= old(buf)@ + bytes@.subrange(0, i as int));
    }
    assert(bytes@.subrange(0, len as int) =~= bytes@);
}

/// Whether the two byte strings are equal.
pub fn bytes_equal(a: &[u8], b: &[u8]) -> (equal: bool)
    ensures
        equal == (a@ == b@),
{
    let len: usize = a.len();
    if len != b.len() {
        return false;
    }
    let mut i: usize = 0;
    while i < len
        invariant
            i <= len,
            len == a@.len(),
            len == b@.len(),
            forall|j: int| 0 <= j < i ==> a@[j] == b@[j],
        decreases len - i,
    {
        if a[i] != b[i] {
            return false;
        }
        i = i + 1;
    }
    assert(a@ =~= b@);
    true
}

/// Whether the 32 bytes are all zero.
pub fn is_zero_key(key: &[u8; 32]) -> (zero: bool)
    ensures
        zero == (key@ == zero_bytes()),
{
    let zeros = [0u8; 32];
    assert(zeros@ =~= zero_bytes());
    bytes_equal(key.as_slice(), zeros.as_slice())
}

/// The big-endian encoding of `x`.
pub fn u64_to_be_bytes(x: u64) -> (bytes: [u8; 8])
    ensures
        bytes@ == u64_be_bytes(x),
{
    let bytes: [u8; 8] = [
        ((x >> 56u64) & 0xff) as u8,
        ((x >> 48u64) & 0xff) as u8,
        ((x >> 40u64) & 0xff) as u8,
        ((x >> 32u64) & 0xff) as u8,
        ((x >> 24u64) & 0xff) as u8,
        ((x >> 16u64) & 0xff) as u8,
        ((x >> 8u64) & 0xff) as u8,
        (x & 0xff) as u8,
    ];
    assert(x >> 0u64 == x) by (bit_vector);
    assert(bytes@ =~= u64_be_bytes(x));
    bytes
}

} // verus!
