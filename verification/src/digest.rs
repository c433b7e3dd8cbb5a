use vstd::prelude::*;
use crate::types::{Block, BlockHeader, MerkleRoot};

verus! {

/// Domain-separation seed for block-header digests.
pub const HEADER_SEED: u64 = 0x6865616465720000;

/// Domain-separation seed for signer-bitmap digests.
pub const BITMAP_SEED: u64 = 0x6269746d61700000;

/// Domain-separation seed for the order root over a transaction-hash list.
pub const ORDER_SEED: u64 = 0x6f72646572000000;

/// One mixing step of the model digest: rotate, fold in the word, and stir
/// with an odd constant. Deterministic and total on machine words.
pub open spec fn spec_combine(acc: u64, x: u64) -> u64 {
    (((acc << 7) | (acc >> 57)) ^ x) ^ 0x9e3779b97f4a7c15
}

/// Executable twin of `spec_combine`.
pub fn combine(acc: u64, x: u64) -> (r: u64)
    ensures
        r == spec_combine(acc, x),
{
    (((acc << 7) | (acc >> 57)) ^ x) ^ 0x9e3779b97f4a7c15
}

/// Left-to-right fold of `spec_combine` over a word sequence.
pub open spec fn fold_digest(seed: u64, words: Seq<u64>) -> u64
    decreases words.len(),
{
    if words.len() == 0 {
        seed
    } else {
        spec_combine(fold_digest(seed, words.drop_last()), words.last())
    }
}

/// Folds the model digest over a word list.
pub fn digest_words(seed: u64, words: &Vec<u64>) -> (r: u64)
    ensures
        r == fold_digest(seed, words@),
{
    let n = words.len();
    let mut acc = seed;
    let mut i: usize = 0;
    while i < n
        invariant
            0 <= i <= n,
            n == words@.len(),
            acc == fold_digest(seed, words@.take(i as int)),
        decreases n - i,
    {
        assert(words@.take(i as int + 1).drop_last() =~= words@.take(i as int));
        assert(words@.take(i as int + 1).last() == words@[i as int]);
        acc = combine(acc, words[i]);
        i = i + 1;
    }
    assert(words@.take(n as int) =~= words@);
    acc
}

/// The word a signer bit contributes to a digest.
pub open spec fn bit_word(b: bool) -> u64 {
    if b {
        1u64
    } else {
        0u64
    }
}

/// Digest of a signer bitmap, one word per committee seat.
pub open spec fn bitmap_digest(bits: Seq<bool>) -> u64 {
    fold_digest(BITMAP_SEED, bits.map(|i: int, b: bool| bit_word(b)))
}

/// Computes `bitmap_digest` on a concrete bitmap.
pub fn compute_bitmap_digest(bits: &Vec<bool>) -> (r: u64)
    ensures
        r == bitmap_digest(bits@),
{
    let ghost m = bits@.map(|i: int, b: bool| bit_word(b));
    let n = bits.len();
    let mut acc = BITMAP_SEED;
    let mut i: usize = 0;
    while i < n
        invariant
            0 <= i <= n,
            n == bits@.len(),
            m == bits@.map(|k: int, b: bool| bit_word(b)),
            acc == fold_digest(BITMAP_SEED, m.take(i as int)),
        decreases n - i,
    {
        assert(m.take(i as int + 1).drop_last() =~= m.take(i as int));
        assert(m.take(i as int + 1).last() == m[i as int]);
        assert(m[i as int] == bit_word(bits@[i as int]));
        let w: u64 = if bits[i] {
            1u64
        } else {
            0u64
        };
        acc = combine(acc, w);
        i = i + 1;
    }
    assert(m.take(n as int) =~= m);
    acc
}

/// The words of a header that the block digest covers, in order.
pub open spec fn header_words(h: BlockHeader) -> Seq<u64> {
    seq![
        h.number,
        h.previous_hash.0,
        h.order_root.0,
        h.state_root.0,
        h.receipts_root.0,
        h.proposer.0,
        h.timestamp,
        h.proof.height,
        h.proof.round,
        h.proof.block_hash.0,
        bitmap_digest(h.proof.bitmap@),
        h.proof.signature,
    ]
}

/// The model digest identifying a block: a block hash covers every header
/// field, the carried proof included.
pub open spec fn hash_of_header(h: BlockHeader) -> crate::types::Hash {
    crate::types::Hash(fold_digest(HEADER_SEED, header_words(h)))
}

/// A block is identified by the digest of its header; the header's order root
/// commits the header to the transaction list.
pub open spec fn hash_of_block(b: Block) -> crate::types::Hash {
    hash_of_header(b.header)
}

/// Computes the identifying hash of a block.
pub fn block_hash(b: &Block) -> (r: crate::types::Hash)
    ensures
        r == hash_of_block(*b),
{
    let bd = compute_bitmap_digest(&b.header.proof.bitmap);
    let mut words: Vec<u64> = Vec::new();
    words.push(b.header.number);
    words.push(b.header.previous_hash.0);
    words.push(b.header.order_root.0);
    words.push(b.header.state_root.0);
    words.push(b.header.receipts_root.0);
    words.push(b.header.proposer.0);
    words.push(b.header.timestamp);
    words.push(b.header.proof.height);
    words.push(b.header.proof.round);
    words.push(b.header.proof.block_hash.0);
    words.push(bd);
    words.push(b.header.proof.signature);
    assert(words@ =~= header_words(b.header));
    crate::types::Hash(digest_words(HEADER_SEED, &words))
}

/// Blocks of the same content have the same identifying hash.
pub proof fn lemma_block_matches_same_hash(a: Block, b: Block)
    requires
        crate::types::block_matches(a, b),
    ensures
        hash_of_block(a) == hash_of_block(b),
        order_root_of(a.ordered_tx_hashes@) == order_root_of(b.ordered_tx_hashes@),
{
    assert(header_words(a.header) =~= header_words(b.header));
}

/// The order root over an ordered transaction-hash list.
pub open spec fn order_root_of(hashes: Seq<crate::types::Hash>) -> MerkleRoot {
    crate::types::Hash(fold_digest(ORDER_SEED, hashes.map(|i: int, h: crate::types::Hash| h.0)))
}

/// Recomputes the order root from a concrete transaction-hash list.
pub fn compute_order_root(hashes: &Vec<crate::types::Hash>) -> (r: MerkleRoot)
    ensures
        r == order_root_of(hashes@),
{
    let ghost m = hashes@.map(|i: int, h: crate::types::Hash| h.0);
    let n = hashes.len();
    let mut acc = ORDER_SEED;
    let mut i: usize = 0;
    while i < n
        invariant
            0 <= i <= n,
            n == hashes@.len(),
            m == hashes@.map(|k: int, h: crate::types::Hash| h.0),
            acc == fold_digest(ORDER_SEED, m.take(i as int)),
        decreases n - i,
    {
        assert(m.take(i as int + 1).drop_last() =~= m.take(i as int));
        assert(m.take(i as int + 1).last() == m[i as int]);
        assert(m[i as int] == hashes@[i as int].0);
        acc = combine(acc, hashes[i].0);
        i = i + 1;
    }
    assert(m.take(n as int) =~= m);
    crate::types::Hash(acc)
}

} // verus!
