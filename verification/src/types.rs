use vstd::prelude::*;

verus! {

/// A content hash, carried as a plain machine word. Hashing itself is a
/// consumed primitive: the digests in this crate are the deterministic model
/// digest of `crate::digest`.
#[derive(Clone, Copy, Debug, PartialEq, Eq, Structural)]
pub struct Hash(pub u64);

/// A merkle-style root over an ordered hash list.
pub type MerkleRoot = Hash;

/// A validator's identity.
#[derive(Clone, Copy, Debug, PartialEq, Eq, Structural)]
pub struct Address(pub u64);

/// One member of the weighted committee eligible to propose and vote.
#[derive(Clone, Copy, Debug, PartialEq, Eq, Structural)]
pub struct Validator {
    pub address: Address,
    pub propose_weight: u32,
    pub vote_weight: u32,
}

/// A transaction together with its signature, content-addressed by its hash.
#[derive(Clone, Copy, Debug, PartialEq, Eq, Structural)]
pub struct SignedTransaction {
    pub tx_hash: Hash,
    pub signature: u64,
}

/// The execution result for one transaction, keyed by the transaction's hash.
#[derive(Clone, Copy, Debug, PartialEq, Eq, Structural)]
pub struct Receipt {
    pub tx_hash: Hash,
    pub exit_code: u64,
}

/// The aggregated-signature artifact certifying quorum agreement on one block.
#[derive(Clone, Debug)]
pub struct Proof {
    /// Height of the block this proof certifies.
    pub height: u64,
    /// Agreement round the certificate was assembled in.
    pub round: u64,
    /// Hash of the certified block.
    pub block_hash: Hash,
    /// One bit per committee member, in committee order: whether that member
    /// signed.
    pub bitmap: Vec<bool>,
    /// The aggregated signature, opaque to this crate.
    pub signature: u64,
}

/// A block header. The proof it carries certifies the previous block.
#[derive(Clone, Debug)]
pub struct BlockHeader {
    /// Height: monotonic, without gaps, starting at zero for genesis.
    pub number: u64,
    /// Hash of the previous committed block.
    pub previous_hash: Hash,
    /// Root over the ordered transaction-hash list.
    pub order_root: MerkleRoot,
    /// Root of the state after executing this block.
    pub state_root: MerkleRoot,
    /// Root over this block's receipts.
    pub receipts_root: MerkleRoot,
    /// Identity of the block's proposer.
    pub proposer: Address,
    /// Proposal time in milliseconds.
    pub timestamp: u64,
    /// Proof certifying the previous block.
    pub proof: Proof,
}

/// A block: a header plus the ordered list of transaction hashes it commits
/// to. Immutable once committed; identified by its own hash.
#[derive(Clone, Debug)]
pub struct Block {
    pub header: BlockHeader,
    pub ordered_tx_hashes: Vec<Hash>,
}

/// A proposal payload: a block together with the full signed transactions its
/// hash list references.
#[derive(Clone, Debug)]
pub struct Pill {
    pub block: Block,
    pub signed_txs: Vec<SignedTransaction>,
}

/// What a commit call did: either the block was appended, or the height was
/// already committed and the call was a no-op.
#[derive(Clone, Copy, Debug, PartialEq, Eq, Structural)]
pub enum CommitOutcome {
    Committed,
    AlreadyCommitted,
}

/// Whether two blocks carry the same content, field by field and element by
/// element. Everything this crate states of a block — its digest included —
/// depends only on this content.
pub open spec fn block_matches(a: Block, b: Block) -> bool {
    &&& a.header.number == b.header.number
    &&& a.header.previous_hash == b.header.previous_hash
    &&& a.header.order_root == b.header.order_root
    &&& a.header.state_root == b.header.state_root
    &&& a.header.receipts_root == b.header.receipts_root
    &&& a.header.proposer == b.header.proposer
    &&& a.header.timestamp == b.header.timestamp
    &&& a.header.proof.height == b.header.proof.height
    &&& a.header.proof.round == b.header.proof.round
    &&& a.header.proof.block_hash == b.header.proof.block_hash
    &&& a.header.proof.bitmap@ == b.header.proof.bitmap@
    &&& a.header.proof.signature == b.header.proof.signature
    &&& a.ordered_tx_hashes@ == b.ordered_tx_hashes@
}

/// Copies a bitmap element by element.
pub fn copy_bools(bits: &Vec<bool>) -> (r: Vec<bool>)
    ensures
        r@ == bits@,
{
    let mut out: Vec<bool> = Vec::new();
    let n = bits.len();
    let mut i: usize = 0;
    while i < n
        invariant
            0 <= i <= n,
            n == bits@.len(),
            out@ == bits@.take(i as int),
        decreases n - i,
    {
        out.push(bits[i]);
        assert(bits@.take(i as int + 1) =~= bits@.take(i as int).push(bits@[i as int]));
        i = i + 1;
    }
    assert(bits@.take(n as int) =~= bits@);
    out
}

/// Copies a hash list element by element.
pub fn copy_hashes(hashes: &Vec<Hash>) -> (r: Vec<Hash>)
    ensures
        r@ == hashes@,
{
    let mut out: Vec<Hash> = Vec::new();
    let n = hashes.len();
    let mut i: usize = 0;
    while i < n
        invariant
            0 <= i <= n,
            n == hashes@.len(),
            out@ == hashes@.take(i as int),
        decreases n - i,
    {
        out.push(hashes[i]);
        assert(hashes@.take(i as int + 1) =~= hashes@.take(i as int).push(hashes@[i as int]));
        i = i + 1;
    }
    assert(hashes@.take(n as int) =~= hashes@);
    out
}

/// Copies a proof content for content, yielding a proof of the same content.
pub fn copy_proof(p: &Proof) -> (r: Proof)
    ensures
        r.height == p.height,
        r.round == p.round,
        r.block_hash == p.block_hash,
        r.bitmap@ == p.bitmap@,
        r.signature == p.signature,
{
    Proof {
        height: p.height,
        round: p.round,
        block_hash: p.block_hash,
        bitmap: copy_bools(&p.bitmap),
        signature: p.signature,
    }
}

/// Copies a block content for content, yielding a block of the same content.
pub fn copy_block(b: &Block) -> (r: Block)
    ensures
        block_matches(*b, r),
{
    let proof = copy_proof(&b.header.proof);
    let header = BlockHeader {
        number: b.header.number,
        previous_hash: b.header.previous_hash,
        order_root: b.header.order_root,
        state_root: b.header.state_root,
        receipts_root: b.header.receipts_root,
        proposer: b.header.proposer,
        timestamp: b.header.timestamp,
        proof,
    };
    Block { header, ordered_tx_hashes: copy_hashes(&b.ordered_tx_hashes) }
}

/// Whether an ordered transaction list carries exactly the hashes a block
/// declares, position by position.
pub open spec fn txs_match(txs: Seq<SignedTransaction>, hashes: Seq<Hash>) -> bool {
    &&& txs.len() == hashes.len()
    &&& forall|i: int| 0 <= i < txs.len() ==> #[trigger] txs[i].tx_hash == hashes[i]
}

/// Decides `txs_match` on concrete lists.
pub fn check_txs_match(txs: &Vec<SignedTransaction>, hashes: &Vec<Hash>) -> (r: bool)
    ensures
        r == txs_match(txs@, hashes@),
{
    if txs.len() != hashes.len() {
        return false;
    }
    let n = txs.len();
    let mut i: usize = 0;
    while i < n
        invariant
            0 <= i <= n,
            n == txs@.len(),
            txs@.len() == hashes@.len(),
            forall|k: int| 0 <= k < i ==> #[trigger] txs@[k].tx_hash == hashes@[k],
        decreases n - i,
    {
        if txs[i].tx_hash != hashes[i] {
            return false;
        }
        i = i + 1;
    }
    true
}

/// Copies a transaction list element by element.
pub fn copy_txs(txs: &Vec<SignedTransaction>) -> (r: Vec<SignedTransaction>)
    ensures
        r@ == txs@,
{
    let mut out: Vec<SignedTransaction> = Vec::new();
    let n = txs.len();
    let mut i: usize = 0;
    while i < n
        invariant
            0 <= i <= n,
            n == txs@.len(),
            out@ == txs@.take(i as int),
        decreases n - i,
    {
        out.push(txs[i]);
        assert(txs@.take(i as int + 1) =~= txs@.take(i as int).push(txs@[i as int]));
        i = i + 1;
    }
    assert(txs@.take(n as int) =~= txs@);
    out
}

} // verus!
