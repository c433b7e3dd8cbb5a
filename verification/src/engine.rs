use vstd::prelude::*;
use crate::{BlockHeaderField, BlockProofField, ConsensusError};
use crate::digest::{block_hash, compute_order_root, hash_of_block, order_root_of};
use crate::status::{
    check_committee_contains, check_quorum, committee_contains, has_quorum, timestamp_valid,
    ConsensusStatus,
};
use crate::types::{Block, CommitOutcome, Proof, Receipt, Validator};

verus! {

/// The first failing block-header check against the current status, or `Ok`
/// when the candidate passes every structural check. First failure wins;
/// there is no partial acceptance.
pub open spec fn block_structure_check(status: ConsensusStatus, block: Block) -> Result<
    (),
    ConsensusError,
> {
    if block.header.previous_hash != status.latest_hash {
        Err(
            ConsensusError::InvalidPrevhash {
                expect: status.latest_hash,
                actual: block.header.previous_hash,
            },
        )
    } else if block.header.proof.height != block.header.number - 1 {
        Err(
            ConsensusError::InvalidProof {
                expect: (block.header.number - 1) as u64,
                actual: block.header.proof.height,
            },
        )
    } else if block.header.proof.block_hash != block.header.previous_hash {
        Err(ConsensusError::VerifyBlockHeader(block.header.number, BlockHeaderField::ProofHash))
    } else if block.header.order_root != order_root_of(block.ordered_tx_hashes@) {
        Err(
            ConsensusError::InvalidOrderRoot {
                expect: order_root_of(block.ordered_tx_hashes@),
                actual: block.header.order_root,
            },
        )
    } else if !committee_contains(status.validators@, block.header.proposer) {
        Err(ConsensusError::VerifyBlockHeader(block.header.number, BlockHeaderField::Proposer))
    } else if block.header.proof.bitmap@.len() != status.validators@.len() {
        Err(ConsensusError::VerifyBlockHeader(block.header.number, BlockHeaderField::Validator))
    } else if !has_quorum(status.validators@, block.header.proof.bitmap@) {
        Err(ConsensusError::VerifyBlockHeader(block.header.number, BlockHeaderField::Weight))
    } else {
        Ok(())
    }
}

/// Runs the structural block-header checks against the current status, in
/// order: previous hash, height of the carried proof, proof hash coherence,
/// order root, proposer membership, signer bitmap, and signer weight. The
/// carried proof certifies the previous block, and its aggregated signature
/// was already verified when that block was committed — the same certificate
/// arrives as the commit's proof argument — so here only its content is
/// re-checked: height, hash linkage, bitmap shape and signer weight.
pub fn check_block_structure(status: &ConsensusStatus, block: &Block) -> (r: Result<
    (),
    ConsensusError,
>)
    requires
        block.header.number >= 1,
    ensures
        r == block_structure_check(*status, *block),
        r is Ok ==> block.header.previous_hash == status.latest_hash,
        r is Ok ==> block.header.order_root == order_root_of(block.ordered_tx_hashes@),
        r is Ok ==> has_quorum(status.validators@, block.header.proof.bitmap@),
{
    if block.header.previous_hash != status.latest_hash {
        return Err(
            ConsensusError::InvalidPrevhash {
                expect: status.latest_hash,
                actual: block.header.previous_hash,
            },
        );
    }
    if block.header.proof.height != block.header.number - 1 {
        return Err(
            ConsensusError::InvalidProof {
                expect: block.header.number - 1,
                actual: block.header.proof.height,
            },
        );
    }
    if block.header.proof.block_hash != block.header.previous_hash {
        return Err(
            ConsensusError::VerifyBlockHeader(block.header.number, BlockHeaderField::ProofHash),
        );
    }
    let computed_root = compute_order_root(&block.ordered_tx_hashes);
    if block.header.order_root != computed_root {
        return Err(
            ConsensusError::InvalidOrderRoot {
                expect: computed_root,
                actual: block.header.order_root,
            },
        );
    }
    if !check_committee_contains(&status.validators, block.header.proposer) {
        return Err(
            ConsensusError::VerifyBlockHeader(block.header.number, BlockHeaderField::Proposer),
        );
    }
    if block.header.proof.bitmap.len() != status.validators.len() {
        return Err(
            ConsensusError::VerifyBlockHeader(block.header.number, BlockHeaderField::Validator),
        );
    }
    if !check_quorum(&status.validators, &block.header.proof.bitmap) {
        return Err(
            ConsensusError::VerifyBlockHeader(block.header.number, BlockHeaderField::Weight),
        );
    }
    Ok(())
}

/// The full candidate-block check: the structural checks, then the timestamp
/// bound against the local clock.
pub open spec fn block_check(status: ConsensusStatus, block: Block, now: u64) -> Result<
    (),
    ConsensusError,
> {
    if block_structure_check(status, block) is Err {
        block_structure_check(status, block)
    } else if !timestamp_valid(status.latest_timestamp, block.header.timestamp, now) {
        Err(ConsensusError::InvalidTimestamp)
    } else {
        Ok(())
    }
}

/// Validates a candidate block before a vote is cast: structure first, then
/// that its timestamp is monotonic and within the clock-skew bound of `now`.
pub fn check_block(status: &ConsensusStatus, block: &Block, now: u64) -> (r: Result<
    (),
    ConsensusError,
>)
    requires
        block.header.number >= 1,
    ensures
        r == block_check(*status, *block, now),
{
    match check_block_structure(status, block) {
        Err(e) => Err(e),
        Ok(()) => {
            let ts = block.header.timestamp;
            if ts < status.latest_timestamp || (ts > now && ts - now > crate::status::MAX_CLOCK_SKEW_MS) {
                Err(ConsensusError::InvalidTimestamp)
            } else {
                Ok(())
            }
        },
    }
}

/// The first failing check of a proof against the block it certifies and the
/// committee, or `Ok`. `sig_ok` is the outcome of verifying the aggregated
/// signature against the quorum public key, a consumed cryptographic
/// primitive.
pub open spec fn proof_check(
    block: Block,
    proof: Proof,
    vals: Seq<Validator>,
    sig_ok: bool,
) -> Result<(), ConsensusError> {
    let h = block.header.number;
    if proof.height != h {
        Err(ConsensusError::VerifyProof(h, BlockProofField::HeightMismatch(h, proof.height)))
    } else if proof.block_hash != hash_of_block(block) {
        Err(ConsensusError::VerifyProof(h, BlockProofField::HashMismatch))
    } else if proof.bitmap.len() != vals.len() {
        Err(ConsensusError::VerifyProof(h, BlockProofField::BitMap))
    } else if !sig_ok {
        Err(ConsensusError::VerifyProof(h, BlockProofField::Signature))
    } else if !has_quorum(vals, proof.bitmap@) {
        Err(ConsensusError::VerifyProof(h, BlockProofField::Weight))
    } else {
        Ok(())
    }
}

/// Validates a proof against the block it certifies: height, block hash,
/// signer bitmap, aggregated signature, then quorum weight. A proof the
/// engine accepts always carries signer weight at or above the quorum
/// threshold.
pub fn verify_proof(block: &Block, proof: &Proof, vals: &Vec<Validator>, sig_ok: bool) -> (r:
    Result<(), ConsensusError>)
    ensures
        r == proof_check(*block, *proof, vals@, sig_ok),
        r is Ok ==> proof.height == block.header.number && proof.block_hash == hash_of_block(
            *block,
        ),
        r is Ok ==> sig_ok && has_quorum(vals@, proof.bitmap@),
{
    let h = block.header.number;
    if proof.height != h {
        return Err(ConsensusError::VerifyProof(h, BlockProofField::HeightMismatch(h, proof.height)));
    }
    let bh = block_hash(block);
    if proof.block_hash != bh {
        return Err(ConsensusError::VerifyProof(h, BlockProofField::HashMismatch));
    }
    if proof.bitmap.len() != vals.len() {
        return Err(ConsensusError::VerifyProof(h, BlockProofField::BitMap));
    }
    if !sig_ok {
        return Err(ConsensusError::VerifyProof(h, BlockProofField::Signature));
    }
    if !check_quorum(vals, &proof.bitmap) {
        return Err(ConsensusError::VerifyProof(h, BlockProofField::Weight));
    }
    Ok(())
}

/// Compares the headers' roots against the roots recomputed by execution,
/// state root first.
pub open spec fn exec_roots_check(
    block: Block,
    state_root: crate::types::MerkleRoot,
    receipts_root: crate::types::MerkleRoot,
) -> Result<(), ConsensusError> {
    if block.header.state_root != state_root {
        Err(ConsensusError::InvalidStateRoot { expect: state_root, actual: block.header.state_root })
    } else if block.header.receipts_root != receipts_root {
        Err(
            ConsensusError::InvalidReceiptsRoot {
                expect: receipts_root,
                actual: block.header.receipts_root,
            },
        )
    } else {
        Ok(())
    }
}

/// Pre-commit check that the roots execution produced match the header.
pub fn check_exec_roots(
    block: &Block,
    state_root: crate::types::MerkleRoot,
    receipts_root: crate::types::MerkleRoot,
) -> (r: Result<(), ConsensusError>)
    ensures
        r == exec_roots_check(*block, state_root, receipts_root),
{
    if block.header.state_root != state_root {
        return Err(
            ConsensusError::InvalidStateRoot {
                expect: state_root,
                actual: block.header.state_root,
            },
        );
    }
    if block.header.receipts_root != receipts_root {
        return Err(
            ConsensusError::InvalidReceiptsRoot {
                expect: receipts_root,
                actual: block.header.receipts_root,
            },
        );
    }
    Ok(())
}

/// Well-formedness of a committed chain: heights are contiguous from genesis
/// at zero, every block after genesis links to its predecessor by hash, and
/// every block's order root is the root recomputed from its transaction-hash
/// list.
pub open spec fn chain_wf(chain: Seq<Block>) -> bool {
    &&& chain.len() >= 1
    &&& forall|i: int| 0 <= i < chain.len() ==> (#[trigger] chain[i]).header.number == i
    &&& forall|i: int|
        1 <= i < chain.len() ==> (#[trigger] chain[i]).header.previous_hash == hash_of_block(
            chain[i - 1],
        )
    &&& forall|i: int|
        0 <= i < chain.len() ==> (#[trigger] chain[i]).header.order_root == order_root_of(
            chain[i].ordered_tx_hashes@,
        )
}

/// What validation commit runs before applying a block: the structural
/// checks, then that the header's roots match the roots execution produced,
/// then the proof certifying the block itself, then that the execution
/// results line up with the block's transactions.
pub open spec fn commit_check(
    status: ConsensusStatus,
    block: Block,
    proof: Proof,
    receipts: Seq<Receipt>,
    exec_state_root: crate::types::MerkleRoot,
    exec_receipts_root: crate::types::MerkleRoot,
    sig_ok: bool,
) -> Result<(), ConsensusError> {
    if block_structure_check(status, block) is Err {
        block_structure_check(status, block)
    } else if exec_roots_check(block, exec_state_root, exec_receipts_root) is Err {
        exec_roots_check(block, exec_state_root, exec_receipts_root)
    } else if proof_check(block, proof, status.validators@, sig_ok) is Err {
        proof_check(block, proof, status.validators@, sig_ok)
    } else if receipts.len() != block.ordered_tx_hashes@.len() {
        Err(ConsensusError::InvalidStatusVec)
    } else {
        Ok(())
    }
}

/// The block-level consensus state machine: the committed chain, the receipts
/// recorded for it, the process-wide status snapshot, and the exclusive
/// synchronization lock.
pub struct ConsensusEngine {
    /// The committed blocks, genesis first.
    pub chain: Vec<Block>,
    /// Receipts recorded at commit, in commit order.
    pub receipts: Vec<Receipt>,
    /// The process-wide status snapshot.
    pub status: ConsensusStatus,
    /// Whether a synchronization pass holds the exclusive lock.
    pub sync_locked: bool,
}

impl ConsensusEngine {
    /// The engine's invariant: the chain is well formed and the status
    /// snapshot mirrors its tip.
    pub open spec fn wf(self) -> bool {
        &&& chain_wf(self.chain@)
        &&& self.status.validators@.len() > 0
        &&& self.status.latest_height == self.chain@.len() - 1
        &&& self.status.latest_hash == hash_of_block(self.chain@.last())
        &&& self.status.latest_timestamp == self.chain@.last().header.timestamp
    }

    /// Starts an engine from a genesis block and the committee.
    pub fn new(genesis: Block, validators: Vec<Validator>, interval: u64) -> (r: ConsensusEngine)
        requires
            genesis.header.number == 0,
            genesis.header.order_root == order_root_of(genesis.ordered_tx_hashes@),
            validators@.len() > 0,
        ensures
            r.wf(),
            r.chain@ == seq![genesis],
            r.receipts@ == Seq::<Receipt>::empty(),
            r.status.latest_height == 0,
            r.status.validators@ == validators@,
            r.status.interval == interval,
            !r.sync_locked,
    {
        let h = block_hash(&genesis);
        let ts = genesis.header.timestamp;
        let mut chain: Vec<Block> = Vec::new();
        chain.push(genesis);
        assert(chain@ =~= seq![genesis]);
        let status = ConsensusStatus {
            latest_height: 0,
            latest_hash: h,
            latest_timestamp: ts,
            validators,
            interval,
        };
        ConsensusEngine { chain, receipts: Vec::new(), status, sync_locked: false }
    }

    /// The latest committed block.
    pub fn latest_block(&self) -> (r: &Block)
        requires
            self.wf(),
        ensures
            *r == self.chain@.last(),
            r.header.number == self.status.latest_height,
    {
        let last = self.chain.len() - 1;
        &self.chain[last]
    }

    /// The committed block at a height: present exactly when that height is
    /// committed, absent rather than an error otherwise.
    pub fn get_block(&self, height: u64) -> (r: Option<&Block>)
        requires
            self.wf(),
        ensures
            match r {
                Some(b) => height <= self.status.latest_height && *b == self.chain@[height as int]
                    && b.header.number == height,
                None => height > self.status.latest_height,
            },
    {
        let n = self.chain.len();
        if height <= self.status.latest_height {
            proof {
                assert(self.status.latest_height == self.chain@.len() - 1);
                assert(height < n);
            }
            let i = height as usize;
            let b = &self.chain[i];
            proof {
                assert(self.chain@[height as int].header.number == height);
            }
            Some(b)
        } else {
            None
        }
    }

    /// Applies one fully validated block to the chain and moves the status
    /// snapshot to the new tip. This is the single commit application shared
    /// by live consensus and synchronization: both validate first, then come
    /// through here.
    pub(crate) fn apply_block(&mut self, block: Block)
        requires
            old(self).wf(),
            block.header.number == old(self).status.latest_height + 1,
            block.header.previous_hash == old(self).status.latest_hash,
            block.header.order_root == order_root_of(block.ordered_tx_hashes@),
        ensures
            final(self).wf(),
            final(self).chain@ == old(self).chain@.push(block),
            final(self).receipts@ == old(self).receipts@,
            final(self).status.latest_height == block.header.number,
            final(self).status.latest_hash == hash_of_block(block),
            final(self).status.latest_timestamp == block.header.timestamp,
            final(self).status.validators@ == old(self).status.validators@,
            final(self).status.interval == old(self).status.interval,
            final(self).sync_locked == old(self).sync_locked,
    {
        let h = block_hash(&block);
        let ts = block.header.timestamp;
        self.status.latest_height = block.header.number;
        self.status.latest_hash = h;
        self.status.latest_timestamp = ts;
        let ghost old_chain = self.chain@;
        self.chain.push(block);
        proof {
            let nc = self.chain@;
            assert(nc == old_chain.push(block));
            assert(nc.last() == block);
            assert forall|j: int| 0 <= j < nc.len() implies (#[trigger] nc[j]).header.number
                == j by {
                if j < old_chain.len() {
                    assert(nc[j] == old_chain[j]);
                }
            }
            assert forall|j: int| 1 <= j < nc.len() implies (#[trigger] nc[j]).header.previous_hash
                == hash_of_block(nc[j - 1]) by {
                if j < old_chain.len() {
                    assert(nc[j] == old_chain[j]);
                    assert(nc[j - 1] == old_chain[j - 1]);
                } else {
                    assert(nc[j] == block);
                    assert(nc[j - 1] == old_chain.last());
                }
            }
            assert forall|j: int| 0 <= j < nc.len() implies (#[trigger] nc[j]).header.order_root
                == order_root_of(nc[j].ordered_tx_hashes@) by {
                if j < old_chain.len() {
                    assert(nc[j] == old_chain[j]);
                }
            }
        }
    }

    /// Commits a block with the proof certifying it, its execution receipts,
    /// and the roots execution produced. Fails fast with `LockInSync` while a
    /// synchronization pass holds the lock; is a no-op for a height already
    /// committed, so a redelivered commit after a crash-restart is harmless;
    /// re-validates the block, the execution roots and the proof before
    /// applying; and on any failure leaves the engine exactly as it was.
    pub fn commit(
        &mut self,
        block: Block,
        proof: Proof,
        receipts: Vec<Receipt>,
        exec_state_root: crate::types::MerkleRoot,
        exec_receipts_root: crate::types::MerkleRoot,
        sig_ok: bool,
    ) -> (r: Result<CommitOutcome, ConsensusError>)
        requires
            old(self).wf(),
        ensures
            final(self).wf(),
            final(self).sync_locked == old(self).sync_locked,
            final(self).status.validators@ == old(self).status.validators@,
            final(self).status.interval == old(self).status.interval,
            old(self).sync_locked ==> r == Err::<CommitOutcome, ConsensusError>(
                ConsensusError::LockInSync,
            ) && *final(self) == *old(self),
            !old(self).sync_locked && block.header.number <= old(self).status.latest_height ==> r
                == Ok::<CommitOutcome, ConsensusError>(CommitOutcome::AlreadyCommitted)
                && *final(self) == *old(self),
            !old(self).sync_locked && block.header.number > old(self).status.latest_height + 1
                ==> r == Err::<CommitOutcome, ConsensusError>(
                ConsensusError::MissingBlockHeader((block.header.number - 1) as u64),
            ) && *final(self) == *old(self),
            !old(self).sync_locked && block.header.number == old(self).status.latest_height + 1
                ==> (match commit_check(
                old(self).status,
                block,
                proof,
                receipts@,
                exec_state_root,
                exec_receipts_root,
                sig_ok,
            ) {
                Err(e) => r == Err::<CommitOutcome, ConsensusError>(e) && *final(self) == *old(self),
                Ok(()) => r == Ok::<CommitOutcome, ConsensusError>(CommitOutcome::Committed)
                    && final(self).chain@ == old(self).chain@.push(block) && final(self).receipts@
                    == old(self).receipts@ + receipts@ && final(self).status.latest_height
                    == block.header.number && final(self).status.latest_hash == hash_of_block(
                    block,
                ) && final(self).status.latest_timestamp == block.header.timestamp,
            }),
    {
        if self.sync_locked {
            return Err(ConsensusError::LockInSync);
        }
        let number = block.header.number;
        if number <= self.status.latest_height {
            return Ok(CommitOutcome::AlreadyCommitted);
        }
        if number - 1 > self.status.latest_height {
            return Err(ConsensusError::MissingBlockHeader(number - 1));
        }
        match check_block_structure(&self.status, &block) {
            Err(e) => {
                return Err(e);
            },
            Ok(()) => {},
        }
        match check_exec_roots(&block, exec_state_root, exec_receipts_root) {
            Err(e) => {
                return Err(e);
            },
            Ok(()) => {},
        }
        match verify_proof(&block, &proof, &self.status.validators, sig_ok) {
            Err(e) => {
                return Err(e);
            },
            Ok(()) => {},
        }
        if receipts.len() != block.ordered_tx_hashes.len() {
            return Err(ConsensusError::InvalidStatusVec);
        }
        let n = receipts.len();
        let mut i: usize = 0;
        while i < n
            invariant
                0 <= i <= n,
                n == receipts@.len(),
                self.receipts@ == old(self).receipts@ + receipts@.take(i as int),
                self.chain == old(self).chain,
                self.status == old(self).status,
                self.sync_locked == old(self).sync_locked,
            decreases n - i,
        {
            assert(receipts@.take(i as int + 1) =~= receipts@.take(i as int).push(
                receipts@[i as int],
            ));
            self.receipts.push(receipts[i]);
            i = i + 1;
        }
        assert(receipts@.take(n as int) =~= receipts@);
        let ghost pre_receipts = self.receipts@;
        self.apply_block(block);
        assert(self.receipts@ == pre_receipts);
        Ok(CommitOutcome::Committed)
    }
}

/// The lifecycle stage of one candidate block.
#[derive(Clone, Copy, Debug, PartialEq, Eq, Structural)]
pub enum BlockStage {
    /// Disseminated for the round, not yet validated.
    Proposed,
    /// Passed every validation check.
    Checked,
    /// A vote was cast for it.
    Voted,
    /// Applied to the chain; terminal.
    Committed,
    /// Failed validation; terminal, never processed further.
    Rejected,
}

/// An observed event in a candidate block's life.
#[derive(Clone, Copy, Debug, PartialEq, Eq, Structural)]
pub enum StageEvent {
    /// Validation finished; the payload says whether every check passed.
    Validated(bool),
    /// A vote was cast.
    VoteCast,
    /// The commit was applied.
    CommitApplied,
}

/// The lifecycle: Proposed moves to Checked or Rejected on validation, Checked
/// moves to Voted, Voted moves to Committed. Committed and Rejected are
/// terminal — a committed block is never re-validated, only acknowledged — and
/// an ill-timed event changes nothing.
pub open spec fn stage_step(s: BlockStage, ev: StageEvent) -> BlockStage {
    match (s, ev) {
        (BlockStage::Proposed, StageEvent::Validated(ok)) => if ok {
            BlockStage::Checked
        } else {
            BlockStage::Rejected
        },
        (BlockStage::Checked, StageEvent::VoteCast) => BlockStage::Voted,
        (BlockStage::Voted, StageEvent::CommitApplied) => BlockStage::Committed,
        _ => s,
    }
}

/// Advances a candidate block's lifecycle by one observed event.
pub fn advance_stage(s: BlockStage, ev: StageEvent) -> (r: BlockStage)
    ensures
        r == stage_step(s, ev),
{
    match (s, ev) {
        (BlockStage::Proposed, StageEvent::Validated(ok)) => if ok {
            BlockStage::Checked
        } else {
            BlockStage::Rejected
        },
        (BlockStage::Checked, StageEvent::VoteCast) => BlockStage::Voted,
        (BlockStage::Voted, StageEvent::CommitApplied) => BlockStage::Committed,
        _ => s,
    }
}

/// Law: Committed and Rejected are terminal; no event leaves either stage.
pub proof fn lemma_terminal_stages(ev: StageEvent)
    ensures
        stage_step(BlockStage::Committed, ev) == BlockStage::Committed,
        stage_step(BlockStage::Rejected, ev) == BlockStage::Rejected,
{
}

/// Law: in every well-formed engine state, the committed blocks' heights are
/// contiguous starting at genesis, and each block's `previous_hash` is the
/// hash of the block before it.
pub proof fn lemma_committed_chain_linked(e: ConsensusEngine)
    requires
        e.wf(),
    ensures
        e.chain@.len() >= 1,
        e.chain@[0].header.number == 0,
        forall|i: int| 0 <= i < e.chain@.len() ==> (#[trigger] e.chain@[i]).header.number == i,
        forall|i: int|
            1 <= i < e.chain@.len() ==> (#[trigger] e.chain@[i]).header.previous_hash
                == hash_of_block(e.chain@[i - 1]),
{
}

/// Law: in every well-formed engine state, recomputing the order root over a
/// committed block's transaction-hash list reproduces the root its header
/// declares.
pub proof fn lemma_committed_order_roots(e: ConsensusEngine)
    requires
        e.wf(),
    ensures
        forall|i: int|
            0 <= i < e.chain@.len() ==> (#[trigger] e.chain@[i]).header.order_root
                == order_root_of(e.chain@[i].ordered_tx_hashes@),
{
}

} // verus!
