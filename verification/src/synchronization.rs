use vstd::prelude::*;
use crate::ConsensusError;
use crate::engine::{
    block_structure_check, check_block_structure, proof_check, verify_proof, ConsensusEngine,
};
use crate::digest::hash_of_block;
use crate::status::{has_quorum, ConsensusStatus};
use crate::types::{block_matches, check_txs_match, copy_block, txs_match, Block, Proof,
    SignedTransaction, Validator};

verus! {

/// A block paired with its full transaction bodies, the unit exchanged during
/// synchronization: a bare block only carries transaction hashes.
#[derive(Clone, Debug)]
pub struct RichBlock {
    pub block: Block,
    pub txs: Vec<SignedTransaction>,
}

/// One unit a synchronization pass consumes: a rich block, the proof
/// certifying it, and the outcome of verifying that proof's aggregated
/// signature against the quorum public key — signature verification is a
/// consumed cryptographic primitive, performed by the caller.
#[derive(Clone, Debug)]
pub struct SyncEntry {
    pub rich: RichBlock,
    pub proof: Proof,
    pub proof_sig_valid: bool,
}

/// Index of the first entry carrying the block of the given height.
pub open spec fn find_entry(entries: Seq<SyncEntry>, h: u64) -> Option<int>
    decreases entries.len(),
{
    if entries.len() == 0 {
        None
    } else if entries[0].rich.block.header.number == h {
        Some(0int)
    } else {
        match find_entry(entries.drop_first(), h) {
            None => None,
            Some(j) => Some(j + 1),
        }
    }
}

proof fn lemma_find_entry_at(entries: Seq<SyncEntry>, h: u64, j: int)
    requires
        0 <= j < entries.len(),
        entries[j].rich.block.header.number == h,
        forall|k: int| 0 <= k < j ==> entries[k].rich.block.header.number != h,
    ensures
        find_entry(entries, h) == Some(j),
    decreases j,
{
    if j > 0 {
        let tail = entries.drop_first();
        assert(tail[j - 1] == entries[j]);
        assert forall|k: int| 0 <= k < j - 1 implies tail[k].rich.block.header.number != h by {
            assert(tail[k] == entries[k + 1]);
        }
        lemma_find_entry_at(tail, h, j - 1);
    }
}

proof fn lemma_find_entry_none(entries: Seq<SyncEntry>, h: u64)
    requires
        forall|k: int| 0 <= k < entries.len() ==> entries[k].rich.block.header.number != h,
    ensures
        find_entry(entries, h) is None,
    decreases entries.len(),
{
    if entries.len() > 0 {
        let tail = entries.drop_first();
        assert forall|k: int| 0 <= k < tail.len() implies tail[k].rich.block.header.number
            != h by {
            assert(tail[k] == entries[k + 1]);
        }
        lemma_find_entry_none(tail, h);
    }
}

/// Finds the first entry carrying the block of the given height, whatever
/// order the entries arrived in.
pub fn find_entry_index(entries: &Vec<SyncEntry>, h: u64) -> (r: Option<usize>)
    ensures
        match r {
            Some(j) => find_entry(entries@, h) == Some(j as int) && j < entries@.len()
                && entries@[j as int].rich.block.header.number == h,
            None => find_entry(entries@, h) is None,
        },
{
    let n = entries.len();
    let mut i: usize = 0;
    while i < n
        invariant
            0 <= i <= n,
            n == entries@.len(),
            forall|k: int| 0 <= k < i ==> entries@[k].rich.block.header.number != h,
        decreases n - i,
    {
        if entries[i].rich.block.header.number == h {
            proof {
                lemma_find_entry_at(entries@, h, i as int);
            }
            return Some(i);
        }
        i = i + 1;
    }
    proof {
        lemma_find_entry_none(entries@, h);
    }
    None
}

/// What a synchronization pass established of an entry before committing its
/// block: the aggregated signature verified, the marked signers reached
/// quorum over the committee, the proof certifies exactly this block, and the
/// carried transactions match the block's hash list position by position.
pub open spec fn entry_verified(entry: SyncEntry, committed: Block, vals: Seq<Validator>) -> bool {
    &&& block_matches(entry.rich.block, committed)
    &&& entry.proof_sig_valid
    &&& has_quorum(vals, entry.proof.bitmap@)
    &&& entry.proof.height == committed.header.number
    &&& entry.proof.block_hash == hash_of_block(committed)
    &&& txs_match(entry.rich.txs@, committed.ordered_tx_hashes@)
}

/// The first failing check of one synchronization step, or `Ok`: the proof
/// certifying the block, then the block's own structural checks, then that
/// every transaction's hash matches its claimed position.
pub open spec fn sync_step_check(status: ConsensusStatus, entry: SyncEntry) -> Result<
    (),
    ConsensusError,
> {
    if proof_check(entry.rich.block, entry.proof, status.validators@, entry.proof_sig_valid)
        is Err {
        proof_check(entry.rich.block, entry.proof, status.validators@, entry.proof_sig_valid)
    } else if block_structure_check(status, entry.rich.block) is Err {
        block_structure_check(status, entry.rich.block)
    } else if !txs_match(entry.rich.txs@, entry.rich.block.ordered_tx_hashes@) {
        Err(ConsensusError::VerifyTransaction(entry.rich.block.header.number))
    } else {
        Ok(())
    }
}

/// What a synchronization pass finds at one height: the entry for that height
/// if any arrived, and the first failing check of that entry.
pub open spec fn sync_height_check(
    status: ConsensusStatus,
    entries: Seq<SyncEntry>,
    h: u64,
) -> Result<(), ConsensusError> {
    match find_entry(entries, h) {
        None => Err(ConsensusError::MissingBlockHeader(h)),
        Some(j) => sync_step_check(status, entries[j]),
    }
}

proof fn lemma_find_entry_height(entries: Seq<SyncEntry>, h: u64)
    requires
        find_entry(entries, h) is Some,
    ensures
        ({
            let j = find_entry(entries, h).unwrap();
            0 <= j < entries.len() && entries[j].rich.block.header.number == h
        }),
    decreases entries.len(),
{
    if entries.len() > 0 && entries[0].rich.block.header.number != h {
        let tail = entries.drop_first();
        lemma_find_entry_height(tail, h);
        let j = find_entry(tail, h).unwrap();
        assert(entries[j + 1] == tail[j]);
    }
}

/// Law: when the check of the heights a pass walks reports a proof failure,
/// it reports it for exactly the height it was checking — so a pass that
/// returns `VerifyProof(h, f)` stopped with `h` as its first uncommitted
/// height: every height below `h` committed, nothing at or above it.
pub proof fn lemma_sync_abort_height(
    status: ConsensusStatus,
    entries: Seq<SyncEntry>,
    next: u64,
    h: u64,
    f: crate::BlockProofField,
)
    requires
        sync_height_check(status, entries, next) == Err::<(), ConsensusError>(
            ConsensusError::VerifyProof(h, f),
        ),
    ensures
        h == next,
{
    match find_entry(entries, next) {
        None => {
        },
        Some(j) => {
            lemma_find_entry_height(entries, next);
            assert(entries[j].rich.block.header.number == next);
        },
    }
}

/// Pulls the engine from its latest height up to `high - 1` out of the given
/// entries, committing strictly in height order whatever order the entries
/// arrived in. Holds the exclusive synchronization lock for the whole pass —
/// a live commit meanwhile fails fast with `LockInSync` — and releases it
/// before returning. An inconsistent range aborts with `ConfusedMetadata` and
/// no side effect; a height whose entry is missing or fails a check aborts
/// the pass at that height, committing nothing at or above it. Application
/// goes through the same `apply_block` path live commits use; re-executing
/// the caught-up blocks for their receipts stays with the execution layer,
/// so the receipt store is untouched here.
pub fn sync_pass(engine: &mut ConsensusEngine, low: u64, high: u64, entries: &Vec<SyncEntry>) -> (r:
    Result<(), ConsensusError>)
    requires
        old(engine).wf(),
    ensures
        final(engine).wf(),
        final(engine).sync_locked == old(engine).sync_locked,
        final(engine).status.validators@ == old(engine).status.validators@,
        final(engine).status.interval == old(engine).status.interval,
        final(engine).receipts@ == old(engine).receipts@,
        old(engine).chain@.is_prefix_of(final(engine).chain@),
        old(engine).sync_locked ==> r == Err::<(), ConsensusError>(ConsensusError::LockInSync)
            && *final(engine) == *old(engine),
        !old(engine).sync_locked && (low >= high || low != old(engine).status.latest_height + 1)
            ==> r == Err::<(), ConsensusError>(ConsensusError::ConfusedMetadata(low, high))
            && *final(engine) == *old(engine),
        !old(engine).sync_locked && low < high && low == old(engine).status.latest_height + 1
            ==> {
            &&& old(engine).status.latest_height <= final(engine).status.latest_height < high
            &&& (r is Ok ==> final(engine).status.latest_height + 1 == high)
            &&& (r is Err ==> final(engine).status.latest_height + 1 < high && r
                == sync_height_check(
                final(engine).status,
                entries@,
                (final(engine).status.latest_height + 1) as u64,
            ))
            &&& forall|i: int|
                old(engine).chain@.len() <= i < final(engine).chain@.len() ==> exists|j: int|
                    0 <= j < entries@.len() && entry_verified(
                        entries@[j],
                        #[trigger] final(engine).chain@[i],
                        old(engine).status.validators@,
                    )
        },
{
    if engine.sync_locked {
        return Err(ConsensusError::LockInSync);
    }
    if low >= high {
        return Err(ConsensusError::ConfusedMetadata(low, high));
    }
    if low == 0 || low - 1 != engine.status.latest_height {
        return Err(ConsensusError::ConfusedMetadata(low, high));
    }
    engine.sync_locked = true;
    let mut failed = false;
    let mut result: Result<(), ConsensusError> = Ok(());
    while !failed && engine.status.latest_height + 1 < high
        invariant
            engine.wf(),
            engine.sync_locked,
            engine.status.validators@ == old(engine).status.validators@,
            engine.status.interval == old(engine).status.interval,
            engine.receipts@ == old(engine).receipts@,
            old(engine).chain@.is_prefix_of(engine.chain@),
            old(engine).status.latest_height <= engine.status.latest_height < high,
            !failed ==> result == Ok::<(), ConsensusError>(()),
            failed ==> engine.status.latest_height + 1 < high && result is Err && result
                == sync_height_check(
                engine.status,
                entries@,
                (engine.status.latest_height + 1) as u64,
            ),
            forall|i: int|
                old(engine).chain@.len() <= i < engine.chain@.len() ==> exists|j: int|
                    0 <= j < entries@.len() && entry_verified(
                        entries@[j],
                        #[trigger] engine.chain@[i],
                        old(engine).status.validators@,
                    ),
        decreases high - engine.status.latest_height, (if failed {
            0int
        } else {
            1int
        }),
    {
        let h = engine.status.latest_height + 1;
        match find_entry_index(entries, h) {
            None => {
                result = Err(ConsensusError::MissingBlockHeader(h));
                failed = true;
            },
            Some(j) => {
                let entry = &entries[j];
                match verify_proof(
                    &entry.rich.block,
                    &entry.proof,
                    &engine.status.validators,
                    entry.proof_sig_valid,
                ) {
                    Err(e) => {
                        result = Err(e);
                        failed = true;
                    },
                    Ok(()) => {
                        match check_block_structure(&engine.status, &entry.rich.block) {
                            Err(e) => {
                                result = Err(e);
                                failed = true;
                            },
                            Ok(()) => {
                                if !check_txs_match(
                                    &entry.rich.txs,
                                    &entry.rich.block.ordered_tx_hashes,
                                ) {
                                    result = Err(ConsensusError::VerifyTransaction(h));
                                    failed = true;
                                } else {
                                    let blk = copy_block(&entry.rich.block);
                                    let ghost oc = engine.chain@;
                                    proof {
                                        crate::digest::lemma_block_matches_same_hash(
                                            entry.rich.block,
                                            blk,
                                        );
                                    }
                                    engine.apply_block(blk);
                                    proof {
                                        let nc = engine.chain@;
                                        assert(nc == oc.push(blk));
                                        assert(entry_verified(
                                            entries@[j as int],
                                            blk,
                                            old(engine).status.validators@,
                                        ));
                                        assert forall|i: int|
                                            old(engine).chain@.len() <= i < nc.len() implies exists|
                                                jj: int,
                                            |
                                                0 <= jj < entries@.len() && entry_verified(
                                                    entries@[jj],
                                                    #[trigger] nc[i],
                                                    old(engine).status.validators@,
                                                ) by {
                                            if i < oc.len() {
                                                assert(nc[i] == oc[i]);
                                            } else {
                                                assert(nc[i] == blk);
                                            }
                                        }
                                    }
                                }
                            },
                        }
                    },
                }
            },
        }
    }
    engine.sync_locked = false;
    result
}

} // verus!
