use vstd::prelude::*;
use crate::ConsensusError;
use crate::digest::{compute_order_root, order_root_of};
use crate::status::ConsensusStatus;
use crate::types::{
    copy_txs, txs_match, Address, Block, BlockHeader, MerkleRoot, Pill, Proof, SignedTransaction,
};
use crate::wal::SignedTxsWAL;

verus! {

/// Assembles the proposal for the next height: the candidate transactions are
/// taken in pool order, never re-sorted; the order root is computed over
/// their hashes; and the chosen set is recorded in the write-ahead log before
/// the proposal is handed back, so durability precedes the send and a crash
/// after proposing never loses the proposal content.
pub fn build_proposal(
    wal: &mut SignedTxsWAL,
    status: &ConsensusStatus,
    pool_txs: Vec<SignedTransaction>,
    round: u64,
    timestamp: u64,
    proposer: Address,
    prev_proof: Proof,
    state_root: MerkleRoot,
    receipts_root: MerkleRoot,
) -> (r: Pill)
    requires
        old(wal).wf(),
        status.latest_height < u64::MAX,
        old(wal).records@.len() > 0 ==> old(wal).records@.last().height <= status.latest_height
            + 1,
    ensures
        final(wal).wf(),
        final(wal).records@.len() == old(wal).records@.len() + 1,
        final(wal).records@.drop_last() == old(wal).records@,
        final(wal).records@.last().height == status.latest_height + 1,
        final(wal).records@.last().round == round,
        final(wal).records@.last().txs@ == pool_txs@,
        r.block.header.number == status.latest_height + 1,
        r.block.header.previous_hash == status.latest_hash,
        r.block.header.order_root == order_root_of(r.block.ordered_tx_hashes@),
        r.block.header.state_root == state_root,
        r.block.header.receipts_root == receipts_root,
        r.block.header.proposer == proposer,
        r.block.header.timestamp == timestamp,
        r.block.header.proof == prev_proof,
        txs_match(pool_txs@, r.block.ordered_tx_hashes@),
        r.signed_txs@ == pool_txs@,
{
    let number = status.latest_height + 1;
    let n = pool_txs.len();
    let mut hashes: Vec<crate::types::Hash> = Vec::new();
    let mut i: usize = 0;
    while i < n
        invariant
            0 <= i <= n,
            n == pool_txs@.len(),
            hashes@.len() == i,
            forall|k: int| 0 <= k < i ==> #[trigger] hashes@[k] == pool_txs@[k].tx_hash,
        decreases n - i,
    {
        hashes.push(pool_txs[i].tx_hash);
        i = i + 1;
    }
    let root = compute_order_root(&hashes);
    let wal_txs = copy_txs(&pool_txs);
    wal.append(number, round, wal_txs);
    proof {
        assert(wal.records@.drop_last() =~= old(wal).records@);
    }
    let header = BlockHeader {
        number,
        previous_hash: status.latest_hash,
        order_root: root,
        state_root,
        receipts_root,
        proposer,
        timestamp,
        proof: prev_proof,
    };
    Pill { block: Block { header, ordered_tx_hashes: hashes }, signed_txs: pool_txs }
}

/// What the write-ahead log looks like after commit reclaimed it: a suffix of
/// the old records in which everything below the committed height is gone and
/// everything at or above it is intact, in order.
pub open spec fn wal_reclaimed(
    old_records: Seq<crate::wal::TxWalRecord>,
    new_records: Seq<crate::wal::TxWalRecord>,
    height: u64,
) -> bool {
    exists|k: int|
        0 <= k <= old_records.len() && new_records == old_records.skip(k) && (forall|i: int|
            0 <= i < k ==> old_records[i].height < height) && (forall|i: int|
            k <= i < old_records.len() ==> old_records[i].height >= height)
}

/// Commits through the engine — the same outcome, case for case, as
/// `ConsensusEngine::commit` — and, exactly when the block was applied,
/// reclaims the write-ahead-log records the commit made unnecessary for crash
/// recovery: everything recorded below the height just committed. On any
/// other outcome both the engine and the log are left exactly as they were.
pub fn commit_and_reclaim(
    engine: &mut crate::engine::ConsensusEngine,
    wal: &mut SignedTxsWAL,
    block: Block,
    proof: Proof,
    receipts: Vec<crate::types::Receipt>,
    exec_state_root: MerkleRoot,
    exec_receipts_root: MerkleRoot,
    sig_ok: bool,
) -> (r: Result<crate::types::CommitOutcome, ConsensusError>)
    requires
        old(engine).wf(),
        old(wal).wf(),
    ensures
        final(engine).wf(),
        final(wal).wf(),
        final(engine).sync_locked == old(engine).sync_locked,
        final(engine).status.validators@ == old(engine).status.validators@,
        final(engine).status.interval == old(engine).status.interval,
        old(engine).sync_locked ==> r == Err::<crate::types::CommitOutcome, ConsensusError>(
            ConsensusError::LockInSync,
        ) && *final(engine) == *old(engine) && *final(wal) == *old(wal),
        !old(engine).sync_locked && block.header.number <= old(engine).status.latest_height ==> r
            == Ok::<crate::types::CommitOutcome, ConsensusError>(
            crate::types::CommitOutcome::AlreadyCommitted,
        ) && *final(engine) == *old(engine) && *final(wal) == *old(wal),
        !old(engine).sync_locked && block.header.number > old(engine).status.latest_height + 1
            ==> r == Err::<crate::types::CommitOutcome, ConsensusError>(
            ConsensusError::MissingBlockHeader((block.header.number - 1) as u64),
        ) && *final(engine) == *old(engine) && *final(wal) == *old(wal),
        !old(engine).sync_locked && block.header.number == old(engine).status.latest_height + 1
            ==> (match crate::engine::commit_check(
            old(engine).status,
            block,
            proof,
            receipts@,
            exec_state_root,
            exec_receipts_root,
            sig_ok,
        ) {
            Err(e) => r == Err::<crate::types::CommitOutcome, ConsensusError>(e) && *final(engine)
                == *old(engine) && *final(wal) == *old(wal),
            Ok(()) => r == Ok::<crate::types::CommitOutcome, ConsensusError>(
                crate::types::CommitOutcome::Committed,
            ) && final(engine).chain@ == old(engine).chain@.push(block) && final(engine).receipts@
                == old(engine).receipts@ + receipts@ && final(engine).status.latest_height
                == block.header.number && final(engine).status.latest_hash
                == crate::digest::hash_of_block(block) && wal_reclaimed(
                old(wal).records@,
                final(wal).records@,
                block.header.number,
            ),
        }),
{
    let number = block.header.number;
    let outcome = engine.commit(block, proof, receipts, exec_state_root, exec_receipts_root, sig_ok);
    match outcome {
        Ok(crate::types::CommitOutcome::Committed) => {
            wal.truncate_before(number);
            Ok(crate::types::CommitOutcome::Committed)
        },
        other => other,
    }
}

/// Re-checks a proposal payload against its own block header: the order root
/// recomputed from the hashes of the carried transactions must be exactly the
/// root the header declares.
pub fn check_proposal(pill: &Pill) -> (r: Result<(), ConsensusError>)
    ensures
        r is Ok <==> order_root_of(
            pill.signed_txs@.map(|i: int, t: SignedTransaction| t.tx_hash),
        ) == pill.block.header.order_root,
        r is Err ==> r == Err::<(), ConsensusError>(
            ConsensusError::InvalidOrderSignedTransactionsHash {
                expect: pill.block.header.order_root,
                actual: order_root_of(
                    pill.signed_txs@.map(|i: int, t: SignedTransaction| t.tx_hash),
                ),
            },
        ),
{
    let n = pill.signed_txs.len();
    let mut hashes: Vec<crate::types::Hash> = Vec::new();
    let mut i: usize = 0;
    while i < n
        invariant
            0 <= i <= n,
            n == pill.signed_txs@.len(),
            hashes@ == pill.signed_txs@.map(|k: int, t: SignedTransaction| t.tx_hash).take(
                i as int,
            ),
        decreases n - i,
    {
        hashes.push(pill.signed_txs[i].tx_hash);
        assert(pill.signed_txs@.map(|k: int, t: SignedTransaction| t.tx_hash).take(i as int + 1)
            =~= pill.signed_txs@.map(|k: int, t: SignedTransaction| t.tx_hash).take(
            i as int,
        ).push(pill.signed_txs@[i as int].tx_hash));
        i = i + 1;
    }
    assert(pill.signed_txs@.map(|k: int, t: SignedTransaction| t.tx_hash).take(n as int)
        =~= pill.signed_txs@.map(|k: int, t: SignedTransaction| t.tx_hash));
    let actual = compute_order_root(&hashes);
    if actual != pill.block.header.order_root {
        return Err(
            ConsensusError::InvalidOrderSignedTransactionsHash {
                expect: pill.block.header.order_root,
                actual,
            },
        );
    }
    Ok(())
}

} // verus!
