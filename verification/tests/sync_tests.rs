use consensus_core::digest::block_hash;
use consensus_core::engine::ConsensusEngine;
use consensus_core::synchronization::{sync_pass, RichBlock, SyncEntry};
use consensus_core::types::{
    Address, Block, BlockHeader, CommitOutcome, Proof, Receipt, SignedTransaction, Validator,
};
use consensus_core::{BlockProofField, ConsensusError};

fn hash(x: u64) -> consensus_core::types::Hash {
    consensus_core::types::Hash(x)
}

fn committee(n: u64) -> Vec<Validator> {
    let mut v = Vec::new();
    let mut k: u64 = 0;
    while k < n {
        v.push(Validator { address: Address(k + 1), propose_weight: 1, vote_weight: 1 });
        k += 1;
    }
    v
}

fn block_with(
    number: u64,
    prev: consensus_core::types::Hash,
    tx_words: &[u64],
    timestamp: u64,
    nvals: usize,
) -> Block {
    let mut hashes = Vec::new();
    for w in tx_words {
        hashes.push(hash(*w));
    }
    let order_root = consensus_core::digest::compute_order_root(&hashes);
    Block {
        header: BlockHeader {
            number,
            previous_hash: prev,
            order_root,
            state_root: hash(0),
            receipts_root: hash(0),
            proposer: Address(1),
            timestamp,
            proof: Proof {
                height: number.wrapping_sub(1),
                round: 0,
                block_hash: prev,
                bitmap: vec![true; nvals],
                signature: 1,
            },
        },
        ordered_tx_hashes: hashes,
    }
}

fn new_engine(nvals: u64) -> ConsensusEngine {
    let genesis = block_with(0, hash(0), &[], 0, nvals as usize);
    ConsensusEngine::new(genesis, committee(nvals), 3000)
}

fn entry_for(block: Block, nvals: usize, sig_ok: bool) -> SyncEntry {
    let mut txs = Vec::new();
    for h in &block.ordered_tx_hashes {
        txs.push(SignedTransaction { tx_hash: *h, signature: 0 });
    }
    let proof = Proof {
        height: block.header.number,
        round: 0,
        block_hash: block_hash(&block),
        bitmap: vec![true; nvals],
        signature: 2,
    };
    SyncEntry { rich: RichBlock { block, txs }, proof, proof_sig_valid: sig_ok }
}

/// Builds the chain of blocks `from..=to` on top of the engine's tip, without
/// committing them.
fn chain_from_tip(engine: &ConsensusEngine, from: u64, to: u64, nvals: usize) -> Vec<Block> {
    let mut blocks = Vec::new();
    let mut prev = engine.status.latest_hash;
    let mut ts = engine.status.latest_timestamp;
    let mut h = from;
    while h <= to {
        ts += 1;
        let b = block_with(h, prev, &[h * 10], ts, nvals);
        prev = block_hash(&b);
        blocks.push(b);
        h += 1;
    }
    blocks
}

#[test]
fn test_sync_commits_out_of_order_arrivals_in_order() {
    let mut engine = new_engine(4);
    let blocks = chain_from_tip(&engine, 1, 3, 4);
    // Entries arrive out of height order, as from multiple peers.
    let entries = vec![
        entry_for(blocks[2].clone(), 4, true),
        entry_for(blocks[0].clone(), 4, true),
        entry_for(blocks[1].clone(), 4, true),
    ];
    let r = sync_pass(&mut engine, 1, 4, &entries);
    assert_eq!(r, Ok(()));
    assert_eq!(engine.status.latest_height, 3);
    assert_eq!(engine.chain.len(), 4);
    let mut i = 1;
    while i < engine.chain.len() {
        assert_eq!(engine.chain[i].header.number as usize, i);
        assert_eq!(
            engine.chain[i].header.previous_hash,
            block_hash(&engine.chain[i - 1])
        );
        i += 1;
    }
}

#[test]
fn test_sync_scenario_lagging_node() {
    // Local height 100, network height 103.
    let mut engine = new_engine(4);
    let mut h: u64 = 1;
    while h <= 100 {
        let blocks = chain_from_tip(&engine, h, h, 4);
        let b = blocks.into_iter().next().unwrap();
        let proof = Proof {
            height: b.header.number,
            round: 0,
            block_hash: block_hash(&b),
            bitmap: vec![true; 4],
            signature: 2,
        };
        let mut receipts = Vec::new();
        for th in &b.ordered_tx_hashes {
            receipts.push(Receipt { tx_hash: *th, exit_code: 0 });
        }
        assert_eq!(engine.commit(b, proof, receipts, hash(0), hash(0), true), Ok(CommitOutcome::Committed));
        h += 1;
    }
    assert_eq!(engine.status.latest_height, 100);
    // Heights 101..=103 are pulled; 102's proof fails signature verification.
    let blocks = chain_from_tip(&engine, 101, 103, 4);
    let entries = vec![
        entry_for(blocks[0].clone(), 4, true),
        entry_for(blocks[1].clone(), 4, false),
        entry_for(blocks[2].clone(), 4, true),
    ];
    let r = sync_pass(&mut engine, 101, 104, &entries);
    assert_eq!(
        r,
        Err(ConsensusError::VerifyProof(102, BlockProofField::Signature))
    );
    // Only height 101 ended up committed; nothing at or above 102.
    assert_eq!(engine.status.latest_height, 101);
    assert_eq!(engine.chain.len(), 102);
    assert!(!engine.sync_locked);
}

#[test]
fn test_sync_confused_ranges() {
    let mut engine = new_engine(4);
    assert_eq!(
        sync_pass(&mut engine, 5, 3, &Vec::new()),
        Err(ConsensusError::ConfusedMetadata(5, 3))
    );
    assert_eq!(
        sync_pass(&mut engine, 2, 9, &Vec::new()),
        Err(ConsensusError::ConfusedMetadata(2, 9))
    );
    assert_eq!(engine.status.latest_height, 0);
    assert_eq!(engine.chain.len(), 1);
}

#[test]
fn test_sync_missing_height_aborts() {
    let mut engine = new_engine(4);
    let blocks = chain_from_tip(&engine, 1, 3, 4);
    // Height 2 never arrives.
    let entries = vec![
        entry_for(blocks[0].clone(), 4, true),
        entry_for(blocks[2].clone(), 4, true),
    ];
    let r = sync_pass(&mut engine, 1, 4, &entries);
    assert_eq!(r, Err(ConsensusError::MissingBlockHeader(2)));
    assert_eq!(engine.status.latest_height, 1);
}

#[test]
fn test_sync_transaction_mismatch_aborts() {
    let mut engine = new_engine(4);
    let blocks = chain_from_tip(&engine, 1, 1, 4);
    let mut entry = entry_for(blocks[0].clone(), 4, true);
    entry.rich.txs[0].tx_hash = hash(31337);
    let r = sync_pass(&mut engine, 1, 2, &vec![entry]);
    assert_eq!(r, Err(ConsensusError::VerifyTransaction(1)));
    assert_eq!(engine.status.latest_height, 0);
}

#[test]
fn test_sync_while_locked() {
    let mut engine = new_engine(4);
    engine.sync_locked = true;
    let r = sync_pass(&mut engine, 1, 2, &Vec::new());
    assert_eq!(r, Err(ConsensusError::LockInSync));
    assert!(engine.sync_locked);
}
