use consensus_core::adapter::{build_proposal, check_proposal};
use consensus_core::message::{decode_message, encode_message};
use consensus_core::status::ConsensusStatus;
use consensus_core::types::{Address, Proof, SignedTransaction, Validator};
use consensus_core::wal::SignedTxsWAL;
use consensus_core::{ConsensusError, ConsensusType};

fn hash(x: u64) -> consensus_core::types::Hash {
    consensus_core::types::Hash(x)
}

fn stx(x: u64) -> SignedTransaction {
    SignedTransaction { tx_hash: hash(x), signature: x }
}

fn status_at(height: u64) -> ConsensusStatus {
    ConsensusStatus {
        latest_height: height,
        latest_hash: hash(777),
        latest_timestamp: 40,
        validators: vec![Validator { address: Address(1), propose_weight: 1, vote_weight: 1 }],
        interval: 3000,
    }
}

fn prev_proof() -> Proof {
    Proof { height: 10, round: 0, block_hash: hash(777), bitmap: vec![true], signature: 3 }
}

#[test]
fn test_build_proposal_records_before_returning() {
    let mut wal = SignedTxsWAL::new();
    let status = status_at(10);
    let pool = vec![stx(5), stx(9), stx(2)];
    let pill = build_proposal(
        &mut wal,
        &status,
        pool,
        1,
        41,
        Address(1),
        prev_proof(),
        hash(0),
        hash(0),
    );
    // The proposal is for the next height and links to the latest block.
    assert_eq!(pill.block.header.number, 11);
    assert_eq!(pill.block.header.previous_hash, hash(777));
    // Pool order is kept, never re-sorted.
    assert_eq!(pill.block.ordered_tx_hashes, vec![hash(5), hash(9), hash(2)]);
    assert_eq!(pill.signed_txs, vec![stx(5), stx(9), stx(2)]);
    // The order root is the root recomputed from the hash list.
    assert_eq!(
        pill.block.header.order_root,
        consensus_core::digest::compute_order_root(&pill.block.ordered_tx_hashes)
    );
    // The carried proof is exactly the previous block's certificate.
    assert_eq!(pill.block.header.proof.height, 10);
    assert_eq!(pill.block.header.proof.block_hash, hash(777));
    assert_eq!(pill.block.header.proof.bitmap, vec![true]);
    assert_eq!(pill.block.header.proof.signature, 3);
    // The chosen set was durably recorded before the proposal was returned.
    let records = wal.read_all();
    assert_eq!(records.len(), 1);
    assert_eq!(records[0].height, 11);
    assert_eq!(records[0].round, 1);
    assert_eq!(records[0].txs, vec![stx(5), stx(9), stx(2)]);
    // The recorded proposal passes its own re-check.
    assert_eq!(check_proposal(&pill), Ok(()));
}

#[test]
fn test_check_proposal_rejects_substituted_transaction() {
    let mut wal = SignedTxsWAL::new();
    let status = status_at(10);
    let pool = vec![stx(5), stx(9)];
    let mut pill = build_proposal(
        &mut wal,
        &status,
        pool,
        0,
        41,
        Address(1),
        prev_proof(),
        hash(0),
        hash(0),
    );
    pill.signed_txs[1] = stx(1000);
    let expect = pill.block.header.order_root;
    let mut tampered = Vec::new();
    for t in &pill.signed_txs {
        tampered.push(t.tx_hash);
    }
    let actual = consensus_core::digest::compute_order_root(&tampered);
    assert_eq!(
        check_proposal(&pill),
        Err(ConsensusError::InvalidOrderSignedTransactionsHash { expect, actual })
    );
}

#[test]
fn test_authority_list_reads_status() {
    let status = status_at(10);
    let list = status.authority_list();
    assert_eq!(list.len(), 1);
    assert_eq!(list[0].address, Address(1));
    assert_eq!(list[0].vote_weight, 1);
}

#[test]
fn test_message_round_trip() {
    let payload = vec![1u8, 2, 3, 250];
    let framed = encode_message(ConsensusType::SignedVote, &payload);
    assert_eq!(framed.len(), payload.len() + 1);
    assert_eq!(decode_message(ConsensusType::SignedVote, &framed), Ok(payload));
}

#[test]
fn test_decode_wrong_kind_or_empty() {
    let framed = encode_message(ConsensusType::SignedProposal, &vec![7u8]);
    assert_eq!(
        decode_message(ConsensusType::AggregateVote, &framed),
        Err(ConsensusError::DecodeErr(ConsensusType::AggregateVote))
    );
    assert_eq!(
        decode_message(ConsensusType::SignedChoke, &Vec::new()),
        Err(ConsensusError::DecodeErr(ConsensusType::SignedChoke))
    );
}

#[test]
fn test_encode_distinct_tags() {
    // Every message kind frames under its own tag.
    let kinds = vec![
        ConsensusType::SignedProposal,
        ConsensusType::SignedVote,
        ConsensusType::AggregateVote,
        ConsensusType::RichHeight,
        ConsensusType::RpcPullBlocks,
        ConsensusType::RpcPullTxs,
        ConsensusType::SignedChoke,
        ConsensusType::WALSignedTxs,
    ];
    let mut tags = Vec::new();
    for k in &kinds {
        let framed = encode_message(*k, &Vec::new());
        assert_eq!(framed.len(), 1);
        assert!(!tags.contains(&framed[0]));
        tags.push(framed[0]);
    }
}
