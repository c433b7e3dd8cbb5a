use consensus_core::types::{Address, Block, BlockHeader, Proof, SignedTransaction};
use consensus_core::wal::{parse_wal_timestamp, ConsensusWal, SignedTxsWAL};
use consensus_core::ConsensusError;

fn hash(x: u64) -> consensus_core::types::Hash {
    consensus_core::types::Hash(x)
}

fn stx(x: u64) -> SignedTransaction {
    SignedTransaction { tx_hash: hash(x), signature: x }
}

fn block_for(number: u64, tx_words: &[u64]) -> Block {
    let mut hashes = Vec::new();
    for w in tx_words {
        hashes.push(hash(*w));
    }
    let order_root = consensus_core::digest::compute_order_root(&hashes);
    Block {
        header: BlockHeader {
            number,
            previous_hash: hash(0),
            order_root,
            state_root: hash(0),
            receipts_root: hash(0),
            proposer: Address(1),
            timestamp: 0,
            proof: Proof {
                height: number.wrapping_sub(1),
                round: 0,
                block_hash: hash(0),
                bitmap: Vec::new(),
                signature: 0,
            },
        },
        ordered_tx_hashes: hashes,
    }
}

#[test]
fn test_wal_round_trip() {
    let mut wal = SignedTxsWAL::new();
    wal.append(1, 0, vec![stx(10), stx(11)]);
    wal.append(2, 1, vec![stx(20)]);
    wal.append(3, 0, Vec::new());
    let records = wal.read_all();
    assert_eq!(records.len(), 3);
    assert_eq!(records[0].height, 1);
    assert_eq!(records[0].round, 0);
    assert_eq!(records[0].txs, vec![stx(10), stx(11)]);
    assert_eq!(records[1].height, 2);
    assert_eq!(records[1].round, 1);
    assert_eq!(records[1].txs, vec![stx(20)]);
    assert_eq!(records[2].height, 3);
    assert!(records[2].txs.is_empty());
}

#[test]
fn test_wal_truncate_before() {
    let mut wal = SignedTxsWAL::new();
    wal.append(1, 0, vec![stx(10)]);
    wal.append(2, 0, vec![stx(20)]);
    wal.append(2, 1, vec![stx(21)]);
    wal.append(3, 0, vec![stx(30)]);
    wal.truncate_before(2);
    let records = wal.read_all();
    assert_eq!(records.len(), 3);
    assert_eq!(records[0].height, 2);
    assert_eq!(records[0].txs, vec![stx(20)]);
    assert_eq!(records[1].height, 2);
    assert_eq!(records[1].txs, vec![stx(21)]);
    assert_eq!(records[2].height, 3);
    wal.truncate_before(9);
    assert!(wal.read_all().is_empty());
}

#[test]
fn test_wal_recovers_proposal_after_crash() {
    // The proposal for height 50 was recorded before the process crashed; on
    // restart the log reconstructs the same transaction set without
    // re-querying the transaction pool.
    let mut wal = SignedTxsWAL::new();
    wal.append(49, 0, vec![stx(1)]);
    wal.append(50, 2, vec![stx(501), stx(502), stx(503)]);
    let block = block_for(50, &[501, 502, 503]);
    let recovered = wal.load_by_block(&block);
    assert_eq!(recovered, Ok(vec![stx(501), stx(502), stx(503)]));
}

#[test]
fn test_wal_mismatching_record() {
    let mut wal = SignedTxsWAL::new();
    wal.append(50, 0, vec![stx(1), stx(2)]);
    let block = block_for(50, &[501, 502]);
    assert_eq!(
        wal.load_by_block(&block),
        Err(ConsensusError::WalTxsMismatch(50))
    );
}

#[test]
fn test_wal_missing_record() {
    let wal = SignedTxsWAL::new();
    let block = block_for(50, &[501]);
    assert_eq!(
        wal.load_by_block(&block),
        Err(ConsensusError::MissingPill(consensus_core::digest::block_hash(&block)))
    );
}

#[test]
fn test_consensus_wal_loads_latest() {
    let mut wal = ConsensusWal::new();
    assert_eq!(wal.load_latest(), Err(ConsensusError::ConsensusWalNoWalFile));
    wal.save(1, vec![1, 2, 3]);
    wal.save(5, vec![4, 5]);
    wal.save(9, vec![6]);
    assert_eq!(wal.load_latest(), Ok(&vec![6]));
}

#[test]
fn test_parse_wal_timestamp() {
    assert_eq!(parse_wal_timestamp(&b"1614652340".to_vec()), Ok(1614652340));
    assert_eq!(parse_wal_timestamp(&b"0".to_vec()), Ok(0));
    assert_eq!(
        parse_wal_timestamp(&b"18446744073709551615".to_vec()),
        Ok(u64::MAX)
    );
    assert_eq!(
        parse_wal_timestamp(&Vec::new()),
        Err(ConsensusError::FileNameTimestamp)
    );
    assert_eq!(
        parse_wal_timestamp(&b"16a4".to_vec()),
        Err(ConsensusError::FileNameTimestamp)
    );
    assert_eq!(
        parse_wal_timestamp(&b"18446744073709551616".to_vec()),
        Err(ConsensusError::FileNameTimestamp)
    );
    assert_eq!(
        parse_wal_timestamp(&b"99999999999999999999999".to_vec()),
        Err(ConsensusError::FileNameTimestamp)
    );
}
