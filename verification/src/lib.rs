//! The consensus core of a blockchain node: block-level validation and commit
//! for a Byzantine-fault-tolerant agreement protocol, the write-ahead logs
//! that make proposals and protocol state crash-safe, and the synchronization
//! pass that catches a lagging node up without racing live consensus. The
//! agreement engine itself, the peer-to-peer transport, the storage engine
//! and the cryptographic primitives are external collaborators: this crate
//! holds the decisions, and the data they act on, as plain values.

use vstd::prelude::*;

verus! {

/// The kinds of message a consensus node sends or receives, used to tag
/// encoded payloads so a receiver can dispatch the right decode logic and so
/// codec failures can report which kind of message was at fault.
#[derive(Clone, Copy, Debug, PartialEq, Eq)]
pub enum ConsensusType {
    SignedProposal,
    SignedVote,
    AggregateVote,
    RichHeight,
    RpcPullBlocks,
    RpcPullTxs,
    SignedChoke,
    WALSignedTxs,
}

/// The closed error taxonomy shared by every component of the consensus core.
/// Underlying failures (I/O, crypto, the external agreement engine) are always
/// wrapped into one of these kinds, never surfaced raw.
#[derive(Clone, Debug, PartialEq, Eq)]
pub enum ConsensusError {
    /// A candidate block's `previous_hash` does not match the hash of the
    /// latest committed block.
    InvalidPrevhash { expect: crate::types::Hash, actual: crate::types::Hash },

    /// The order root recomputed from the transaction-hash list does not
    /// match the header.
    InvalidOrderRoot { expect: crate::types::MerkleRoot, actual: crate::types::MerkleRoot },

    /// The state root recomputed after execution does not match the header.
    InvalidStateRoot { expect: crate::types::MerkleRoot, actual: crate::types::MerkleRoot },

    /// The receipts root recomputed after execution does not match the header.
    InvalidReceiptsRoot { expect: crate::types::MerkleRoot, actual: crate::types::MerkleRoot },

    /// The digest of a proposal's signed-transaction list does not match the
    /// order root its block header declares.
    InvalidOrderSignedTransactionsHash { expect: crate::types::Hash, actual: crate::types::Hash },

    /// The execution results handed to commit do not line up with the
    /// committed block's transactions.
    InvalidStatusVec,

    /// Decoding an inbound message of the given kind failed.
    DecodeErr(ConsensusType),

    /// Encoding an outbound message of the given kind failed.
    EncodeErr(ConsensusType),

    /// An opaque failure reported by the external agreement engine.
    OverlordErr(String),

    /// The proof carried in a candidate block's header certifies the wrong
    /// height.
    InvalidProof { expect: u64, actual: u64 },

    /// The node holds a block but never durably recorded the matching
    /// proposal content.
    MissingPill(crate::types::Hash),

    /// A candidate block's timestamp is non-monotonic or outside the allowed
    /// clock-skew bound.
    InvalidTimestamp,

    /// A block header needed for validation could not be located.
    MissingBlockHeader(u64),

    /// A wrapped failure from the cryptographic primitives.
    CryptoErr(String),

    /// A synchronized block's transactions do not match the hashes its block
    /// declares.
    VerifyTransaction(u64),

    /// A block header failed validation; the field names which check failed.
    VerifyBlockHeader(u64, BlockHeaderField),

    /// A proof failed validation; the field names which check failed.
    VerifyProof(u64, BlockProofField),

    /// A wrapped failure from the transaction executor.
    ExecuteErr(String),

    /// A wrapped I/O failure from the write-ahead log's storage.
    WALErr(String),

    /// A non-success exit reported by the virtual machine.
    CallEvm(String),

    /// A required item was absent from the storage layer.
    StorageItemNotFound,

    /// A commit was attempted while a synchronization pass holds the
    /// exclusive lock; the caller must back off and retry.
    LockInSync,

    /// The write-ahead log's record for a height does not match the block
    /// being reconstructed.
    WalTxsMismatch(u64),

    /// A commit was attempted for a height at or below the latest committed
    /// height; benign, treated as a no-op by callers.
    OutdatedCommit(u64, u64),

    /// Rare, non-systematic failures.
    Other(String),

    /// A wrapped system-clock failure.
    SystemTime(String),

    /// A write-ahead log file name does not parse as a timestamp.
    FileNameTimestamp,

    /// The write-ahead log directory does not exist; the node cannot start.
    ConsensusWalDirNotExist,

    /// No write-ahead log file is available to recover from.
    ConsensusWalNoWalFile,

    /// A synchronization pass was asked for an internally inconsistent
    /// height range.
    ConfusedMetadata(u64, u64),
}

/// Which check of a block header failed.
#[derive(Clone, Copy, Debug, PartialEq, Eq)]
pub enum BlockHeaderField {
    /// The `previous_hash` mismatches the previous block.
    PreviousBlockHash,

    /// The `previous_hash` mismatches the hash in the header's proof field.
    ProofHash,

    /// The proposer is not in the committee.
    Proposer,

    /// At least one validator is not in the committee.
    Validator,

    /// The signer weight behind the header's proof is below quorum.
    Weight,
}

/// Which check of a proof failed.
#[derive(Clone, Copy, Debug, PartialEq, Eq)]
pub enum BlockProofField {
    /// The signer bitmap does not decode against the committee.
    BitMap,

    /// The aggregated signature does not verify.
    Signature,

    /// Heights of block and proof diverge: block height, then proof height.
    HeightMismatch(u64, u64),

    /// The proof's block hash mismatches the block it accompanies.
    HashMismatch,

    /// At least one validator is not in the committee.
    Validator,

    /// The aggregate signer weight is below the quorum threshold.
    Weight,

    /// At least one signer's weight could not be found.
    WeightNotFound,
}

} // verus!

pub mod adapter;
pub mod digest;
pub mod engine;
pub mod message;
pub mod status;
pub mod synchronization;
pub mod types;
pub mod wal;
