use vstd::prelude::*;
use crate::ConsensusError;
use crate::digest::block_hash;
use crate::types::{check_txs_match, copy_txs, txs_match, Block, SignedTransaction};

verus! {

/// One record of the signed-transactions log: the ordered transaction set
/// chosen for the proposal at a height and round.
pub struct TxWalRecord {
    pub height: u64,
    pub round: u64,
    pub txs: Vec<SignedTransaction>,
}

/// The signed-transactions write-ahead log: an append-only, height-ordered
/// record of every transaction set the node has proposed or would need to
/// re-propose after a crash. The caller persists each appended record through
/// its storage edge before the corresponding network send.
pub struct SignedTxsWAL {
    pub records: Vec<TxWalRecord>,
}

/// Whether the log holds any record for the given height.
pub open spec fn has_record_at(records: Seq<TxWalRecord>, h: u64) -> bool {
    exists|i: int| 0 <= i < records.len() && records[i].height == h
}

/// Whether the log holds a record for the block's height whose transactions
/// match the block's hash list position by position.
pub open spec fn has_matching_record(records: Seq<TxWalRecord>, block: Block) -> bool {
    exists|i: int|
        0 <= i < records.len() && records[i].height == block.header.number && txs_match(
            records[i].txs@,
            block.ordered_tx_hashes@,
        )
}

impl SignedTxsWAL {
    /// The records are ordered by height, oldest first.
    pub open spec fn wf(self) -> bool {
        forall|i: int, j: int|
            0 <= i <= j < self.records@.len() ==> (#[trigger] self.records@[i]).height <= (
            #[trigger] self.records@[j]).height
    }

    /// An empty log.
    pub fn new() -> (r: SignedTxsWAL)
        ensures
            r.wf(),
            r.records@ == Seq::<TxWalRecord>::empty(),
    {
        SignedTxsWAL { records: Vec::new() }
    }

    /// Appends one record. Appending N records and reading them back yields
    /// the same N records in the same order.
    pub fn append(&mut self, height: u64, round: u64, txs: Vec<SignedTransaction>)
        requires
            old(self).wf(),
            old(self).records@.len() > 0 ==> old(self).records@.last().height <= height,
        ensures
            final(self).wf(),
            final(self).records@ == old(self).records@.push(TxWalRecord { height, round, txs }),
    {
        let ghost or = self.records@;
        self.records.push(TxWalRecord { height, round, txs });
        proof {
            let nr = self.records@;
            assert forall|i: int, j: int| 0 <= i <= j < nr.len() implies (#[trigger] nr[i]).height
                <= (#[trigger] nr[j]).height by {
                if j < or.len() {
                    assert(nr[i] == or[i]);
                    assert(nr[j] == or[j]);
                } else if i < or.len() {
                    assert(nr[i] == or[i]);
                    assert(or[i].height <= or[or.len() - 1].height);
                }
            }
        }
    }

    /// Reads every record back, oldest first.
    pub fn read_all(&self) -> (r: &Vec<TxWalRecord>)
        ensures
            r@ == self.records@,
    {
        &self.records
    }

    /// Reclaims records below a height that is durably committed and
    /// reflected in storage: afterwards no record for a height below `h`
    /// remains, while every record at or above `h` is intact, in order.
    pub fn truncate_before(&mut self, h: u64)
        requires
            old(self).wf(),
        ensures
            final(self).wf(),
            exists|k: int|
                0 <= k <= old(self).records@.len() && final(self).records@ == old(
                    self,
                ).records@.skip(k) && (forall|i: int|
                    0 <= i < k ==> old(self).records@[i].height < h) && (forall|i: int|
                    k <= i < old(self).records@.len() ==> old(self).records@[i].height >= h),
    {
        let ghost or = old(self).records@;
        let ghost mut k: int = 0;
        while self.records.len() > 0 && self.records[0].height < h
            invariant
                0 <= k <= or.len(),
                self.records@ == or.skip(k),
                forall|i: int| 0 <= i < k ==> or[i].height < h,
                forall|i: int, j: int|
                    0 <= i <= j < or.len() ==> (#[trigger] or[i]).height <= (
                    #[trigger] or[j]).height,
            decreases self.records@.len(),
    {
            assert(self.records@[0] == or[k]);
            self.records.remove(0);
            assert(or.skip(k).remove(0) =~= or.skip(k + 1));
            proof {
                k = k + 1;
            }
        }
        proof {
            if self.records@.len() > 0 {
                assert(self.records@[0] == or[k]);
                assert forall|i: int| k <= i < or.len() implies or[i].height >= h by {
                    assert(or[k].height <= or[i].height);
                }
            }
            let nr = self.records@;
            assert forall|i: int, j: int| 0 <= i <= j < nr.len() implies (#[trigger] nr[i]).height
                <= (#[trigger] nr[j]).height by {
                assert(nr[i] == or[k + i]);
                assert(nr[j] == or[k + j]);
            }
        }
    }

    /// Reconstructs the ordered transaction set recorded for a block, without
    /// consulting the transaction pool: returns exactly the recorded set,
    /// signatures included, when one matches the block's hash list; reports a
    /// mismatching record, or a missing proposal, otherwise.
    pub fn load_by_block(&self, block: &Block) -> (r: Result<
        Vec<SignedTransaction>,
        ConsensusError,
    >)
        ensures
            r is Ok <==> has_matching_record(self.records@, *block),
            r is Ok ==> txs_match(r.unwrap()@, block.ordered_tx_hashes@),
            r is Ok ==> exists|i: int|
                0 <= i < self.records@.len() && (#[trigger] self.records@[i]).height
                    == block.header.number && self.records@[i].txs@ == r.unwrap()@,
            !has_matching_record(self.records@, *block) && has_record_at(
                self.records@,
                block.header.number,
            ) ==> r == Err::<Vec<SignedTransaction>, ConsensusError>(
                ConsensusError::WalTxsMismatch(block.header.number),
            ),
            !has_record_at(self.records@, block.header.number) ==> r == Err::<
                Vec<SignedTransaction>,
                ConsensusError,
            >(ConsensusError::MissingPill(crate::digest::hash_of_block(*block))),
    {
        let number = block.header.number;
        let n = self.records.len();
        let mut found_height = false;
        let mut i: usize = 0;
        while i < n
            invariant
                0 <= i <= n,
                n == self.records@.len(),
                number == block.header.number,
                forall|k: int|
                    0 <= k < i ==> !(self.records@[k].height == number && txs_match(
                        (#[trigger] self.records@[k]).txs@,
                        block.ordered_tx_hashes@,
                    )),
                found_height == exists|k: int|
                    0 <= k < i && (#[trigger] self.records@[k]).height == number,
            decreases n - i,
        {
            if self.records[i].height == number {
                if check_txs_match(&self.records[i].txs, &block.ordered_tx_hashes) {
                    proof {
                        assert(self.records@[i as int].height == block.header.number && txs_match(
                            self.records@[i as int].txs@,
                            block.ordered_tx_hashes@,
                        ));
                        assert(has_matching_record(self.records@, *block));
                    }
                    return Ok(copy_txs(&self.records[i].txs));
                }
                found_height = true;
            }
            i = i + 1;
        }
        if found_height {
            Err(ConsensusError::WalTxsMismatch(number))
        } else {
            Err(ConsensusError::MissingPill(block_hash(block)))
        }
    }
}

/// One entry of the consensus-message log: an opaque encoded engine state or
/// message, identified by a monotonic stamp used purely for ordering and
/// reclamation.
pub struct WalEntry {
    pub stamp: u64,
    pub data: Vec<u8>,
}

/// The consensus-message write-ahead log: raw protocol state the external
/// agreement engine asks the node to persist, replayed in original order on
/// restart since that engine is not durable across restarts.
pub struct ConsensusWal {
    pub entries: Vec<WalEntry>,
}

impl ConsensusWal {
    /// The stamps are strictly increasing, oldest first.
    pub open spec fn wf(self) -> bool {
        forall|i: int, j: int|
            0 <= i < j < self.entries@.len() ==> (#[trigger] self.entries@[i]).stamp < (
            #[trigger] self.entries@[j]).stamp
    }

    /// An empty log.
    pub fn new() -> (r: ConsensusWal)
        ensures
            r.wf(),
            r.entries@ == Seq::<WalEntry>::empty(),
    {
        ConsensusWal { entries: Vec::new() }
    }

    /// Persists one entry under a fresh stamp.
    pub fn save(&mut self, stamp: u64, data: Vec<u8>)
        requires
            old(self).wf(),
            old(self).entries@.len() > 0 ==> old(self).entries@.last().stamp < stamp,
        ensures
            final(self).wf(),
            final(self).entries@ == old(self).entries@.push(WalEntry { stamp, data }),
    {
        let ghost oe = self.entries@;
        self.entries.push(WalEntry { stamp, data });
        proof {
            let ne = self.entries@;
            assert forall|i: int, j: int| 0 <= i < j < ne.len() implies (#[trigger] ne[i]).stamp
                < (#[trigger] ne[j]).stamp by {
                if j < oe.len() {
                    assert(ne[i] == oe[i]);
                    assert(ne[j] == oe[j]);
                } else {
                    assert(ne[i] == oe[i]);
                    assert(oe[i].stamp <= oe[oe.len() - 1].stamp);
                }
            }
        }
    }

    /// Reads every entry back, oldest first, for startup replay in original
    /// order.
    pub fn read_all(&self) -> (r: &Vec<WalEntry>)
        ensures
            r@ == self.entries@,
    {
        &self.entries
    }

    /// Recovers the most recent entry, the one under the largest stamp; with
    /// nothing to recover from, the node cannot safely start.
    pub fn load_latest(&self) -> (r: Result<&Vec<u8>, ConsensusError>)
        requires
            self.wf(),
        ensures
            self.entries@.len() == 0 ==> r == Err::<&Vec<u8>, ConsensusError>(
                ConsensusError::ConsensusWalNoWalFile,
            ),
            self.entries@.len() > 0 ==> r is Ok && r.unwrap()@ == self.entries@.last().data@ && (
            forall|i: int|
                0 <= i < self.entries@.len() ==> (#[trigger] self.entries@[i]).stamp
                    <= self.entries@.last().stamp),
    {
        if self.entries.len() == 0 {
            return Err(ConsensusError::ConsensusWalNoWalFile);
        }
        let last = self.entries.len() - 1;
        Ok(&self.entries[last].data)
    }
}

/// Whether a byte is an ASCII decimal digit.
pub open spec fn is_digit(b: u8) -> bool {
    48 <= b <= 57
}

/// Whether every byte of a name is an ASCII decimal digit.
pub open spec fn all_digits(s: Seq<u8>) -> bool {
    forall|i: int| 0 <= i < s.len() ==> is_digit(#[trigger] s[i])
}

/// The decimal value a digit string denotes.
pub open spec fn dec_value(s: Seq<u8>) -> int
    decreases s.len(),
{
    if s.len() == 0 {
        0
    } else {
        dec_value(s.drop_last()) * 10 + (s.last() - 48)
    }
}

proof fn lemma_dec_value_nonneg(s: Seq<u8>)
    requires
        all_digits(s),
    ensures
        dec_value(s) >= 0,
    decreases s.len(),
{
    if s.len() > 0 {
        assert(all_digits(s.drop_last()));
        lemma_dec_value_nonneg(s.drop_last());
    }
}

proof fn lemma_dec_value_prefix_le(s: Seq<u8>, i: int)
    requires
        all_digits(s),
        0 <= i <= s.len(),
    ensures
        dec_value(s.take(i)) <= dec_value(s),
    decreases s.len() - i,
{
    if i == s.len() {
        assert(s.take(i) =~= s);
    } else {
        assert(s.take(i + 1).drop_last() =~= s.take(i));
        assert(all_digits(s.take(i)));
        lemma_dec_value_nonneg(s.take(i));
        assert(dec_value(s.take(i + 1)) == dec_value(s.take(i)) * 10 + (s[i] - 48));
        lemma_dec_value_prefix_le(s, i + 1);
    }
}

/// Parses a log name into the timestamp it embeds: the whole name must be a
/// decimal number that fits a machine word, else the node cannot safely
/// start.
pub fn parse_wal_timestamp(name: &Vec<u8>) -> (r: Result<u64, ConsensusError>)
    ensures
        name@.len() > 0 && all_digits(name@) && dec_value(name@) <= u64::MAX ==> r == Ok::<
            u64,
            ConsensusError,
        >(dec_value(name@) as u64),
        !(name@.len() > 0 && all_digits(name@) && dec_value(name@) <= u64::MAX) ==> r == Err::<
            u64,
            ConsensusError,
        >(ConsensusError::FileNameTimestamp),
{
    let n = name.len();
    if n == 0 {
        return Err(ConsensusError::FileNameTimestamp);
    }
    let mut acc: u64 = 0;
    let mut i: usize = 0;
    while i < n
        invariant
            0 <= i <= n,
            n == name@.len(),
            all_digits(name@.take(i as int)),
            acc == dec_value(name@.take(i as int)),
        decreases n - i,
    {
        let c = name[i];
        if c < 48 || c > 57 {
            assert(!is_digit(name@[i as int]));
            return Err(ConsensusError::FileNameTimestamp);
        }
        let d = c - 48;
        if acc > 1844674407370955161 || (acc == 1844674407370955161 && d > 5) {
            proof {
                assert(name@.take(i as int + 1).drop_last() =~= name@.take(i as int));
                assert(dec_value(name@.take(i as int + 1)) == acc * 10 + d);
                assert(dec_value(name@.take(i as int + 1)) > u64::MAX);
                if all_digits(name@) {
                    lemma_dec_value_prefix_le(name@, i as int + 1);
                }
            }
            return Err(ConsensusError::FileNameTimestamp);
        }
        proof {
            assert(name@.take(i as int + 1).drop_last() =~= name@.take(i as int));
            assert(all_digits(name@.take(i as int + 1)));
        }
        acc = acc * 10 + d as u64;
        i = i + 1;
    }
    assert(name@.take(n as int) =~= name@);
    Ok(acc)
}

} // verus!
