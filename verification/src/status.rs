use vstd::prelude::*;
use crate::types::{Address, Validator};

verus! {

/// Upper bound a candidate block's timestamp may run ahead of the local
/// clock, in milliseconds.
pub const MAX_CLOCK_SKEW_MS: u64 = 10000;

/// The process-wide consensus snapshot: latest committed height and block,
/// the weighted committee, and the round timing configuration. Replaced
/// atomically after each commit.
#[derive(Clone, Debug)]
pub struct ConsensusStatus {
    /// Height of the latest committed block.
    pub latest_height: u64,
    /// Hash of the latest committed block.
    pub latest_hash: crate::types::Hash,
    /// Timestamp of the latest committed block.
    pub latest_timestamp: u64,
    /// The committee eligible to propose and vote.
    pub validators: Vec<Validator>,
    /// Consensus round interval in milliseconds.
    pub interval: u64,
}

impl ConsensusStatus {
    /// The committee eligible to propose and vote at the current height, as
    /// the external agreement engine queries it.
    pub fn authority_list(&self) -> (r: &Vec<Validator>)
        ensures
            r@ == self.validators@,
    {
        &self.validators
    }
}

/// Whether a candidate timestamp is monotonic with respect to the latest
/// committed block and runs no further ahead of the local clock than the
/// skew bound allows.
pub open spec fn timestamp_valid(latest_timestamp: u64, ts: u64, now: u64) -> bool {
    latest_timestamp <= ts && ts <= now + MAX_CLOCK_SKEW_MS
}

/// Total vote weight of a committee.
pub open spec fn total_weight(vals: Seq<Validator>) -> int
    decreases vals.len(),
{
    if vals.len() == 0 {
        0
    } else {
        total_weight(vals.drop_last()) + vals.last().vote_weight
    }
}

/// Vote weight of the committee members a signer bitmap marks, seat by seat.
pub open spec fn signed_weight(vals: Seq<Validator>, bits: Seq<bool>) -> int
    decreases vals.len(),
{
    if vals.len() == 0 || bits.len() < vals.len() {
        0
    } else {
        signed_weight(vals.drop_last(), bits.take(vals.len() - 1)) + if bits[vals.len() - 1] {
            vals.last().vote_weight as int
        } else {
            0
        }
    }
}

/// Quorum: the marked signers carry at least two-thirds of the committee's
/// total vote weight.
pub open spec fn has_quorum(vals: Seq<Validator>, bits: Seq<bool>) -> bool {
    3 * signed_weight(vals, bits) >= 2 * total_weight(vals)
}

proof fn lemma_total_weight_bound(vals: Seq<Validator>)
    ensures
        0 <= total_weight(vals) <= vals.len() * (u32::MAX as int),
    decreases vals.len(),
{
    if vals.len() > 0 {
        lemma_total_weight_bound(vals.drop_last());
    }
}

proof fn lemma_signed_weight_bound(vals: Seq<Validator>, bits: Seq<bool>)
    ensures
        0 <= signed_weight(vals, bits) <= vals.len() * (u32::MAX as int),
    decreases vals.len(),
{
    if vals.len() != 0 && bits.len() >= vals.len() {
        lemma_signed_weight_bound(vals.drop_last(), bits.take(vals.len() - 1));
    }
}

/// Sums the committee's total vote weight.
pub fn compute_total_weight(vals: &Vec<Validator>) -> (r: u128)
    ensures
        r == total_weight(vals@),
{
    let n = vals.len();
    let mut acc: u128 = 0;
    let mut i: usize = 0;
    while i < n
        invariant
            0 <= i <= n,
            n == vals@.len(),
            acc == total_weight(vals@.take(i as int)),
            acc <= (i as int) * (u32::MAX as int),
        decreases n - i,
    {
        assert(vals@.take(i as int + 1).drop_last() =~= vals@.take(i as int));
        proof {
            lemma_total_weight_bound(vals@.take(i as int));
        }
        acc = acc + vals[i].vote_weight as u128;
        i = i + 1;
    }
    assert(vals@.take(n as int) =~= vals@);
    acc
}

/// Sums the vote weight the signer bitmap marks.
pub fn compute_signed_weight(vals: &Vec<Validator>, bits: &Vec<bool>) -> (r: u128)
    requires
        bits@.len() == vals@.len(),
    ensures
        r == signed_weight(vals@, bits@),
{
    let n = vals.len();
    let mut acc: u128 = 0;
    let mut i: usize = 0;
    while i < n
        invariant
            0 <= i <= n,
            n == vals@.len(),
            bits@.len() == vals@.len(),
            acc == signed_weight(vals@.take(i as int), bits@.take(i as int)),
            acc <= (i as int) * (u32::MAX as int),
        decreases n - i,
    {
        assert(vals@.take(i as int + 1).drop_last() =~= vals@.take(i as int));
        assert(bits@.take(i as int + 1).take(i as int) =~= bits@.take(i as int));
        proof {
            lemma_signed_weight_bound(vals@.take(i as int), bits@.take(i as int));
        }
        if bits[i] {
            assert(bits@.take(i as int + 1)[i as int] == bits@[i as int]);
            acc = acc + vals[i].vote_weight as u128;
        } else {
            assert(bits@.take(i as int + 1)[i as int] == bits@[i as int]);
        }
        i = i + 1;
    }
    assert(vals@.take(n as int) =~= vals@);
    assert(bits@.take(n as int) =~= bits@);
    acc
}

/// Decides whether a signer bitmap reaches quorum over a committee.
pub fn check_quorum(vals: &Vec<Validator>, bits: &Vec<bool>) -> (r: bool)
    requires
        bits@.len() == vals@.len(),
    ensures
        r == has_quorum(vals@, bits@),
{
    let n = vals.len();
    let total = compute_total_weight(vals);
    let signed = compute_signed_weight(vals, bits);
    proof {
        lemma_total_weight_bound(vals@);
        lemma_signed_weight_bound(vals@, bits@);
        assert(vals@.len() == n as int);
    }
    3 * signed >= 2 * total
}

/// Whether an address belongs to the committee.
pub open spec fn committee_contains(vals: Seq<Validator>, addr: Address) -> bool {
    exists|i: int| 0 <= i < vals.len() && vals[i].address == addr
}

/// Decides committee membership for an address.
pub fn check_committee_contains(vals: &Vec<Validator>, addr: Address) -> (r: bool)
    ensures
        r == committee_contains(vals@, addr),
{
    let n = vals.len();
    let mut i: usize = 0;
    while i < n
        invariant
            0 <= i <= n,
            n == vals@.len(),
            forall|k: int| 0 <= k < i ==> vals@[k].address != addr,
        decreases n - i,
    {
        if vals[i].address == addr {
            return true;
        }
        i = i + 1;
    }
    false
}

} // verus!
