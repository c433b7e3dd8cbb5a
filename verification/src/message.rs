use vstd::prelude::*;
use crate::{ConsensusError, ConsensusType};

verus! {

/// The wire tag of each message kind.
pub open spec fn tag_of(t: ConsensusType) -> u8 {
    match t {
        ConsensusType::SignedProposal => 1u8,
        ConsensusType::SignedVote => 2u8,
        ConsensusType::AggregateVote => 3u8,
        ConsensusType::RichHeight => 4u8,
        ConsensusType::RpcPullBlocks => 5u8,
        ConsensusType::RpcPullTxs => 6u8,
        ConsensusType::SignedChoke => 7u8,
        ConsensusType::WALSignedTxs => 8u8,
    }
}

/// Computes the wire tag of a message kind.
pub fn message_tag(t: ConsensusType) -> (r: u8)
    ensures
        r == tag_of(t),
{
    match t {
        ConsensusType::SignedProposal => 1u8,
        ConsensusType::SignedVote => 2u8,
        ConsensusType::AggregateVote => 3u8,
        ConsensusType::RichHeight => 4u8,
        ConsensusType::RpcPullBlocks => 5u8,
        ConsensusType::RpcPullTxs => 6u8,
        ConsensusType::SignedChoke => 7u8,
        ConsensusType::WALSignedTxs => 8u8,
    }
}

/// A framed message: the kind's tag, then the payload.
pub open spec fn encode_msg(t: ConsensusType, payload: Seq<u8>) -> Seq<u8> {
    seq![tag_of(t)] + payload
}

/// Frames a payload under its message kind's tag.
pub fn encode_message(t: ConsensusType, payload: &Vec<u8>) -> (r: Vec<u8>)
    ensures
        r@ == encode_msg(t, payload@),
{
    let mut out: Vec<u8> = Vec::new();
    out.push(message_tag(t));
    let n = payload.len();
    let mut i: usize = 0;
    while i < n
        invariant
            0 <= i <= n,
            n == payload@.len(),
            out@ == seq![tag_of(t)] + payload@.take(i as int),
        decreases n - i,
    {
        out.push(payload[i]);
        assert(seq![tag_of(t)] + payload@.take(i as int + 1) =~= (seq![tag_of(t)]
            + payload@.take(i as int)).push(payload@[i as int]));
        i = i + 1;
    }
    assert(seq![tag_of(t)] + payload@.take(n as int) =~= encode_msg(t, payload@));
    out
}

/// Unframes a message expected to be of the given kind, returning its
/// payload; a frame too short or tagged with another kind is reported against
/// the expected kind.
pub fn decode_message(t: ConsensusType, bytes: &Vec<u8>) -> (r: Result<Vec<u8>, ConsensusError>)
    ensures
        bytes@.len() >= 1 && bytes@[0] == tag_of(t) ==> r is Ok && r.unwrap()@ == bytes@.skip(1),
        !(bytes@.len() >= 1 && bytes@[0] == tag_of(t)) ==> r == Err::<Vec<u8>, ConsensusError>(
            ConsensusError::DecodeErr(t),
        ),
{
    if bytes.len() == 0 {
        return Err(ConsensusError::DecodeErr(t));
    }
    if bytes[0] != message_tag(t) {
        return Err(ConsensusError::DecodeErr(t));
    }
    let n = bytes.len();
    let mut out: Vec<u8> = Vec::new();
    let mut i: usize = 1;
    while i < n
        invariant
            1 <= i <= n,
            n == bytes@.len(),
            out@ == bytes@.subrange(1, i as int),
        decreases n - i,
    {
        out.push(bytes[i]);
        assert(bytes@.subrange(1, i as int + 1) =~= bytes@.subrange(1, i as int).push(
            bytes@[i as int],
        ));
        i = i + 1;
    }
    assert(bytes@.subrange(1, n as int) =~= bytes@.skip(1));
    Ok(out)
}

/// Law: unframing a framed message of the same kind recovers the payload
/// exactly.
pub proof fn lemma_message_round_trip(t: ConsensusType, payload: Seq<u8>)
    ensures
        encode_msg(t, payload).len() == payload.len() + 1,
        encode_msg(t, payload)[0] == tag_of(t),
        encode_msg(t, payload).skip(1) == payload,
{
    assert(encode_msg(t, payload).skip(1) =~= payload);
}

} // verus!
