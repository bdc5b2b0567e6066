//! The byte layout of the durable safety record. The consensus state is a
//! single 24-byte record of three little-endian 64-bit counters with atomic
//! replace semantics; the unverified on-disk store persists exactly these
//! bytes, and decoding refuses anything that is not a well-formed record,
//! which is how corrupt safety state is detected on start.

use vstd::prelude::*;
use crate::safety_rules::ConsensusState;

verus! {

/// Byte `i` of the little-endian encoding of `x`.
pub open spec fn u64_byte(x: u64, i: int) -> u8
    recommends
        0 <= i < 8,
{
    ((x >> (8 * i) as u64) & 0xff) as u8
}

/// The eight little-endian bytes of `x`.
pub open spec fn u64_le_bytes(x: u64) -> Seq<u8> {
    Seq::new(8, |i: int| u64_byte(x, i))
}

/// The value read back from eight little-endian bytes.
pub open spec fn u64_of_le_bytes(s: Seq<u8>) -> u64
    recommends
        s.len() == 8,
{
    (s[0] as u64) | ((s[1] as u64) << 8) | ((s[2] as u64) << 16) | ((s[3] as u64) << 24) | ((
    s[4] as u64) << 32) | ((s[5] as u64) << 40) | ((s[6] as u64) << 48) | ((s[7] as u64) << 56)
}

/// Reading back the eight little-endian bytes of `x` yields `x`.
pub proof fn lemma_u64_le_round_trip(x: u64)
    ensures
        u64_of_le_bytes(u64_le_bytes(x)) == x,
{
    let b0 = u64_byte(x, 0);
    let b1 = u64_byte(x, 1);
    let b2 = u64_byte(x, 2);
    let b3 = u64_byte(x, 3);
    let b4 = u64_byte(x, 4);
    let b5 = u64_byte(x, 5);
    let b6 = u64_byte(x, 6);
    let b7 = u64_byte(x, 7);
    assert((b0 as u64) | ((b1 as u64) << 8) | ((b2 as u64) << 16) | ((b3 as u64) << 24) | ((
    b4 as u64) << 32) | ((b5 as u64) << 40) | ((b6 as u64) << 48) | ((b7 as u64) << 56) == x)
        by (bit_vector)
        requires
            b0 == ((x >> 0) & 0xff) as u8,
            b1 == ((x >> 8) & 0xff) as u8,
            b2 == ((x >> 16) & 0xff) as u8,
            b3 == ((x >> 24) & 0xff) as u8,
            b4 == ((x >> 32) & 0xff) as u8,
            b5 == ((x >> 40) & 0xff) as u8,
            b6 == ((x >> 48) & 0xff) as u8,
            b7 == ((x >> 56) & 0xff) as u8,
    ;
}

/// The 24-byte record: epoch, then last voted round, then preferred round,
/// each as eight little-endian bytes.
pub open spec fn state_bytes(s: ConsensusState) -> Seq<u8> {
    u64_le_bytes(s.epoch) + u64_le_bytes(s.last_voted_round) + u64_le_bytes(s.preferred_round)
}

/// What a 24-byte buffer decodes to; anything of another length is refused.
pub open spec fn decode_state_spec(b: Seq<u8>) -> Option<ConsensusState> {
    if b.len() == 24 {
        Some(
            ConsensusState {
                epoch: u64_of_le_bytes(b.subrange(0, 8)),
                last_voted_round: u64_of_le_bytes(b.subrange(8, 16)),
                preferred_round: u64_of_le_bytes(b.subrange(16, 24)),
            },
        )
    } else {
        None
    }
}

/// Appends the eight little-endian bytes of `x` to `out`.
fn push_u64_le(out: &mut Vec<u8>, x: u64)
    ensures
        final(out)@ == old(out)@ + u64_le_bytes(x),
{
    let ghost pre = out@;
    out.push((x & 0xff) as u8);
    out.push(((x >> 8) & 0xff) as u8);
    out.push(((x >> 16) & 0xff) as u8);
    out.push(((x >> 24) & 0xff) as u8);
    out.push(((x >> 32) & 0xff) as u8);
    out.push(((x >> 40) & 0xff) as u8);
    out.push(((x >> 48) & 0xff) as u8);
    out.push(((x >> 56) & 0xff) as u8);
    proof {
        assert((x >> 0) == x) by (bit_vector);
        assert(out@ =~= pre + u64_le_bytes(x));
    }
}

/// Reads a 64-bit value from eight little-endian bytes starting at `at`.
fn read_u64_le(b: &Vec<u8>, at: usize) -> (r: u64)
    requires
        at + 8 <= b@.len(),
    ensures
        r == u64_of_le_bytes(b@.subrange(at as int, at + 8)),
{
    let n = b.len();
    assert(at + 8 <= n);
    let r = (b[at] as u64) | ((b[at + 1] as u64) << 8) | ((b[at + 2] as u64) << 16) | ((b[at
        + 3] as u64) << 24) | ((b[at + 4] as u64) << 32) | ((b[at + 5] as u64) << 40) | ((b[at
        + 6] as u64) << 48) | ((b[at + 7] as u64) << 56);
    proof {
        let s = b@.subrange(at as int, at + 8);
        assert(s[0] == b@[at as int] && s[1] == b@[at + 1] && s[2] == b@[at + 2] && s[3] == b@[at
            + 3] && s[4] == b@[at + 4] && s[5] == b@[at + 5] && s[6] == b@[at + 6] && s[7] == b@[at
            + 7]);
    }
    r
}

/// Encodes the safety record for the durable store.
pub fn encode_consensus_state(s: &ConsensusState) -> (r: Vec<u8>)
    ensures
        r@ == state_bytes(*s),
        r@.len() == 24,
{
    let mut out: Vec<u8> = Vec::new();
    push_u64_le(&mut out, s.epoch);
    push_u64_le(&mut out, s.last_voted_round);
    push_u64_le(&mut out, s.preferred_round);
    proof {
        assert(out@ =~= state_bytes(*s));
    }
    out
}

/// Decodes a durable record, refusing buffers that are not exactly one
/// well-formed 24-byte record.
pub fn decode_consensus_state(b: &Vec<u8>) -> (r: Option<ConsensusState>)
    ensures
        r == decode_state_spec(b@),
{
    if b.len() != 24 {
        return None;
    }
    let epoch = read_u64_le(b, 0);
    let last_voted_round = read_u64_le(b, 8);
    let preferred_round = read_u64_le(b, 16);
    Some(ConsensusState { epoch, last_voted_round, preferred_round })
}

/// The codec round trip: every safety record decodes back to itself, so a
/// state persisted by the store is never read back as another state.
pub proof fn lemma_state_codec_round_trip(s: ConsensusState)
    ensures
        decode_state_spec(state_bytes(s)) == Some(s),
{
    let b = state_bytes(s);
    assert(b.subrange(0, 8) =~= u64_le_bytes(s.epoch));
    assert(b.subrange(8, 16) =~= u64_le_bytes(s.last_voted_round));
    assert(b.subrange(16, 24) =~= u64_le_bytes(s.preferred_round));
    lemma_u64_le_round_trip(s.epoch);
    lemma_u64_le_round_trip(s.last_voted_round);
    lemma_u64_le_round_trip(s.preferred_round);
}

} // verus!
