//! The value types that flow between the BFT driver, the safety rules and
//! the state computer: blocks, quorum certificates, ledger infos, votes and
//! the outputs of speculative execution.

use vstd::prelude::*;
use crate::types::{HashValue, SignedTransaction};

verus! {

/// A committed Tree-Graph frontier referenced by a BFT block.
#[derive(Clone, Copy, Debug, PartialEq, Eq, Structural)]
pub struct PivotBlockDecision {
    pub height: u64,
    pub block_hash: HashValue,
}

/// Aggregated signatures of at least a quorum of voters over a
/// (round, block id, state root) tuple. The certificate always certifies
/// the parent of the block that carries it, so `certified_round` is the
/// parent's round. The aggregate itself is opaque; only the number of
/// distinct signers matters to the checks in this crate.
#[derive(Clone, Copy, Debug, PartialEq, Eq, Structural)]
pub struct QuorumCert {
    pub certified_round: u64,
    pub certified_id: HashValue,
    pub certified_state_root: HashValue,
    /// The round of the certified block's own parent, which the two-chain
    /// rule advances the preferred round to.
    pub parent_round: u64,
    pub num_signatures: u64,
}

/// A proposal: round, parent link, payload, certificate over the parent,
/// an optional pivot decision, author and an opaque author signature.
#[derive(Clone, Debug)]
pub struct Block {
    pub id: HashValue,
    pub epoch: u64,
    pub round: u64,
    pub parent_id: HashValue,
    pub payload: Vec<SignedTransaction>,
    pub qc: QuorumCert,
    pub pivot_decision: Option<PivotBlockDecision>,
    pub author: HashValue,
    pub signature: HashValue,
}

/// What speculative execution of one block produced: the state root after
/// applying the payload to the parent's speculative state, one success flag
/// per transaction, and the pivot decision that the block commits to.
#[derive(Clone, Debug)]
pub struct ProcessedVMOutput {
    pub state_root: HashValue,
    pub txn_status: Vec<bool>,
    pub pivot_decision: Option<PivotBlockDecision>,
}

/// A block together with the output of its speculative execution.
#[derive(Clone, Debug)]
pub struct ExecutedBlock {
    pub block: Block,
    pub output: ProcessedVMOutput,
}

/// The commitment data that a quorum signs when a block becomes final.
/// `next_validator_set_size` is zero except at an epoch boundary, where it
/// gives the size of the next epoch's validator set.
#[derive(Clone, Copy, Debug, PartialEq, Eq, Structural)]
pub struct LedgerInfo {
    pub epoch: u64,
    pub round: u64,
    pub committed_id: HashValue,
    pub committed_state_root: HashValue,
    pub next_validator_set_size: u64,
}

/// A committed ledger info with its aggregated signature set: the finality
/// proof consumed by the state computer. Only the number of distinct
/// signers is modelled.
#[derive(Clone, Copy, Debug, PartialEq, Eq, Structural)]
pub struct LedgerInfoWithSignatures {
    pub ledger_info: LedgerInfo,
    pub num_signatures: u64,
}

/// An ordered run of epoch-boundary ledger infos, each signed by the prior
/// epoch's validator set, used to jump between epochs.
#[derive(Clone, Debug, PartialEq, Eq)]
pub struct ValidatorChangeProof {
    pub ledger_infos: Vec<LedgerInfoWithSignatures>,
}

/// A vote that this node emits for a proposal.
#[derive(Clone, Copy, Debug, PartialEq, Eq, Structural)]
pub struct Vote {
    pub epoch: u64,
    pub round: u64,
    pub block_id: HashValue,
}

/// The number of signatures that makes a quorum among `n` validators:
/// with `n >= 3f + 1` Byzantine tolerance, a quorum is `2f + 1`.
pub open spec fn quorum_size_spec(n: u64) -> int {
    2 * ((n - 1) / 3) + 1
}

/// Computes the quorum threshold for a validator set of `n` members.
pub fn quorum_size(n: u64) -> (q: u64)
    requires
        n >= 1,
    ensures
        q == quorum_size_spec(n),
{
    2 * ((n - 1) / 3) + 1
}

/// Whether a finality proof carries enough signatures for a validator set
/// of `n` members.
pub open spec fn has_quorum(li: LedgerInfoWithSignatures, n: u64) -> bool {
    n >= 1 && li.num_signatures >= quorum_size_spec(n)
}

/// Checks a finality proof's signature count against the quorum threshold.
pub fn check_quorum(li: &LedgerInfoWithSignatures, n: u64) -> (r: bool)
    ensures
        r == has_quorum(*li, n),
{
    n >= 1 && li.num_signatures >= quorum_size(n)
}

} // verus!
