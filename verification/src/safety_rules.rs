//! The voting oracle of the BFT overlay: enforces the monotonic-round
//! invariants of HotStuff against a persistent consensus state, so that
//! this node never equivocates, and rolls the epoch forward on a valid
//! validator-change proof.

use vstd::prelude::*;
use crate::consensus_types::{
    Block, LedgerInfoWithSignatures, QuorumCert, ValidatorChangeProof, Vote, has_quorum,
    check_quorum,
};

verus! {

/// The persistent safety state: a single durable record. Both
/// `last_voted_round` and `preferred_round` only ever grow, except across
/// an epoch change, which resets them to zero.
#[derive(Clone, Copy, Debug, PartialEq, Eq, Structural)]
pub struct ConsensusState {
    pub epoch: u64,
    pub last_voted_round: u64,
    pub preferred_round: u64,
}

/// Why safety rules refused a request. The first two are expected during
/// normal asynchrony and are dropped by the driver; a storage failure is
/// fatal to the node.
#[derive(Clone, Copy, Debug, PartialEq, Eq, Structural)]
pub enum Error {
    /// The proposal's round is not beyond the last voted round.
    OldProposal { proposal_round: u64, last_voted_round: u64 },
    /// The proposal extends a parent older than the preferred round.
    ProposalRoundLowerThanPreferred { parent_round: u64, preferred_round: u64 },
    /// The validator-change proof is empty, non-contiguous, names a wrong
    /// epoch, lacks a quorum of signatures, or carries no next validator set.
    InvalidEpochChange,
    /// The persistent store could not make the new state durable.
    StorageError,
}

/// Durable, in-process storage of the safety state with atomic replace
/// semantics: after `set` either the new state is held or the old one is.
/// The on-disk variant lives outside the verified core and persists the
/// same record through the byte codec of `persistent_storage`.
#[derive(Clone, Copy, Debug)]
pub struct InMemoryStorage {
    state: ConsensusState,
}

impl InMemoryStorage {
    pub closed spec fn state_spec(self) -> ConsensusState {
        self.state
    }

    pub fn new(state: ConsensusState) -> (r: InMemoryStorage)
        ensures
            r.state_spec() == state,
    {
        InMemoryStorage { state }
    }

    /// Atomically replaces the stored state. The in-memory store never
    /// fails; the result mirrors the contract of the durable variants.
    pub fn set(&mut self, state: ConsensusState) -> (r: Result<(), Error>)
        ensures
            r is Ok,
            final(self).state_spec() == state,
    {
        self.state = state;
        Ok(())
    }

    pub fn get(&self) -> (r: ConsensusState)
        ensures
            r == self.state_spec(),
    {
        self.state
    }
}

/// Whether safety rules may vote for a proposal at `round` whose parent
/// sits at `parent_round`, given the current state: the round must be
/// beyond the last voted round and the parent must not be older than the
/// preferred round.
pub open spec fn vote_allowed(s: ConsensusState, round: u64, parent_round: u64) -> bool {
    round > s.last_voted_round && parent_round >= s.preferred_round
}

/// The state after handling one vote request: voting advances
/// `last_voted_round` to the proposal's round; a refused request leaves
/// the state unchanged.
pub open spec fn vote_step(s: ConsensusState, round: u64, parent_round: u64) -> ConsensusState {
    if vote_allowed(s, round, parent_round) {
        ConsensusState { last_voted_round: round, ..s }
    } else {
        s
    }
}

/// One step of the epoch-change chain: the ledger info must sit exactly at
/// the expected epoch, must carry a quorum of the signing epoch's
/// validators, and must name a non-empty next validator set.
pub open spec fn epoch_link_ok(li: LedgerInfoWithSignatures, epoch: u64, set_size: u64) -> bool {
    &&& li.ledger_info.epoch == epoch
    &&& has_quorum(li, set_size)
    &&& li.ledger_info.next_validator_set_size >= 1
    &&& epoch < u64::MAX
}

/// Whether a validator-change proof is a valid contiguous chain starting
/// at `epoch` under a validator set of `set_size` members.
pub open spec fn epoch_chain_ok(lis: Seq<LedgerInfoWithSignatures>, epoch: u64, set_size: u64) -> bool
    decreases lis.len(),
{
    if lis.len() == 0 {
        true
    } else {
        epoch_link_ok(lis[0], epoch, set_size)
            && epoch_chain_ok(
                lis.drop_first(),
                (epoch + 1) as u64,
                lis[0].ledger_info.next_validator_set_size,
            )
    }
}

/// The votes that a run of vote requests makes safety rules emit, starting
/// from state `s`: each allowed request contributes one vote and advances
/// the state by `vote_step`; a refused request contributes nothing. This is
/// exactly the behaviour `construct_and_sign_vote` ensures, step by step.
pub open spec fn votes_of_run(s: ConsensusState, props: Seq<Block>) -> Seq<Vote>
    decreases props.len(),
{
    if props.len() == 0 {
        Seq::empty()
    } else {
        let b = props[0];
        let rest = votes_of_run(vote_step(s, b.round, b.qc.certified_round), props.drop_first());
        if vote_allowed(s, b.round, b.qc.certified_round) {
            seq![Vote { epoch: s.epoch, round: b.round, block_id: b.id }] + rest
        } else {
            rest
        }
    }
}

/// Every vote of a run is beyond the starting `last_voted_round`, and the
/// rounds of a run are strictly increasing.
pub proof fn lemma_run_votes_monotonic(s: ConsensusState, props: Seq<Block>)
    ensures
        forall|k: int|
            0 <= k < votes_of_run(s, props).len() ==> (#[trigger] votes_of_run(s, props)[k]).round
                > s.last_voted_round,
        forall|i: int, j: int|
            0 <= i < j < votes_of_run(s, props).len() ==> votes_of_run(s, props)[i].round
                < votes_of_run(s, props)[j].round,
    decreases props.len(),
{
    if props.len() > 0 {
        let b = props[0];
        let s1 = vote_step(s, b.round, b.qc.certified_round);
        let rest = votes_of_run(s1, props.drop_first());
        lemma_run_votes_monotonic(s1, props.drop_first());
        if vote_allowed(s, b.round, b.qc.certified_round) {
            let v0 = Vote { epoch: s.epoch, round: b.round, block_id: b.id };
            assert(votes_of_run(s, props) == seq![v0] + rest);
            assert(forall|k: int|
                0 <= k < rest.len() ==> (seq![v0] + rest)[k + 1] == #[trigger] rest[k]);
        }
    }
}

/// Non-equivocation: for any sequence of vote requests fed to safety rules,
/// the emitted votes have strictly increasing rounds, so no two of them sit
/// in the same round with different block ids.
pub proof fn lemma_no_equivocation(s: ConsensusState, props: Seq<Block>)
    ensures
        forall|i: int, j: int|
            0 <= i < j < votes_of_run(s, props).len() ==> votes_of_run(s, props)[i].round
                < votes_of_run(s, props)[j].round,
        forall|i: int, j: int|
            0 <= i < votes_of_run(s, props).len() && 0 <= j < votes_of_run(s, props).len() && i != j
                ==> !(votes_of_run(s, props)[i].round == votes_of_run(s, props)[j].round
                && votes_of_run(s, props)[i].block_id != votes_of_run(s, props)[j].block_id),
{
    lemma_run_votes_monotonic(s, props);
}

/// The voting oracle. It owns the persistent store; every state change is
/// made durable before the vote that caused it is released, so a crash
/// between the two loses a vote but never equivocates.
#[derive(Clone, Copy, Debug)]
pub struct SafetyRules {
    persistent_storage: InMemoryStorage,
    validator_set_size: u64,
}

impl SafetyRules {
    pub closed spec fn state(self) -> ConsensusState {
        self.persistent_storage.state_spec()
    }

    pub closed spec fn validator_set_size_spec(self) -> u64 {
        self.validator_set_size
    }

    /// Recovers safety rules from a persisted state, as on node start.
    pub fn new(storage: InMemoryStorage, validator_set_size: u64) -> (r: SafetyRules)
        ensures
            r.state() == storage.state_spec(),
            r.validator_set_size_spec() == validator_set_size,
    {
        SafetyRules { persistent_storage: storage, validator_set_size }
    }

    /// Read-only view of the current safety state.
    pub fn consensus_state(&self) -> (r: ConsensusState)
        ensures
            r == self.state(),
    {
        self.persistent_storage.get()
    }

    /// Checks the monotonic-round invariants against the proposal, persists
    /// the advanced `last_voted_round`, and only then signs and releases the
    /// vote. The parent's round is the round certified by the proposal's
    /// quorum certificate.
    pub fn construct_and_sign_vote(&mut self, proposal: &Block) -> (r: Result<Vote, Error>)
        ensures
            final(self).validator_set_size_spec() == old(self).validator_set_size_spec(),
            final(self).state() == vote_step(
                old(self).state(), proposal.round, proposal.qc.certified_round),
            vote_allowed(old(self).state(), proposal.round, proposal.qc.certified_round)
                ==> r == Ok::<Vote, Error>(Vote {
                    epoch: old(self).state().epoch,
                    round: proposal.round,
                    block_id: proposal.id,
                }),
            proposal.round <= old(self).state().last_voted_round
                ==> r == Err::<Vote, Error>(Error::OldProposal {
                    proposal_round: proposal.round,
                    last_voted_round: old(self).state().last_voted_round,
                }),
            proposal.round > old(self).state().last_voted_round
                && proposal.qc.certified_round < old(self).state().preferred_round
                ==> r == Err::<Vote, Error>(Error::ProposalRoundLowerThanPreferred {
                    parent_round: proposal.qc.certified_round,
                    preferred_round: old(self).state().preferred_round,
                }),
    {
        let state = self.persistent_storage.get();
        if proposal.round <= state.last_voted_round {
            return Err(Error::OldProposal {
                proposal_round: proposal.round,
                last_voted_round: state.last_voted_round,
            });
        }
        if proposal.qc.certified_round < state.preferred_round {
            return Err(Error::ProposalRoundLowerThanPreferred {
                parent_round: proposal.qc.certified_round,
                preferred_round: state.preferred_round,
            });
        }
        let new_state = ConsensusState { last_voted_round: proposal.round, ..state };
        match self.persistent_storage.set(new_state) {
            Ok(()) => {}
            Err(_) => {
                return Err(Error::StorageError);
            }
        }
        Ok(Vote { epoch: state.epoch, round: proposal.round, block_id: proposal.id })
    }

    /// Advances the preferred round to the parent round the quorum
    /// certificate carries; it never decreases.
    pub fn update_preferred_round(&mut self, qc: &QuorumCert) -> (r: Result<(), Error>)
        ensures
            r is Ok,
            final(self).validator_set_size_spec() == old(self).validator_set_size_spec(),
            final(self).state().epoch == old(self).state().epoch,
            final(self).state().last_voted_round == old(self).state().last_voted_round,
            final(self).state().preferred_round == if qc.parent_round
                > old(self).state().preferred_round {
                qc.parent_round
            } else {
                old(self).state().preferred_round
            },
    {
        let state = self.persistent_storage.get();
        if qc.parent_round > state.preferred_round {
            let new_state = ConsensusState { preferred_round: qc.parent_round, ..state };
            match self.persistent_storage.set(new_state) {
                Ok(()) => {}
                Err(_) => {
                    return Err(Error::StorageError);
                }
            }
        }
        Ok(())
    }

    /// Validates the proof chain and rolls the epoch forward: the new epoch
    /// is one past the last boundary, the round counters reset to zero, and
    /// the validator set becomes the one the last boundary installed.
    /// Rejects with `InvalidEpochChange` whenever the chain is not valid,
    /// leaving the state unchanged.
    pub fn start_new_epoch(&mut self, proof: &ValidatorChangeProof) -> (r: Result<(), Error>)
        ensures
            proof.ledger_infos@.len() == 0 ==> r == Err::<(), Error>(Error::InvalidEpochChange),
            r is Err ==> *final(self) == *old(self)
                && r == Err::<(), Error>(Error::InvalidEpochChange),
            r is Ok ==> {
                &&& proof.ledger_infos@.len() > 0
                &&& epoch_chain_ok(
                    proof.ledger_infos@,
                    old(self).state().epoch,
                    old(self).validator_set_size_spec(),
                )
                &&& final(self).state() == (ConsensusState {
                    epoch: (proof.ledger_infos@.last().ledger_info.epoch + 1) as u64,
                    last_voted_round: 0,
                    preferred_round: 0,
                })
                &&& final(self).validator_set_size_spec()
                    == proof.ledger_infos@.last().ledger_info.next_validator_set_size
            },
            epoch_chain_ok(
                proof.ledger_infos@,
                old(self).state().epoch,
                old(self).validator_set_size_spec(),
            ) && proof.ledger_infos@.len() > 0 ==> r is Ok,
    {
        let state = self.persistent_storage.get();
        if proof.ledger_infos.len() == 0 {
            return Err(Error::InvalidEpochChange);
        }
        let mut i: usize = 0;
        let mut epoch: u64 = state.epoch;
        let mut set_size: u64 = self.validator_set_size;
        proof {
            assert(proof.ledger_infos@.skip(0) =~= proof.ledger_infos@);
        }
        while i < proof.ledger_infos.len()
            invariant
                0 <= i <= proof.ledger_infos@.len(),
                epoch_chain_ok(proof.ledger_infos@, state.epoch, self.validator_set_size)
                    <==> epoch_chain_ok(proof.ledger_infos@.skip(i as int), epoch, set_size),
                i > 0 ==> epoch == proof.ledger_infos@[i - 1].ledger_info.epoch + 1,
                i > 0 ==> set_size
                    == proof.ledger_infos@[i - 1].ledger_info.next_validator_set_size,
                *self == *old(self),
                state == old(self).state(),
            decreases proof.ledger_infos@.len() - i,
        {
            let li = &proof.ledger_infos[i];
            proof {
                assert(proof.ledger_infos@.skip(i as int)[0] == proof.ledger_infos@[i as int]);
                assert(proof.ledger_infos@.skip(i as int).drop_first()
                    =~= proof.ledger_infos@.skip(i + 1));
            }
            if !(li.ledger_info.epoch == epoch && check_quorum(li, set_size)
                && li.ledger_info.next_validator_set_size >= 1 && epoch < u64::MAX) {
                proof {
                    assert(!epoch_link_ok(proof.ledger_infos@[i as int], epoch, set_size));
                    assert(!epoch_chain_ok(proof.ledger_infos@.skip(i as int), epoch, set_size));
                    assert(!epoch_chain_ok(
                        proof.ledger_infos@,
                        state.epoch,
                        self.validator_set_size,
                    ));
                }
                return Err(Error::InvalidEpochChange);
            }
            epoch = epoch + 1;
            set_size = li.ledger_info.next_validator_set_size;
            i = i + 1;
        }
        proof {
            assert(proof.ledger_infos@.skip(i as int) =~= Seq::<
                LedgerInfoWithSignatures,
            >::empty());
            assert(epoch_chain_ok(proof.ledger_infos@, state.epoch, self.validator_set_size));
        }
        let new_state = ConsensusState { epoch, last_voted_round: 0, preferred_round: 0 };
        match self.persistent_storage.set(new_state) {
            Ok(()) => {}
            Err(_) => {
                return Err(Error::InvalidEpochChange);
            }
        }
        self.validator_set_size = set_size;
        Ok(())
    }
}

} // verus!
