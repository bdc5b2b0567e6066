use bft_finality::consensus_types::{Block, LedgerInfo, LedgerInfoWithSignatures, QuorumCert, ValidatorChangeProof};
use bft_finality::safety_rules::{ConsensusState, Error, InMemoryStorage, SafetyRules};
use bft_finality::types::HashValue;

fn h(x: u64) -> HashValue {
    HashValue { w0: 0, w1: 0, w2: 0, w3: x }
}

fn proposal(round: u64, parent_round: u64, id: u64) -> Block {
    Block {
        id: h(id),
        epoch: 1,
        round,
        parent_id: h(id.wrapping_add(1000)),
        payload: vec![],
        qc: QuorumCert {
            certified_round: parent_round,
            certified_id: h(id.wrapping_add(1000)),
            certified_state_root: h(7),
            parent_round: parent_round.saturating_sub(1),
            num_signatures: 3,
        },
        pivot_decision: None,
        author: h(42),
        signature: h(43),
    }
}

fn rules(state: ConsensusState) -> SafetyRules {
    SafetyRules::new(InMemoryStorage::new(state), 4)
}

fn qc(parent_round: u64) -> QuorumCert {
    QuorumCert {
        certified_round: parent_round + 1,
        certified_id: h(parent_round),
        certified_state_root: h(7),
        parent_round,
        num_signatures: 3,
    }
}

fn boundary(epoch: u64, num_signatures: u64, next_validator_set_size: u64) -> LedgerInfoWithSignatures {
    LedgerInfoWithSignatures {
        ledger_info: LedgerInfo {
            epoch,
            round: 100,
            committed_id: h(epoch),
            committed_state_root: h(epoch),
            next_validator_set_size,
        },
        num_signatures,
    }
}

#[test]
fn vote_monotonicity() {
    let mut sr = rules(ConsensusState { epoch: 1, last_voted_round: 0, preferred_round: 0 });
    let v5 = sr.construct_and_sign_vote(&proposal(5, 0, 5)).unwrap();
    assert_eq!(v5.round, 5);
    let v7 = sr.construct_and_sign_vote(&proposal(7, 0, 7)).unwrap();
    assert_eq!(v7.round, 7);
    let refused = sr.construct_and_sign_vote(&proposal(6, 0, 6));
    assert_eq!(
        refused,
        Err(Error::OldProposal { proposal_round: 6, last_voted_round: 7 })
    );
    let v8 = sr.construct_and_sign_vote(&proposal(8, 0, 8)).unwrap();
    assert_eq!(v8.round, 8);
    assert_eq!(sr.consensus_state().last_voted_round, 8);
}

#[test]
fn vote_carries_epoch_and_block_id() {
    let mut sr = rules(ConsensusState { epoch: 3, last_voted_round: 1, preferred_round: 0 });
    let vote = sr.construct_and_sign_vote(&proposal(2, 0, 9)).unwrap();
    assert_eq!(vote.epoch, 3);
    assert_eq!(vote.block_id, h(9));
}

#[test]
fn crash_between_persist_and_sign() {
    // The round-10 update was persisted, then the node crashed before the
    // vote left it. On restart the rules come up from the persisted state.
    let persisted = ConsensusState { epoch: 1, last_voted_round: 10, preferred_round: 0 };
    let mut sr = rules(persisted);
    // A proposal at round 10 for a different block id must be rejected.
    let refused = sr.construct_and_sign_vote(&proposal(10, 0, 77));
    assert_eq!(
        refused,
        Err(Error::OldProposal { proposal_round: 10, last_voted_round: 10 })
    );
}

#[test]
fn parent_below_preferred_round_is_refused() {
    let mut sr = rules(ConsensusState { epoch: 1, last_voted_round: 0, preferred_round: 0 });
    sr.update_preferred_round(&qc(5)).unwrap();
    let refused = sr.construct_and_sign_vote(&proposal(6, 3, 6));
    assert_eq!(
        refused,
        Err(Error::ProposalRoundLowerThanPreferred { parent_round: 3, preferred_round: 5 })
    );
    // A proposal extending a fresh enough parent is accepted.
    let vote = sr.construct_and_sign_vote(&proposal(6, 5, 6)).unwrap();
    assert_eq!(vote.round, 6);
}

#[test]
fn preferred_round_never_decreases() {
    let mut sr = rules(ConsensusState { epoch: 1, last_voted_round: 0, preferred_round: 0 });
    sr.update_preferred_round(&qc(5)).unwrap();
    assert_eq!(sr.consensus_state().preferred_round, 5);
    sr.update_preferred_round(&qc(3)).unwrap();
    assert_eq!(sr.consensus_state().preferred_round, 5);
    sr.update_preferred_round(&qc(9)).unwrap();
    assert_eq!(sr.consensus_state().preferred_round, 9);
}

#[test]
fn epoch_change() {
    // Three boundaries from the current epoch; quorum for 4 validators is 3.
    let mut sr = rules(ConsensusState { epoch: 5, last_voted_round: 12, preferred_round: 7 });
    let proof = ValidatorChangeProof {
        ledger_infos: vec![boundary(5, 3, 4), boundary(6, 3, 4), boundary(7, 3, 4)],
    };
    assert_eq!(sr.start_new_epoch(&proof), Ok(()));
    assert_eq!(
        sr.consensus_state(),
        ConsensusState { epoch: 8, last_voted_round: 0, preferred_round: 0 }
    );
}

#[test]
fn empty_epoch_change_proof_is_refused() {
    let mut sr = rules(ConsensusState { epoch: 5, last_voted_round: 12, preferred_round: 7 });
    let proof = ValidatorChangeProof { ledger_infos: vec![] };
    assert_eq!(sr.start_new_epoch(&proof), Err(Error::InvalidEpochChange));
    assert_eq!(sr.consensus_state().epoch, 5);
    assert_eq!(sr.consensus_state().last_voted_round, 12);
}

#[test]
fn non_contiguous_epoch_change_proof_is_refused() {
    let mut sr = rules(ConsensusState { epoch: 5, last_voted_round: 0, preferred_round: 0 });
    let proof = ValidatorChangeProof {
        ledger_infos: vec![boundary(5, 3, 4), boundary(7, 3, 4)],
    };
    assert_eq!(sr.start_new_epoch(&proof), Err(Error::InvalidEpochChange));
    assert_eq!(sr.consensus_state().epoch, 5);
}

#[test]
fn wrong_start_epoch_is_refused() {
    let mut sr = rules(ConsensusState { epoch: 5, last_voted_round: 0, preferred_round: 0 });
    let proof = ValidatorChangeProof { ledger_infos: vec![boundary(6, 3, 4)] };
    assert_eq!(sr.start_new_epoch(&proof), Err(Error::InvalidEpochChange));
}

#[test]
fn below_quorum_epoch_change_proof_is_refused() {
    let mut sr = rules(ConsensusState { epoch: 5, last_voted_round: 0, preferred_round: 0 });
    let proof = ValidatorChangeProof { ledger_infos: vec![boundary(5, 2, 4)] };
    assert_eq!(sr.start_new_epoch(&proof), Err(Error::InvalidEpochChange));
}

#[test]
fn boundary_without_next_validator_set_is_refused() {
    let mut sr = rules(ConsensusState { epoch: 5, last_voted_round: 0, preferred_round: 0 });
    let proof = ValidatorChangeProof { ledger_infos: vec![boundary(5, 3, 0)] };
    assert_eq!(sr.start_new_epoch(&proof), Err(Error::InvalidEpochChange));
}
