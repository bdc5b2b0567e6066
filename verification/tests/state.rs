use bft_finality::consensus_types::{
    Block, ExecutedBlock, LedgerInfo, LedgerInfoWithSignatures, PivotBlockDecision, QuorumCert,
};
use bft_finality::state_computer::{Error, LocalStateComputer};
use bft_finality::peers::PeerState;
use bft_finality::txn_manager::LocalTxnManager;
use bft_finality::types::{HashValue, SignedTransaction};

fn h(x: u64) -> HashValue {
    HashValue { w0: 0, w1: 0, w2: 0, w3: x }
}

fn tx(id: u64, vm_ok: bool, expiration_usecs: u64) -> SignedTransaction {
    SignedTransaction { hash: h(id), sender: h(id + 500), nonce: id, expiration_usecs, vm_ok }
}

fn block(round: u64, id: u64, parent_root: u64, payload: Vec<SignedTransaction>) -> Block {
    Block {
        id: h(id),
        epoch: 1,
        round,
        parent_id: h(id + 1000),
        payload,
        qc: QuorumCert {
            certified_round: round.saturating_sub(1),
            certified_id: h(id + 1000),
            certified_state_root: h(parent_root),
            parent_round: round.saturating_sub(2),
            num_signatures: 3,
        },
        pivot_decision: None,
        author: h(42),
        signature: h(43),
    }
}

fn proof_for(last: &ExecutedBlock, num_signatures: u64, next_validator_set_size: u64, epoch: u64)
    -> LedgerInfoWithSignatures {
    LedgerInfoWithSignatures {
        ledger_info: LedgerInfo {
            epoch,
            round: last.block.round,
            committed_id: last.block.id,
            committed_state_root: last.output.state_root,
            next_validator_set_size,
        },
        num_signatures,
    }
}

fn genesis() -> LedgerInfoWithSignatures {
    LedgerInfoWithSignatures {
        ledger_info: LedgerInfo {
            epoch: 1,
            round: 0,
            committed_id: h(0),
            committed_state_root: h(0),
            next_validator_set_size: 0,
        },
        num_signatures: 4,
    }
}

fn computer() -> LocalStateComputer {
    LocalStateComputer::new(genesis(), 1, 4)
}

#[test]
fn compute_is_deterministic() {
    let sc = computer();
    let b = block(1, 1, 5, vec![tx(1, true, 100), tx(2, false, 100)]);
    let out1 = sc.compute(&b, None).unwrap();
    let out2 = sc.compute(&b, None).unwrap();
    assert_eq!(out1.state_root, out2.state_root);
    assert_eq!(out1.txn_status, vec![true, false]);
    assert_ne!(out1.state_root, h(5));
}

#[test]
fn compute_all_failed_keeps_parent_root() {
    let sc = computer();
    let b = block(1, 1, 5, vec![tx(1, false, 100), tx(2, false, 100)]);
    let out = sc.compute(&b, None).unwrap();
    assert_eq!(out.state_root, h(5));
    assert_eq!(out.txn_status, vec![false, false]);
}

#[test]
fn compute_threads_pivot_decision() {
    let sc = computer();
    let inherited = PivotBlockDecision { height: 7, block_hash: h(70) };
    let b = block(1, 1, 5, vec![]);
    let out = sc.compute(&b, Some(inherited)).unwrap();
    assert_eq!(out.pivot_decision, Some(inherited));
    let own = PivotBlockDecision { height: 9, block_hash: h(90) };
    let mut b2 = block(2, 2, 5, vec![]);
    b2.pivot_decision = Some(own);
    let out2 = sc.compute(&b2, Some(inherited)).unwrap();
    assert_eq!(out2.pivot_decision, Some(own));
}

#[test]
fn committed_roots_equal_computed_roots() {
    let mut sc = computer();
    let b = block(1, 1, 0, vec![tx(1, true, 100)]);
    let out = sc.compute(&b, None).unwrap();
    let eb = ExecutedBlock { block: b, output: out.clone() };
    let proof = proof_for(&eb, 3, 0, 1);
    assert_eq!(sc.commit(&vec![eb], proof), Ok(()));
    let committed = sc.committed_blocks();
    assert_eq!(committed.len(), 1);
    assert_eq!(committed[0].state_root, out.state_root);
    assert_eq!(sc.get_current_ledger_info(), proof);
}

#[test]
fn commit_atomicity_under_invalid_proof() {
    let mut sc = computer();
    // Establish one epoch boundary so the proof query has something to show.
    let b1 = block(1, 1, 0, vec![tx(1, true, 100)]);
    let out1 = sc.compute(&b1, None).unwrap();
    let eb1 = ExecutedBlock { block: b1, output: out1 };
    let boundary = proof_for(&eb1, 3, 4, 1);
    assert_eq!(sc.commit(&vec![eb1], boundary), Ok(()));
    let before_ledger = sc.get_current_ledger_info();
    let before_proof = sc.get_epoch_proof(1, 2).unwrap();

    // One signature below quorum: refused, and nothing changes.
    let b2 = block(2, 2, 0, vec![tx(2, true, 100)]);
    let out2 = sc.compute(&b2, None).unwrap();
    let eb2 = ExecutedBlock { block: b2, output: out2 };
    let weak = proof_for(&eb2, 2, 0, 2);
    assert_eq!(sc.commit(&vec![eb2], weak), Err(Error::InvalidFinalityProof));
    assert_eq!(sc.get_current_ledger_info(), before_ledger);
    assert_eq!(
        sc.get_epoch_proof(1, 2).unwrap().ledger_infos,
        before_proof.ledger_infos
    );
    assert_eq!(sc.committed_blocks().len(), 1);
}

#[test]
fn commit_refuses_mismatching_proof() {
    let mut sc = computer();
    let b = block(1, 1, 0, vec![]);
    let out = sc.compute(&b, None).unwrap();
    let eb = ExecutedBlock { block: b, output: out };
    let mut proof = proof_for(&eb, 3, 0, 1);
    proof.ledger_info.committed_id = h(999);
    assert_eq!(sc.commit(&vec![eb], proof), Err(Error::InvalidFinalityProof));
    assert_eq!(sc.committed_blocks().len(), 0);
}

#[test]
fn commit_refuses_empty_block_list() {
    let mut sc = computer();
    let b = block(1, 1, 0, vec![]);
    let out = sc.compute(&b, None).unwrap();
    let eb = ExecutedBlock { block: b, output: out };
    let proof = proof_for(&eb, 3, 0, 1);
    assert_eq!(sc.commit(&vec![], proof), Err(Error::InvalidFinalityProof));
}

#[test]
fn sync_to_is_all_or_nothing() {
    let mut sc = computer();
    let before = sc.get_current_ledger_info();
    let weak_target = LedgerInfoWithSignatures {
        ledger_info: LedgerInfo {
            epoch: 1,
            round: 50,
            committed_id: h(50),
            committed_state_root: h(51),
            next_validator_set_size: 0,
        },
        num_signatures: 2,
    };
    assert_eq!(sc.sync_to(weak_target), Err(Error::InvalidSyncTarget));
    assert_eq!(sc.get_current_ledger_info(), before);

    let target = LedgerInfoWithSignatures { num_signatures: 3, ..weak_target };
    assert_eq!(sc.sync_to(target), Ok(()));
    assert_eq!(sc.get_current_ledger_info(), target);
}

#[test]
fn epoch_proof_of_pruned_range_is_unavailable() {
    let sc = LocalStateComputer::new(genesis(), 3, 4);
    assert_eq!(sc.get_epoch_proof(2, 3), Err(Error::EpochRangeUnavailable));
    assert_eq!(sc.get_epoch_proof(3, 4), Err(Error::EpochRangeUnavailable));
    assert_eq!(sc.get_epoch_proof(5, 4), Err(Error::EpochRangeUnavailable));
    let empty = sc.get_epoch_proof(3, 3).unwrap();
    assert_eq!(empty.ledger_infos.len(), 0);
}

#[test]
fn peer_view_of_the_state_computer() {
    let mut sc = computer();
    assert_eq!(sc.get_peers().len(), 0);
    sc.record_peer(h(1), PeerState { best_round: 4, last_seen_usecs: 50 });
    sc.record_peer(h(2), PeerState { best_round: 6, last_seen_usecs: 60 });
    sc.record_peer(h(1), PeerState { best_round: 8, last_seen_usecs: 70 });
    assert_eq!(sc.get_peers().len(), 2);
    assert_eq!(
        sc.get_peers().get(&h(1)),
        Some(PeerState { best_round: 8, last_seen_usecs: 70 })
    );
}

#[test]
fn pull_txns_excludes_and_bounds() {
    let mempool = vec![tx(1, true, 100), tx(2, true, 100), tx(3, true, 100), tx(4, true, 100)];
    let mut tm = LocalTxnManager::new(mempool);
    let pulled = tm.pull_txns(2, &vec![tx(1, true, 100)]).unwrap();
    assert_eq!(pulled, vec![tx(2, true, 100), tx(3, true, 100)]);
    let all = tm.pull_txns(10, &vec![]).unwrap();
    assert_eq!(all.len(), 4);
}

#[test]
fn commit_txns_removes_payload_and_expired() {
    let mempool = vec![tx(1, true, 100), tx(2, true, 5), tx(3, true, 100)];
    let mut tm = LocalTxnManager::new(mempool);
    let payload = vec![tx(1, true, 100)];
    assert_eq!(tm.commit_txns(&payload, 10), Ok(()));
    // tx 1 was committed, tx 2 expired at timestamp 10.
    assert_eq!(tm.mempool(), &vec![tx(3, true, 100)]);
}

#[test]
fn commit_txns_twice_has_no_additional_effect() {
    let mempool = vec![tx(1, true, 100), tx(2, true, 5), tx(3, true, 100), tx(4, true, 100)];
    let mut tm = LocalTxnManager::new(mempool);
    let payload = vec![tx(1, true, 100), tx(4, true, 100)];
    assert_eq!(tm.commit_txns(&payload, 10), Ok(()));
    let after_once = tm.mempool().clone();
    assert_eq!(tm.commit_txns(&payload, 10), Ok(()));
    assert_eq!(tm.mempool(), &after_once);
}
