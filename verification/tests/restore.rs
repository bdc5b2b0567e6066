use bft_finality::restore::{
    Chunk, ChunkKey, ChunkSlot, FullSyncVerifier, RestoreError, RestoreProgress, Restorer,
    SnapshotInfo, chunk_hash, compute_slots_root,
};
use bft_finality::types::HashValue;

fn h(x: u64) -> HashValue {
    HashValue { w0: 0, w1: 0, w2: 0, w3: x }
}

fn chunk(keys: Vec<u64>, values: Vec<u64>) -> Chunk {
    Chunk { keys, values }
}

/// Three chunks covering [0, 100), [100, 200), [200, 300).
fn setup() -> (HashValue, Vec<ChunkSlot>, Chunk, Chunk, Chunk) {
    let c0 = chunk(vec![3, 50], vec![10, 11]);
    let c1 = chunk(vec![100, 150], vec![20, 21]);
    let c2 = chunk(vec![200, 250, 299], vec![30, 31, 32]);
    let slots = vec![
        ChunkSlot { lower: 0, upper_bound_excl: 100, content_hash: chunk_hash(&c0) },
        ChunkSlot { lower: 100, upper_bound_excl: 200, content_hash: chunk_hash(&c1) },
        ChunkSlot { lower: 200, upper_bound_excl: 300, content_hash: chunk_hash(&c2) },
    ];
    let root = compute_slots_root(&slots);
    (root, slots, c0, c1, c2)
}

fn verifying_restorer() -> (Restorer, HashValue, Chunk, Chunk, Chunk) {
    let (root, slots, c0, c1, c2) = setup();
    let verifier = FullSyncVerifier::new(root, slots).unwrap();
    let mut restorer = Restorer::new(h(9));
    restorer.initialize_verifier(verifier);
    (restorer, root, c0, c1, c2)
}

fn key(upper: u64) -> ChunkKey {
    ChunkKey { upper_bound_excl: upper }
}

#[test]
fn idle_restorer_refuses_chunks() {
    let (_, _, c0, _, _) = setup();
    let mut restorer = Restorer::new(h(9));
    assert!(!restorer.append(key(100), &c0));
}

#[test]
fn verifier_refuses_mismatching_root() {
    let (root, slots, _, _, _) = setup();
    let wrong = HashValue { w0: root.w0 ^ 1, w1: root.w1, w2: root.w2, w3: root.w3 };
    assert!(FullSyncVerifier::new(wrong, slots).is_none());
}

#[test]
fn verifier_refuses_gapped_manifest() {
    let (_, _, c0, _, _) = setup();
    let slots = vec![
        ChunkSlot { lower: 0, upper_bound_excl: 100, content_hash: chunk_hash(&c0) },
        ChunkSlot { lower: 150, upper_bound_excl: 200, content_hash: 5 },
    ];
    let root = compute_slots_root(&slots);
    assert!(FullSyncVerifier::new(root, slots).is_none());
}

#[test]
fn restorer_happy_path() {
    // Deliver the chunks out of order; only the last delivery completes.
    let (mut restorer, root, c0, c1, c2) = verifying_restorer();
    assert!(!restorer.append(key(300), &c2));
    assert!(!restorer.append(key(100), &c0));
    assert!(restorer.append(key(200), &c1));
    let info = SnapshotInfo {
        snapshot_epoch_id: h(9),
        merkle_root: root,
        key_range_lower: 0,
        key_range_upper: 300,
        parent_snapshot_epoch_id: h(8),
    };
    assert_eq!(restorer.finalize_restoration(info), Ok(info));
    assert_eq!(restorer.restored_state_root(), root);
}

#[test]
fn restorer_bad_chunk() {
    let (mut restorer, _, c0, c1, _) = verifying_restorer();
    let mut corrupted = c1.clone();
    corrupted.values[1] = 99;
    assert!(!restorer.append(key(100), &c0));
    assert!(!restorer.append(key(200), &corrupted));
    // The correct chunk still goes through; the third is still missing.
    assert!(!restorer.append(key(200), &c1));
    let (_, _, _, _, c2) = setup();
    assert!(restorer.append(key(300), &c2));
}

#[test]
fn chunk_with_key_outside_range_is_refused() {
    let (mut restorer, _, _, c1, _) = verifying_restorer();
    let stray = chunk(vec![3, 250], vec![10, 11]);
    assert!(!restorer.append(key(100), &stray));
    assert!(!restorer.append(key(123), &c1));
}

#[test]
fn duplicate_chunk_is_idempotent() {
    let (mut restorer, _, c0, c1, c2) = verifying_restorer();
    assert!(!restorer.append(key(100), &c0));
    assert!(!restorer.append(key(100), &c0));
    assert!(!restorer.append(key(200), &c1));
    assert!(restorer.append(key(300), &c2));
    // A matching duplicate after completion still reports completion; a
    // mismatching one is still refused.
    assert!(restorer.append(key(100), &c0));
    let mut corrupted = c0.clone();
    corrupted.values[0] = 77;
    assert!(!restorer.append(key(100), &corrupted));
}

#[test]
fn restore_order_does_not_change_the_root() {
    let (root, slots, c0, c1, c2) = setup();
    let mut first = Restorer::new(h(9));
    first.initialize_verifier(FullSyncVerifier::new(root, slots.clone()).unwrap());
    let mut second = Restorer::new(h(9));
    second.initialize_verifier(FullSyncVerifier::new(root, slots).unwrap());

    first.append(key(100), &c0);
    first.append(key(200), &c1);
    assert!(first.append(key(300), &c2));

    second.append(key(300), &c2);
    second.append(key(200), &c1);
    assert!(second.append(key(100), &c0));

    assert_eq!(first.restored_state_root(), second.restored_state_root());
    assert_eq!(first.restored_state_root(), root);
}

#[test]
fn finalize_before_completion_is_refused() {
    let (restorer_idle, root, c0, _, _) = verifying_restorer();
    let info = SnapshotInfo {
        snapshot_epoch_id: h(9),
        merkle_root: root,
        key_range_lower: 0,
        key_range_upper: 300,
        parent_snapshot_epoch_id: h(8),
    };
    let mut restorer = restorer_idle;
    assert_eq!(
        restorer.finalize_restoration(info),
        Err(RestoreError::IncompleteSnapshot)
    );
    restorer.append(key(100), &c0);
    assert_eq!(
        restorer.finalize_restoration(info),
        Err(RestoreError::IncompleteSnapshot)
    );
    let idle = Restorer::new(h(9));
    assert_eq!(idle.finalize_restoration(info), Err(RestoreError::NotRestoring));
}

#[test]
fn finalize_refuses_mismatching_info() {
    let (mut restorer, root, c0, c1, c2) = verifying_restorer();
    restorer.append(key(100), &c0);
    restorer.append(key(200), &c1);
    assert!(restorer.append(key(300), &c2));
    let wrong_root = SnapshotInfo {
        snapshot_epoch_id: h(9),
        merkle_root: HashValue { w0: root.w0 ^ 1, w1: root.w1, w2: root.w2, w3: root.w3 },
        key_range_lower: 0,
        key_range_upper: 300,
        parent_snapshot_epoch_id: h(8),
    };
    assert_eq!(
        restorer.finalize_restoration(wrong_root),
        Err(RestoreError::SnapshotInfoMismatch)
    );
}

#[test]
fn default_restorer_is_idle_at_zero() {
    let restorer = Restorer::default();
    assert_eq!(restorer.snapshot_epoch_id, h(0));
    assert_eq!(restorer.snapshot_merkle_root, h(0));
}

#[test]
fn progress_counters() {
    let mut progress = RestoreProgress::new();
    assert!(progress.is_completed());
    progress.set_total(3);
    assert!(!progress.is_completed());
    progress.note_chunk_completed();
    progress.note_chunk_completed();
    assert!(!progress.is_completed());
    progress.note_chunk_completed();
    assert!(progress.is_completed());
    assert_eq!(progress.total(), 3);
    assert_eq!(progress.completed(), 3);
    let fresh = RestoreProgress::default();
    assert_eq!(fresh.total(), 0);
}
