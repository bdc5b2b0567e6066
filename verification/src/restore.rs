//! Chunk-wise verified reconstruction of a state snapshot at a checkpoint
//! epoch: a manifest-derived verifier accepts chunks in any order, refuses
//! anything that does not match the manifest, and reports completion
//! exactly when every slot of the key space is covered; the restorer wraps
//! it in the idle / verifying / finalizing lifecycle.

use vstd::prelude::*;
use crate::types::{HashValue, mix64, mix_hash};

verus! {

/// The identity of a chunk: the exclusive upper bound of its key range
/// within the snapshot key space.
#[derive(Clone, Copy, Debug, PartialEq, Eq, Structural)]
pub struct ChunkKey {
    pub upper_bound_excl: u64,
}

/// An ordered batch of key–value pairs covering one slot of the snapshot
/// key space; `keys` and `values` run in parallel.
#[derive(Clone, Debug)]
pub struct Chunk {
    pub keys: Vec<u64>,
    pub values: Vec<u64>,
}

/// One slot of the validated manifest: the half-open key range
/// `[lower, upper_bound_excl)` and the authenticator that the chunk
/// filling the slot must match.
#[derive(Clone, Copy, Debug, PartialEq, Eq, Structural)]
pub struct ChunkSlot {
    pub lower: u64,
    pub upper_bound_excl: u64,
    pub content_hash: u64,
}

/// Metadata of a restored snapshot, handed to the storage manager at
/// registration: identity, root, covered key range and parent link.
#[derive(Clone, Copy, Debug, PartialEq, Eq, Structural)]
pub struct SnapshotInfo {
    pub snapshot_epoch_id: HashValue,
    pub merkle_root: HashValue,
    pub key_range_lower: u64,
    pub key_range_upper: u64,
    pub parent_snapshot_epoch_id: HashValue,
}

/// Why a restore step was refused.
#[derive(Clone, Copy, Debug, PartialEq, Eq, Structural)]
pub enum RestoreError {
    /// No verifier has been installed: the restorer is idle.
    NotRestoring,
    /// Some slot of the snapshot has not received its chunk yet.
    IncompleteSnapshot,
    /// The snapshot info to register disagrees with the restored identity
    /// or root.
    SnapshotInfoMismatch,
}

/// The authenticator of a chunk's first `n` key–value pairs, seeded with
/// the pair count so that chunks differing only in length differ.
pub open spec fn kv_hash_prefix(keys: Seq<u64>, values: Seq<u64>, n: int) -> u64
    decreases n,
{
    if n <= 0 {
        mix64(0x9e3779b97f4a7c15, keys.len() as u64)
    } else {
        mix64(mix64(kv_hash_prefix(keys, values, n - 1), keys[n - 1]), values[n - 1])
    }
}

/// The authenticator of a whole chunk.
pub open spec fn chunk_hash_spec(keys: Seq<u64>, values: Seq<u64>) -> u64 {
    kv_hash_prefix(keys, values, keys.len() as int)
}

/// Computes the chunk authenticator that manifests record per slot.
pub fn chunk_hash(chunk: &Chunk) -> (r: u64)
    requires
        chunk.keys@.len() == chunk.values@.len(),
    ensures
        r == chunk_hash_spec(chunk.keys@, chunk.values@),
{
    let n = chunk.keys.len();
    let seed: u64 = 0x9e3779b97f4a7c15;
    let count: u64 = n as u64;
    let mut h: u64 = (((seed << 1) | (seed >> 63)) ^ count);
    let mut i: usize = 0;
    while i < n
        invariant
            0 <= i <= n,
            n == chunk.keys@.len(),
            n == chunk.values@.len(),
            h == kv_hash_prefix(chunk.keys@, chunk.values@, i as int),
        decreases n - i,
    {
        let k = chunk.keys[i];
        let v = chunk.values[i];
        h = ((h << 1) | (h >> 63)) ^ k;
        h = ((h << 1) | (h >> 63)) ^ v;
        i = i + 1;
    }
    h
}

/// Whether a chunk is exactly what a slot expects: parallel keys and
/// values, keys strictly increasing and inside the slot's range, and the
/// authenticator matching the manifest.
pub open spec fn chunk_fits_slot(slot: ChunkSlot, keys: Seq<u64>, values: Seq<u64>) -> bool {
    &&& keys.len() == values.len()
    &&& forall|k: int| 0 <= k < keys.len() ==> slot.lower <= #[trigger] keys[k] < slot.upper_bound_excl
    &&& forall|k: int| 0 <= k < keys.len() - 1 ==> #[trigger] keys[k] < keys[k + 1]
    &&& chunk_hash_spec(keys, values) == slot.content_hash
}

/// Checks a chunk against a slot of the manifest.
pub fn check_chunk(slot: &ChunkSlot, chunk: &Chunk) -> (r: bool)
    ensures
        r == chunk_fits_slot(*slot, chunk.keys@, chunk.values@),
{
    if chunk.keys.len() != chunk.values.len() {
        return false;
    }
    let n = chunk.keys.len();
    let mut i: usize = 0;
    while i < n
        invariant
            0 <= i <= n,
            n == chunk.keys@.len(),
            n == chunk.values@.len(),
            forall|k: int|
                0 <= k < i ==> slot.lower <= #[trigger] chunk.keys@[k] < slot.upper_bound_excl,
            forall|k: int| 0 <= k < i - 1 ==> #[trigger] chunk.keys@[k] < chunk.keys@[k + 1],
        decreases n - i,
    {
        let k = chunk.keys[i];
        if !(slot.lower <= k && k < slot.upper_bound_excl) {
            return false;
        }
        if i > 0 && !(chunk.keys[i - 1] < k) {
            return false;
        }
        i = i + 1;
    }
    chunk_hash(chunk) == slot.content_hash
}

/// A validated manifest: every slot's range is non-empty and consecutive
/// slots tile the key space without gaps.
pub open spec fn manifest_well_formed(slots: Seq<ChunkSlot>) -> bool {
    &&& forall|i: int|
        0 <= i < slots.len() ==> (#[trigger] slots[i]).lower < slots[i].upper_bound_excl
    &&& forall|i: int|
        0 <= i < slots.len() - 1 ==> (#[trigger] slots[i]).upper_bound_excl == slots[i + 1].lower
}

/// In a well-formed manifest the slots' upper bounds strictly increase, so
/// a chunk key names at most one slot.
pub proof fn lemma_manifest_uppers_increasing(slots: Seq<ChunkSlot>, i: int, j: int)
    requires
        manifest_well_formed(slots),
        0 <= i < j < slots.len(),
    ensures
        slots[i].upper_bound_excl < slots[j].upper_bound_excl,
    decreases j - i,
{
    if j == i + 1 {
        assert(slots[i].upper_bound_excl == slots[i + 1].lower);
    } else {
        lemma_manifest_uppers_increasing(slots, i, j - 1);
        assert(slots[j - 1].upper_bound_excl == slots[j].lower);
    }
}

/// The root derived from the first `n` slots of a manifest.
pub open spec fn slots_root_prefix(slots: Seq<ChunkSlot>, n: int) -> HashValue
    decreases n,
{
    if n <= 0 {
        HashValue::zero_spec()
    } else {
        mix_hash(slots_root_prefix(slots, n - 1), slots[n - 1].content_hash)
    }
}

/// The Merkle root that a fully restored snapshot derives from its
/// manifest: a fold of all slot authenticators. It depends on the manifest
/// alone, never on the order in which chunks arrived.
pub open spec fn slots_root(slots: Seq<ChunkSlot>) -> HashValue {
    slots_root_prefix(slots, slots.len() as int)
}

/// Computes the manifest-derived root.
pub fn compute_slots_root(slots: &Vec<ChunkSlot>) -> (r: HashValue)
    ensures
        r == slots_root(slots@),
{
    let mut h = HashValue::zero();
    let mut i: usize = 0;
    while i < slots.len()
        invariant
            0 <= i <= slots@.len(),
            h == slots_root_prefix(slots@, i as int),
        decreases slots@.len() - i,
    {
        let x = slots[i].content_hash;
        h = HashValue {
            w0: h.w1,
            w1: h.w2,
            w2: h.w3,
            w3: (((h.w0 << 1) | (h.w0 >> 63)) ^ x),
        };
        i = i + 1;
    }
    h
}

/// Whether the chunk identified by `upper` with content (`keys`, `values`)
/// fills slot `i` of the manifest.
pub open spec fn fills_slot(
    slots: Seq<ChunkSlot>,
    upper: u64,
    keys: Seq<u64>,
    values: Seq<u64>,
    i: int,
) -> bool {
    &&& 0 <= i < slots.len()
    &&& slots[i].upper_bound_excl == upper
    &&& chunk_fits_slot(slots[i], keys, values)
}

/// The coverage state after one delivery: the slot that the chunk fills,
/// if any, becomes received; everything else is untouched. A chunk that
/// names no slot or fails verification changes nothing, so the caller may
/// retry with another peer's copy.
pub open spec fn received_after(
    slots: Seq<ChunkSlot>,
    received: Seq<bool>,
    upper: u64,
    keys: Seq<u64>,
    values: Seq<u64>,
) -> Seq<bool> {
    if exists|i: int| fills_slot(slots, upper, keys, values, i) {
        received.update(choose|i: int| fills_slot(slots, upper, keys, values, i), true)
    } else {
        received
    }
}

/// The incremental verifier: the target Merkle root, the validated
/// manifest it came from, and which slots have received their chunk.
#[derive(Clone, Debug)]
pub struct FullSyncVerifier {
    merkle_root: HashValue,
    slots: Vec<ChunkSlot>,
    received: Vec<bool>,
}

impl FullSyncVerifier {
    /// The manifest the verifier was built from.
    pub closed spec fn slots_spec(self) -> Seq<ChunkSlot> {
        self.slots@
    }

    /// Which slots have received a verified chunk.
    pub closed spec fn received_spec(self) -> Seq<bool> {
        self.received@
    }

    /// The target Merkle root the manifest promised.
    pub closed spec fn target_root(self) -> HashValue {
        self.merkle_root
    }

    /// Verifier validity: the manifest is well formed, the coverage vector
    /// runs parallel to it, and the target root is the manifest-derived
    /// root — established at construction, preserved by every step.
    pub open spec fn wf(self) -> bool {
        &&& manifest_well_formed(self.slots_spec())
        &&& self.received_spec().len() == self.slots_spec().len()
        &&& self.target_root() == slots_root(self.slots_spec())
    }

    /// All slots covered: the completion criterion.
    pub open spec fn complete_spec(self) -> bool {
        forall|i: int| 0 <= i < self.received_spec().len() ==> self.received_spec()[i]
    }

    /// Builds a verifier from a manifest already validated upstream:
    /// refuses a manifest that is not well formed or whose declared root
    /// is not the root its slots derive.
    pub fn new(merkle_root: HashValue, slots: Vec<ChunkSlot>) -> (r: Option<FullSyncVerifier>)
        ensures
            match r {
                Some(v) => {
                    &&& v.wf()
                    &&& v.slots_spec() == slots@
                    &&& v.target_root() == merkle_root
                    &&& v.received_spec() == Seq::new(slots@.len(), |i: int| false)
                    &&& manifest_well_formed(slots@)
                    &&& slots_root(slots@) == merkle_root
                },
                None => !(manifest_well_formed(slots@) && slots_root(slots@) == merkle_root),
            },
    {
        let n = slots.len();
        let mut i: usize = 0;
        while i < n
            invariant
                0 <= i <= n,
                n == slots@.len(),
                forall|k: int| 0 <= k < i ==> (#[trigger] slots@[k]).lower < slots@[k].upper_bound_excl,
                forall|k: int|
                    0 <= k < i - 1 ==> (#[trigger] slots@[k]).upper_bound_excl == slots@[k + 1].lower,
            decreases n - i,
        {
            let s = slots[i];
            if !(s.lower < s.upper_bound_excl) {
                return None;
            }
            if i > 0 && !(slots[i - 1].upper_bound_excl == s.lower) {
                return None;
            }
            i = i + 1;
        }
        let derived = compute_slots_root(&slots);
        if !(derived.w0 == merkle_root.w0 && derived.w1 == merkle_root.w1 && derived.w2
            == merkle_root.w2 && derived.w3 == merkle_root.w3) {
            return None;
        }
        let mut received: Vec<bool> = Vec::new();
        let mut j: usize = 0;
        while j < n
            invariant
                0 <= j <= n,
                received@.len() == j,
                forall|k: int| 0 <= k < j ==> !(#[trigger] received@[k]),
            decreases n - j,
        {
            received.push(false);
            j = j + 1;
        }
        proof {
            assert(received@ =~= Seq::new(slots@.len(), |i: int| false));
        }
        Some(FullSyncVerifier { merkle_root, slots, received })
    }

    /// The target root, for callers that advertise it.
    pub fn target_root_value(&self) -> (r: HashValue)
        ensures
            r == self.target_root(),
    {
        self.merkle_root
    }

    /// Whether every slot has received its chunk.
    pub fn is_complete(&self) -> (r: bool)
        ensures
            r == self.complete_spec(),
    {
        let mut i: usize = 0;
        while i < self.received.len()
            invariant
                0 <= i <= self.received@.len(),
                forall|k: int| 0 <= k < i ==> self.received@[k],
            decreases self.received@.len() - i,
        {
            if !self.received[i] {
                proof {
                    assert(!self.received_spec()[i as int]);
                }
                return false;
            }
            i = i + 1;
        }
        true
    }

    /// Feeds one chunk: verifies it against the slot its key names and
    /// marks the slot received on success. Returns true exactly when the
    /// chunk verified and the snapshot is now complete; acceptance is
    /// monotone, and a duplicate is accepted again only if its bytes still
    /// match the manifest.
    pub fn restore_chunk(&mut self, upper_bound_excl: u64, chunk: &Chunk) -> (r: bool)
        requires
            old(self).wf(),
        ensures
            final(self).wf(),
            final(self).slots_spec() == old(self).slots_spec(),
            final(self).target_root() == old(self).target_root(),
            final(self).received_spec() == received_after(
                old(self).slots_spec(),
                old(self).received_spec(),
                upper_bound_excl,
                chunk.keys@,
                chunk.values@,
            ),
            r == ((exists|i: int|
                fills_slot(
                    old(self).slots_spec(),
                    upper_bound_excl,
                    chunk.keys@,
                    chunk.values@,
                    i,
                )) && final(self).complete_spec()),
    {
        let ghost slots0 = self.slots@;
        let ghost received0 = self.received@;
        let n = self.slots.len();
        let mut i: usize = 0;
        while i < n
            invariant
                0 <= i <= n,
                n == self.slots@.len(),
                forall|k: int| 0 <= k < i ==> (#[trigger] self.slots@[k]).upper_bound_excl != upper_bound_excl,
                *self == *old(self),
                slots0 == self.slots@,
                received0 == self.received@,
                old(self).wf(),
            decreases n - i,
        {
            if self.slots[i].upper_bound_excl == upper_bound_excl {
                let fits = check_chunk(&self.slots[i], chunk);
                proof {
                    if exists|j: int|
                        fills_slot(slots0, upper_bound_excl, chunk.keys@, chunk.values@, j) {
                        let j = choose|j: int|
                            fills_slot(slots0, upper_bound_excl, chunk.keys@, chunk.values@, j);
                        if j != i {
                            if j < i {
                                lemma_manifest_uppers_increasing(slots0, j, i as int);
                            } else {
                                lemma_manifest_uppers_increasing(slots0, i as int, j);
                            }
                        }
                    }
                }
                if fits {
                    self.received.set(i, true);
                    proof {
                        assert(fills_slot(
                            slots0,
                            upper_bound_excl,
                            chunk.keys@,
                            chunk.values@,
                            i as int,
                        ));
                        assert(self.received@ =~= received_after(
                            slots0,
                            received0,
                            upper_bound_excl,
                            chunk.keys@,
                            chunk.values@,
                        ));
                    }
                    return self.is_complete();
                } else {
                    proof {
                        assert(self.received@ =~= received_after(
                            slots0,
                            received0,
                            upper_bound_excl,
                            chunk.keys@,
                            chunk.values@,
                        ));
                    }
                    return false;
                }
            }
            i = i + 1;
        }
        proof {
            assert(forall|j: int|
                !fills_slot(slots0, upper_bound_excl, chunk.keys@, chunk.values@, j));
            assert(self.received@ =~= received_after(
                slots0,
                received0,
                upper_bound_excl,
                chunk.keys@,
                chunk.values@,
            ));
        }
        false
    }
}

/// A delivery as the laws below see it: a chunk key with the chunk's keys
/// and values.
pub open spec fn delivery_fills(
    slots: Seq<ChunkSlot>,
    d: (u64, Seq<u64>, Seq<u64>),
    i: int,
) -> bool {
    fills_slot(slots, d.0, d.1, d.2, i)
}

/// The coverage state after a whole sequence of deliveries, first to last.
pub open spec fn received_after_all(
    slots: Seq<ChunkSlot>,
    received: Seq<bool>,
    ds: Seq<(u64, Seq<u64>, Seq<u64>)>,
) -> Seq<bool>
    decreases ds.len(),
{
    if ds.len() == 0 {
        received
    } else {
        received_after_all(
            slots,
            received_after(slots, received, ds[0].0, ds[0].1, ds[0].2),
            ds.drop_first(),
        )
    }
}

/// A chunk key names at most one slot of a well-formed manifest.
pub proof fn lemma_fills_slot_unique(
    slots: Seq<ChunkSlot>,
    upper: u64,
    keys: Seq<u64>,
    values: Seq<u64>,
    i: int,
    j: int,
)
    requires
        manifest_well_formed(slots),
        fills_slot(slots, upper, keys, values, i),
        fills_slot(slots, upper, keys, values, j),
    ensures
        i == j,
{
    if i < j {
        lemma_manifest_uppers_increasing(slots, i, j);
    } else if j < i {
        lemma_manifest_uppers_increasing(slots, j, i);
    }
}

/// Acceptance is monotone: a slot once covered stays covered through any
/// further deliveries, and deliveries never change the coverage length.
pub proof fn lemma_acceptance_monotone(
    slots: Seq<ChunkSlot>,
    received: Seq<bool>,
    ds: Seq<(u64, Seq<u64>, Seq<u64>)>,
)
    requires
        received.len() == slots.len(),
    ensures
        received_after_all(slots, received, ds).len() == received.len(),
        forall|i: int|
            0 <= i < received.len() && received[i] ==> received_after_all(slots, received, ds)[i],
    decreases ds.len(),
{
    if ds.len() > 0 {
        let r1 = received_after(slots, received, ds[0].0, ds[0].1, ds[0].2);
        if exists|j: int| fills_slot(slots, ds[0].0, ds[0].1, ds[0].2, j) {
            let j = choose|j: int| fills_slot(slots, ds[0].0, ds[0].1, ds[0].2, j);
            assert(r1 == received.update(j, true));
        }
        assert(r1.len() == received.len());
        assert(forall|i: int| 0 <= i < received.len() && received[i] ==> r1[i]);
        lemma_acceptance_monotone(slots, r1, ds.drop_first());
    }
}

/// Whether some delivery of the sequence fills slot `i`.
pub open spec fn slot_covered(
    slots: Seq<ChunkSlot>,
    ds: Seq<(u64, Seq<u64>, Seq<u64>)>,
    i: int,
) -> bool {
    exists|d: int| 0 <= d < ds.len() && delivery_fills(slots, #[trigger] ds[d], i)
}

/// After a delivery sequence in which some delivery fills slot `i`, slot
/// `i` is covered, wherever in the sequence that delivery sits.
#[verifier::rlimit(50)]
pub proof fn lemma_covered_slot_received(
    slots: Seq<ChunkSlot>,
    received: Seq<bool>,
    ds: Seq<(u64, Seq<u64>, Seq<u64>)>,
    i: int,
)
    requires
        manifest_well_formed(slots),
        received.len() == slots.len(),
        0 <= i < slots.len(),
        slot_covered(slots, ds, i),
    ensures
        received_after_all(slots, received, ds)[i],
    decreases ds.len(),
{
    let d = choose|d: int| 0 <= d < ds.len() && delivery_fills(slots, #[trigger] ds[d], i);
    let r1 = received_after(slots, received, ds[0].0, ds[0].1, ds[0].2);
    assert(r1.len() == received.len());
    if d == 0 {
        let w = choose|w: int| fills_slot(slots, ds[0].0, ds[0].1, ds[0].2, w);
        lemma_fills_slot_unique(slots, ds[0].0, ds[0].1, ds[0].2, w, i);
        assert(r1[i]);
        lemma_acceptance_monotone(slots, r1, ds.drop_first());
    } else {
        assert(delivery_fills(slots, ds.drop_first()[d - 1], i));
        assert(slot_covered(slots, ds.drop_first(), i));
        lemma_covered_slot_received(slots, r1, ds.drop_first(), i);
    }
}

/// Order independence of restoration: any two delivery sequences that each
/// provide a verified chunk for every slot of a valid manifest both drive
/// the verifier to completion, and the restored Merkle root of both runs
/// is the same — the root the manifest derives — regardless of the order,
/// duplication or interleaving of the deliveries.
pub proof fn lemma_restore_order_independent(
    slots: Seq<ChunkSlot>,
    received: Seq<bool>,
    ds1: Seq<(u64, Seq<u64>, Seq<u64>)>,
    ds2: Seq<(u64, Seq<u64>, Seq<u64>)>,
)
    requires
        manifest_well_formed(slots),
        received.len() == slots.len(),
        forall|i: int| 0 <= i < slots.len() ==> #[trigger] slot_covered(slots, ds1, i),
        forall|i: int| 0 <= i < slots.len() ==> #[trigger] slot_covered(slots, ds2, i),
    ensures
        forall|i: int| 0 <= i < slots.len() ==> received_after_all(slots, received, ds1)[i],
        forall|i: int| 0 <= i < slots.len() ==> received_after_all(slots, received, ds2)[i],
{
    assert forall|i: int| 0 <= i < slots.len() implies received_after_all(
        slots,
        received,
        ds1,
    )[i] by {
        lemma_covered_slot_received(slots, received, ds1, i);
    }
    assert forall|i: int| 0 <= i < slots.len() implies received_after_all(
        slots,
        received,
        ds2,
    )[i] by {
        lemma_covered_slot_received(slots, received, ds2, i);
    }
}

/// The restorer lifecycle around the verifier: idle until a validated
/// manifest installs a verifier, verifying while chunks arrive, and
/// finalizing once the verifier reports completion.
#[derive(Clone, Debug)]
pub struct Restorer {
    pub snapshot_epoch_id: HashValue,
    pub snapshot_merkle_root: HashValue,
    verifier: Option<FullSyncVerifier>,
}

impl Restorer {
    /// The installed verifier, if the restorer has left the idle state.
    pub closed spec fn verifier_spec(self) -> Option<FullSyncVerifier> {
        self.verifier
    }

    /// The checkpoint identity this restorer serves.
    pub closed spec fn epoch_id_spec(self) -> HashValue {
        self.snapshot_epoch_id
    }

    /// The advertised target root.
    pub closed spec fn root_spec(self) -> HashValue {
        self.snapshot_merkle_root
    }

    /// Restorer validity: an installed verifier is valid and agrees with
    /// the advertised target root.
    pub open spec fn wf(self) -> bool {
        match self.verifier_spec() {
            Some(v) => v.wf() && self.root_spec() == v.target_root(),
            None => true,
        }
    }

    /// An idle restorer waiting for the manifest of `checkpoint`.
    pub fn new(checkpoint: HashValue) -> (r: Restorer)
        ensures
            r.wf(),
            r.epoch_id_spec() == checkpoint,
            r.root_spec() == HashValue::zero_spec(),
            r.verifier_spec() is None,
    {
        Restorer {
            snapshot_epoch_id: checkpoint,
            snapshot_merkle_root: HashValue::zero(),
            verifier: None,
        }
    }

    /// As `new`; the snapshot data goes to the default restoration root
    /// directory, which only the unverified storage layer knows about.
    pub fn new_with_default_root_dir(checkpoint: HashValue) -> (r: Restorer)
        ensures
            r.wf(),
            r.epoch_id_spec() == checkpoint,
            r.root_spec() == HashValue::zero_spec(),
            r.verifier_spec() is None,
    {
        Restorer::new(checkpoint)
    }

    /// Enters the verifying state once a manifest has been validated
    /// upstream: installs the verifier and advertises its target root.
    pub fn initialize_verifier(&mut self, verifier: FullSyncVerifier)
        requires
            verifier.wf(),
        ensures
            final(self).wf(),
            final(self).epoch_id_spec() == old(self).epoch_id_spec(),
            final(self).root_spec() == verifier.target_root(),
            final(self).verifier_spec() == Some(verifier),
    {
        self.snapshot_merkle_root = verifier.target_root_value();
        self.verifier = Some(verifier);
    }

    /// Appends a chunk for restoration. While idle this refuses everything;
    /// while verifying it forwards to the verifier and returns true exactly
    /// when this chunk verified and completed the snapshot.
    pub fn append(&mut self, key: ChunkKey, chunk: &Chunk) -> (r: bool)
        requires
            old(self).wf(),
        ensures
            final(self).wf(),
            final(self).epoch_id_spec() == old(self).epoch_id_spec(),
            final(self).root_spec() == old(self).root_spec(),
            old(self).verifier_spec() is None ==> r == false && *final(self) == *old(self),
            match (old(self).verifier_spec(), final(self).verifier_spec()) {
                (Some(v0), Some(v1)) => {
                    &&& v1.slots_spec() == v0.slots_spec()
                    &&& v1.target_root() == v0.target_root()
                    &&& v1.received_spec() == received_after(
                        v0.slots_spec(),
                        v0.received_spec(),
                        key.upper_bound_excl,
                        chunk.keys@,
                        chunk.values@,
                    )
                    &&& r == ((exists|i: int|
                        fills_slot(
                            v0.slots_spec(),
                            key.upper_bound_excl,
                            chunk.keys@,
                            chunk.values@,
                            i,
                        )) && v1.complete_spec())
                },
                (None, None) => true,
                _ => false,
            },
    {
        match &mut self.verifier {
            None => false,
            Some(verifier) => verifier.restore_chunk(key.upper_bound_excl, chunk),
        }
    }

    /// Leaves the verifying state: succeeds exactly when the verifier
    /// reports completion and the snapshot info to register matches the
    /// restored identity and root. The caller then commits the assembled
    /// snapshot on disk and registers it with the storage manager; a
    /// failure there is fatal to the restore attempt.
    pub fn finalize_restoration(&self, snapshot_info: SnapshotInfo) -> (r: Result<
        SnapshotInfo,
        RestoreError,
    >)
        requires
            self.wf(),
        ensures
            match self.verifier_spec() {
                None => r == Err::<SnapshotInfo, RestoreError>(RestoreError::NotRestoring),
                Some(v) => {
                    &&& !v.complete_spec() ==> r == Err::<SnapshotInfo, RestoreError>(
                        RestoreError::IncompleteSnapshot,
                    )
                    &&& v.complete_spec() && !(snapshot_info.merkle_root == self.root_spec()
                        && snapshot_info.snapshot_epoch_id == self.epoch_id_spec()) ==> r
                        == Err::<SnapshotInfo, RestoreError>(RestoreError::SnapshotInfoMismatch)
                    &&& v.complete_spec() && snapshot_info.merkle_root == self.root_spec()
                        && snapshot_info.snapshot_epoch_id == self.epoch_id_spec() ==> r
                        == Ok::<SnapshotInfo, RestoreError>(snapshot_info)
                        && snapshot_info.merkle_root == slots_root(v.slots_spec())
                },
            },
    {
        match &self.verifier {
            None => Err(RestoreError::NotRestoring),
            Some(verifier) => {
                if !verifier.is_complete() {
                    return Err(RestoreError::IncompleteSnapshot);
                }
                if !(snapshot_info.merkle_root == self.snapshot_merkle_root
                    && snapshot_info.snapshot_epoch_id == self.snapshot_epoch_id) {
                    return Err(RestoreError::SnapshotInfoMismatch);
                }
                Ok(snapshot_info)
            }
        }
    }

    /// The Merkle root of the restored snapshot. Once the verifier is
    /// complete this equals the root re-derived from the manifest, so the
    /// declared target is never reported unchecked.
    pub fn restored_state_root(&self) -> (r: HashValue)
        requires
            self.wf(),
        ensures
            r == self.root_spec(),
            match self.verifier_spec() {
                Some(v) => r == slots_root(v.slots_spec()),
                None => true,
            },
    {
        self.snapshot_merkle_root
    }
}

/// Shared progress counters for the restoration, read by the UX path;
/// correctness relies solely on the verifier's completion signal.
#[derive(Debug)]
pub struct RestoreProgress {
    total: usize,
    completed: usize,
}

impl RestoreProgress {
    pub closed spec fn total_spec(self) -> usize {
        self.total
    }

    pub closed spec fn completed_spec(self) -> usize {
        self.completed
    }

    pub fn new() -> (r: RestoreProgress)
        ensures
            r.total_spec() == 0,
            r.completed_spec() == 0,
    {
        RestoreProgress { total: 0, completed: 0 }
    }

    /// Records how many chunks the accepted manifest announces.
    pub fn set_total(&mut self, total: usize)
        ensures
            final(self).total_spec() == total,
            final(self).completed_spec() == old(self).completed_spec(),
    {
        self.total = total;
    }

    /// Records one more restored chunk.
    pub fn note_chunk_completed(&mut self)
        requires
            old(self).completed_spec() < usize::MAX,
        ensures
            final(self).total_spec() == old(self).total_spec(),
            final(self).completed_spec() == old(self).completed_spec() + 1,
    {
        self.completed = self.completed + 1;
    }

    pub fn total(&self) -> (r: usize)
        ensures
            r == self.total_spec(),
    {
        self.total
    }

    pub fn completed(&self) -> (r: usize)
        ensures
            r == self.completed_spec(),
    {
        self.completed
    }

    /// Whether every announced chunk has been restored.
    pub fn is_completed(&self) -> (r: bool)
        ensures
            r == (self.completed_spec() >= self.total_spec()),
    {
        let total = self.total;
        let completed = self.completed;
        completed >= total
    }
}

impl Default for RestoreProgress {
    /// Fresh counters: nothing announced, nothing restored.
    fn default() -> (r: RestoreProgress)
        ensures
            r.total_spec() == 0,
            r.completed_spec() == 0,
    {
        RestoreProgress::new()
    }
}

impl Default for Restorer {
    /// An idle restorer for the zero checkpoint.
    fn default() -> (r: Restorer)
        ensures
            r.wf(),
            r.epoch_id_spec() == HashValue::zero_spec(),
            r.root_spec() == HashValue::zero_spec(),
            r.verifier_spec() is None,
    {
        Restorer::new_with_default_root_dir(HashValue::zero())
    }
}

} // verus!
