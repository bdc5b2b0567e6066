//! The speculative state computer: pure execution of a block's payload on
//! its parent's state, atomic commit gated on a verified finality proof,
//! all-or-nothing ledger synchronization, and the epoch-boundary history
//! that `get_epoch_proof` serves.

use vstd::prelude::*;
use crate::types::{HashValue, SignedTransaction, mix_hash};
use crate::peers::{PeerState, Peers, peer_lookup};
use crate::consensus_types::{
    Block, ExecutedBlock, LedgerInfoWithSignatures, PivotBlockDecision, ProcessedVMOutput,
    ValidatorChangeProof, has_quorum, check_quorum,
};

verus! {

/// Why the state computer refused a request.
#[derive(Clone, Copy, Debug, PartialEq, Eq, Structural)]
pub enum Error {
    /// The finality proof lacks a quorum or does not certify the submitted
    /// blocks; nothing was committed.
    InvalidFinalityProof,
    /// Some epoch boundary in the requested range has been pruned or not
    /// yet reached.
    EpochRangeUnavailable,
    /// The synchronization target does not carry a quorum of signatures;
    /// the ledger is unchanged.
    InvalidSyncTarget,
}

/// Folds one executed transaction into the running state root.
pub open spec fn ingest_tx(h: HashValue, t: SignedTransaction) -> HashValue {
    mix_hash(mix_hash(mix_hash(mix_hash(h, t.hash.w0), t.hash.w1), t.hash.w2), t.hash.w3)
}

/// The state root after executing the first `n` transactions of `payload`
/// on `parent`: transactions the VM refuses leave the root untouched.
pub open spec fn exec_root_prefix(
    parent: HashValue,
    payload: Seq<SignedTransaction>,
    n: int,
) -> HashValue
    decreases n,
{
    if n <= 0 {
        parent
    } else {
        let h = exec_root_prefix(parent, payload, n - 1);
        if payload[n - 1].vm_ok {
            ingest_tx(h, payload[n - 1])
        } else {
            h
        }
    }
}

/// The state root after executing the whole payload on `parent`. It is a
/// function of its arguments alone: execution is deterministic.
pub open spec fn exec_state_root(parent: HashValue, payload: Seq<SignedTransaction>) -> HashValue {
    exec_root_prefix(parent, payload, payload.len() as int)
}

/// If the VM refuses every transaction of the payload, the output state
/// root equals the parent's.
pub proof fn lemma_all_failed_root_unchanged(parent: HashValue, payload: Seq<SignedTransaction>)
    requires
        forall|i: int| 0 <= i < payload.len() ==> !(#[trigger] payload[i]).vm_ok,
    ensures
        exec_state_root(parent, payload) == parent,
{
    lemma_all_failed_prefix_unchanged(parent, payload, payload.len() as int);
}

proof fn lemma_all_failed_prefix_unchanged(
    parent: HashValue,
    payload: Seq<SignedTransaction>,
    n: int,
)
    requires
        n <= payload.len(),
        forall|i: int| 0 <= i < payload.len() ==> !(#[trigger] payload[i]).vm_ok,
    ensures
        exec_root_prefix(parent, payload, n) == parent,
    decreases n,
{
    if n > 0 {
        lemma_all_failed_prefix_unchanged(parent, payload, n - 1);
    }
}

/// The pivot decision a block's output commits to: the block's own pivot
/// proposal when it carries one, else the pivot inherited from the parent.
pub open spec fn output_pivot(
    block: Block,
    last_pivot: Option<PivotBlockDecision>,
) -> Option<PivotBlockDecision> {
    if block.pivot_decision is Some {
        block.pivot_decision
    } else {
        last_pivot
    }
}

/// One block as the committed ledger records it.
#[derive(Clone, Copy, Debug, PartialEq, Eq, Structural)]
pub struct CommittedBlock {
    pub id: HashValue,
    pub round: u64,
    pub state_root: HashValue,
}

/// The record that committing one executed block appends to the ledger.
pub open spec fn committed_record(eb: ExecutedBlock) -> CommittedBlock {
    CommittedBlock { id: eb.block.id, round: eb.block.round, state_root: eb.output.state_root }
}

/// Whether a finality proof both carries a quorum for a validator set of
/// `n` members and certifies the last of the submitted blocks: its id,
/// round and output state root.
pub open spec fn commit_proof_ok(
    blocks: Seq<ExecutedBlock>,
    proof: LedgerInfoWithSignatures,
    n: u64,
) -> bool {
    &&& blocks.len() > 0
    &&& has_quorum(proof, n)
    &&& proof.ledger_info.committed_id == blocks.last().block.id
    &&& proof.ledger_info.round == blocks.last().block.round
    &&& proof.ledger_info.committed_state_root == blocks.last().output.state_root
}

/// The state computer over an in-process ledger. Speculative execution is
/// pure; commits are atomic and gated on the finality proof; the epoch
/// history records every boundary ledger info in epoch order, starting at
/// the first epoch this node has not pruned.
#[derive(Clone, Debug)]
pub struct LocalStateComputer {
    committed: Vec<CommittedBlock>,
    ledger_info: LedgerInfoWithSignatures,
    epoch_history: Vec<LedgerInfoWithSignatures>,
    first_epoch: u64,
    validator_set_size: u64,
    peers: Peers,
}

impl LocalStateComputer {
    pub closed spec fn committed_spec(self) -> Seq<CommittedBlock> {
        self.committed@
    }

    pub closed spec fn ledger_info_spec(self) -> LedgerInfoWithSignatures {
        self.ledger_info
    }

    pub closed spec fn epoch_history_spec(self) -> Seq<LedgerInfoWithSignatures> {
        self.epoch_history@
    }

    pub closed spec fn first_epoch_spec(self) -> u64 {
        self.first_epoch
    }

    pub closed spec fn validator_set_size_spec(self) -> u64 {
        self.validator_set_size
    }

    pub closed spec fn peers_spec(self) -> Peers {
        self.peers
    }

    /// Ledger validity: the epoch history holds one boundary per epoch,
    /// contiguously from the first unpruned epoch.
    pub open spec fn wf(self) -> bool {
        &&& self.first_epoch_spec() + self.epoch_history_spec().len() <= u64::MAX + 1
        &&& forall|k: int|
            0 <= k < self.epoch_history_spec().len()
                ==> (#[trigger] self.epoch_history_spec()[k]).ledger_info.epoch
                == self.first_epoch_spec() + k
        &&& self.peers_spec().wf()
    }

    /// A computer whose ledger starts from `initial`, with nothing pruned
    /// before `first_epoch` and no boundary recorded yet.
    pub fn new(initial: LedgerInfoWithSignatures, first_epoch: u64, validator_set_size: u64) -> (r:
        LocalStateComputer)
        ensures
            r.wf(),
            r.committed_spec() == Seq::<CommittedBlock>::empty(),
            r.ledger_info_spec() == initial,
            r.epoch_history_spec() == Seq::<LedgerInfoWithSignatures>::empty(),
            r.first_epoch_spec() == first_epoch,
            r.validator_set_size_spec() == validator_set_size,
            r.peers_spec().entries_spec() == Seq::<(HashValue, PeerState)>::empty(),
    {
        let r = LocalStateComputer {
            committed: Vec::new(),
            ledger_info: initial,
            epoch_history: Vec::new(),
            first_epoch,
            validator_set_size,
            peers: Peers::new(),
        };
        r
    }

    /// Pure speculative execution of one block on its parent's certified
    /// state: no observable state changes, and the output is a function of
    /// the block and the inherited pivot alone. If the VM refuses every
    /// transaction the output root equals the parent's.
    pub fn compute(&self, block: &Block, last_pivot: Option<PivotBlockDecision>) -> (r: Result<
        ProcessedVMOutput,
        Error,
    >)
        ensures
            r is Ok,
            r.unwrap().state_root == exec_state_root(block.qc.certified_state_root, block.payload@),
            r.unwrap().txn_status@ == block.payload@.map_values(|t: SignedTransaction| t.vm_ok),
            r.unwrap().pivot_decision == output_pivot(*block, last_pivot),
            (forall|i: int| 0 <= i < block.payload@.len() ==> !(#[trigger] block.payload@[i]).vm_ok)
                ==> r.unwrap().state_root == block.qc.certified_state_root,
    {
        let n = block.payload.len();
        let mut root = block.qc.certified_state_root;
        let mut txn_status: Vec<bool> = Vec::new();
        let mut i: usize = 0;
        while i < n
            invariant
                0 <= i <= n,
                n == block.payload@.len(),
                root == exec_root_prefix(block.qc.certified_state_root, block.payload@, i as int),
                txn_status@ == block.payload@.subrange(0, i as int).map_values(
                    |t: SignedTransaction| t.vm_ok,
                ),
            decreases n - i,
        {
            let ghost pre = txn_status@;
            let t = block.payload[i];
            txn_status.push(t.vm_ok);
            if t.vm_ok {
                let h = t.hash;
                root = HashValue {
                    w0: root.w1,
                    w1: root.w2,
                    w2: root.w3,
                    w3: (((root.w0 << 1) | (root.w0 >> 63)) ^ h.w0),
                };
                root = HashValue {
                    w0: root.w1,
                    w1: root.w2,
                    w2: root.w3,
                    w3: (((root.w0 << 1) | (root.w0 >> 63)) ^ h.w1),
                };
                root = HashValue {
                    w0: root.w1,
                    w1: root.w2,
                    w2: root.w3,
                    w3: (((root.w0 << 1) | (root.w0 >> 63)) ^ h.w2),
                };
                root = HashValue {
                    w0: root.w1,
                    w1: root.w2,
                    w2: root.w3,
                    w3: (((root.w0 << 1) | (root.w0 >> 63)) ^ h.w3),
                };
            }
            proof {
                assert(block.payload@.subrange(0, i + 1).drop_last() =~= block.payload@.subrange(
                    0,
                    i as int,
                ));
                assert(txn_status@ =~= block.payload@.subrange(0, i + 1).map_values(
                    |t: SignedTransaction| t.vm_ok,
                ));
            }
            i = i + 1;
        }
        let pivot_decision = if block.pivot_decision.is_some() {
            block.pivot_decision
        } else {
            last_pivot
        };
        proof {
            assert(block.payload@.subrange(0, n as int) =~= block.payload@);
            if forall|k: int| 0 <= k < block.payload@.len() ==> !(#[trigger] block.payload@[k]).vm_ok {
                lemma_all_failed_root_unchanged(block.qc.certified_state_root, block.payload@);
            }
        }
        Ok(ProcessedVMOutput { state_root: root, txn_status, pivot_decision })
    }

    /// Atomic commit: the finality proof is verified first, and on any
    /// failure nothing changes and the error is `InvalidFinalityProof`.
    /// On success every submitted block is appended to the committed
    /// ledger with the state root its execution produced, the committed
    /// ledger info becomes the proof, and a proof that closes an epoch is
    /// recorded in the epoch history when it extends it contiguously.
    pub fn commit(&mut self, blocks: &Vec<ExecutedBlock>, finality_proof: LedgerInfoWithSignatures)
        -> (r: Result<(), Error>)
        requires
            old(self).wf(),
        ensures
            final(self).wf(),
            r is Err ==> *final(self) == *old(self) && r == Err::<(), Error>(
                Error::InvalidFinalityProof,
            ),
            r is Ok <==> commit_proof_ok(
                blocks@,
                finality_proof,
                old(self).validator_set_size_spec(),
            ),
            r is Ok ==> {
                &&& final(self).committed_spec() == old(self).committed_spec() + blocks@.map_values(
                    |eb: ExecutedBlock| committed_record(eb),
                )
                &&& final(self).ledger_info_spec() == finality_proof
                &&& final(self).first_epoch_spec() == old(self).first_epoch_spec()
                &&& final(self).validator_set_size_spec() == old(self).validator_set_size_spec()
                &&& final(self).peers_spec() == old(self).peers_spec()
                &&& final(self).epoch_history_spec() == if finality_proof
                    .ledger_info
                    .next_validator_set_size >= 1 && finality_proof.ledger_info.epoch == old(
                    self,
                ).first_epoch_spec() + old(self).epoch_history_spec().len() && old(
                    self,
                ).epoch_history_spec().len() < usize::MAX {
                    old(self).epoch_history_spec().push(finality_proof)
                } else {
                    old(self).epoch_history_spec()
                }
            },
    {
        if blocks.len() == 0 {
            return Err(Error::InvalidFinalityProof);
        }
        let last = &blocks[blocks.len() - 1];
        if !(check_quorum(&finality_proof, self.validator_set_size)
            && finality_proof.ledger_info.committed_id == last.block.id
            && finality_proof.ledger_info.round == last.block.round
            && finality_proof.ledger_info.committed_state_root == last.output.state_root) {
            return Err(Error::InvalidFinalityProof);
        }
        let ghost committed0 = self.committed@;
        let n = blocks.len();
        let mut i: usize = 0;
        while i < n
            invariant
                0 <= i <= n,
                n == blocks@.len(),
                self.committed@ == committed0 + blocks@.subrange(0, i as int).map_values(
                    |eb: ExecutedBlock| committed_record(eb),
                ),
                self.ledger_info == old(self).ledger_info_spec(),
                self.epoch_history@ == old(self).epoch_history_spec(),
                self.first_epoch == old(self).first_epoch_spec(),
                self.validator_set_size == old(self).validator_set_size_spec(),
                self.peers == old(self).peers_spec(),
                old(self).wf(),
            decreases n - i,
        {
            let eb = &blocks[i];
            self.committed.push(
                CommittedBlock {
                    id: eb.block.id,
                    round: eb.block.round,
                    state_root: eb.output.state_root,
                },
            );
            proof {
                assert(blocks@.subrange(0, i + 1).drop_last() =~= blocks@.subrange(0, i as int));
                assert(blocks@.subrange(0, i + 1).map_values(
                    |eb: ExecutedBlock| committed_record(eb),
                ).drop_last() =~= blocks@.subrange(0, i as int).map_values(
                    |eb: ExecutedBlock| committed_record(eb),
                ));
                assert(self.committed@ =~= committed0 + blocks@.subrange(0, i + 1).map_values(
                    |eb: ExecutedBlock| committed_record(eb),
                ));
            }
            i = i + 1;
        }
        proof {
            assert(blocks@.subrange(0, n as int) =~= blocks@);
        }
        self.ledger_info = finality_proof;
        if finality_proof.ledger_info.next_validator_set_size >= 1 {
            let boundary_epoch = self.first_epoch;
            let recorded_usize = self.epoch_history.len();
            let recorded = recorded_usize as u64;
            if recorded_usize < usize::MAX && boundary_epoch <= u64::MAX - recorded
                && finality_proof.ledger_info.epoch == boundary_epoch + recorded {
                self.epoch_history.push(finality_proof);
            }
        }
        Ok(())
    }

    /// Best-effort synchronization to a target ledger info: all or
    /// nothing. On success the committed ledger info equals the target;
    /// on failure it is unchanged, bit for bit.
    pub fn sync_to(&mut self, target: LedgerInfoWithSignatures) -> (r: Result<(), Error>)
        requires
            old(self).wf(),
        ensures
            final(self).wf(),
            r is Ok <==> has_quorum(target, old(self).validator_set_size_spec()),
            r is Err ==> *final(self) == *old(self) && r == Err::<(), Error>(
                Error::InvalidSyncTarget,
            ),
            r is Ok ==> final(self).ledger_info_spec() == target && final(self).committed_spec()
                == old(self).committed_spec() && final(self).epoch_history_spec() == old(
                self,
            ).epoch_history_spec() && final(self).first_epoch_spec() == old(self).first_epoch_spec()
                && final(self).validator_set_size_spec() == old(self).validator_set_size_spec()
                && final(self).peers_spec() == old(self).peers_spec(),
    {
        if !check_quorum(&target, self.validator_set_size) {
            return Err(Error::InvalidSyncTarget);
        }
        self.ledger_info = target;
        Ok(())
    }

    /// The committed ledger info that readers observe.
    pub fn get_current_ledger_info(&self) -> (r: LedgerInfoWithSignatures)
        ensures
            r == self.ledger_info_spec(),
    {
        self.ledger_info
    }

    /// The committed ledger as readers observe it.
    pub fn committed_blocks(&self) -> (r: &Vec<CommittedBlock>)
        ensures
            r@ == self.committed_spec(),
    {
        &self.committed
    }

    /// The epoch-change proof for epochs `[start_epoch, end_epoch)`: the
    /// boundary ledger infos in order. Fails with `EpochRangeUnavailable`
    /// exactly when the range reaches below the first unpruned epoch,
    /// beyond the recorded history, or is reversed.
    pub fn get_epoch_proof(&self, start_epoch: u64, end_epoch: u64) -> (r: Result<
        ValidatorChangeProof,
        Error,
    >)
        requires
            self.wf(),
        ensures
            match r {
                Ok(p) => {
                    &&& self.first_epoch_spec() <= start_epoch <= end_epoch
                    &&& end_epoch <= self.first_epoch_spec() + self.epoch_history_spec().len()
                    &&& p.ledger_infos@ == self.epoch_history_spec().subrange(
                        start_epoch - self.first_epoch_spec(),
                        end_epoch - self.first_epoch_spec(),
                    )
                },
                Err(e) => {
                    &&& e == Error::EpochRangeUnavailable
                    &&& !(self.first_epoch_spec() <= start_epoch <= end_epoch && end_epoch
                        <= self.first_epoch_spec() + self.epoch_history_spec().len())
                },
            },
    {
        if !(self.first_epoch <= start_epoch && start_epoch <= end_epoch) {
            return Err(Error::EpochRangeUnavailable);
        }
        let available: u64 = self.epoch_history.len() as u64;
        if !(end_epoch - self.first_epoch <= available) {
            return Err(Error::EpochRangeUnavailable);
        }
        let lo = (start_epoch - self.first_epoch) as usize;
        let hi = (end_epoch - self.first_epoch) as usize;
        let mut infos: Vec<LedgerInfoWithSignatures> = Vec::new();
        let mut i: usize = lo;
        while i < hi
            invariant
                lo <= i <= hi,
                hi <= self.epoch_history@.len(),
                infos@ == self.epoch_history@.subrange(lo as int, i as int),
            decreases hi - i,
        {
            infos.push(self.epoch_history[i]);
            proof {
                assert(infos@ =~= self.epoch_history@.subrange(lo as int, i + 1));
            }
            i = i + 1;
        }
        Ok(ValidatorChangeProof { ledger_infos: infos })
    }
}

impl LocalStateComputer {
    /// The shared peer-round view the driver picks synchronization targets
    /// from.
    pub fn get_peers(&self) -> (r: &Peers)
        ensures
            *r == self.peers_spec(),
    {
        &self.peers
    }

    /// Records what the synchronization protocol now knows of a peer.
    pub fn record_peer(&mut self, id: HashValue, state: PeerState)
        requires
            old(self).wf(),
        ensures
            final(self).wf(),
            peer_lookup(final(self).peers_spec().entries_spec(), id) == Some(state),
            forall|other: HashValue|
                other != id ==> #[trigger] peer_lookup(
                    final(self).peers_spec().entries_spec(),
                    other,
                ) == peer_lookup(old(self).peers_spec().entries_spec(), other),
            final(self).committed_spec() == old(self).committed_spec(),
            final(self).ledger_info_spec() == old(self).ledger_info_spec(),
            final(self).epoch_history_spec() == old(self).epoch_history_spec(),
            final(self).first_epoch_spec() == old(self).first_epoch_spec(),
            final(self).validator_set_size_spec() == old(self).validator_set_size_spec(),
    {
        self.peers.update_peer(id, state);
    }
}

/// Readers observe exactly what `compute` produced: when a commit appends
/// executed blocks whose outputs came from speculative execution, every
/// state root the committed ledger then shows at those positions is the
/// root `compute` returns for the same block and parent state.
pub proof fn lemma_committed_roots_match_compute(
    pre: Seq<CommittedBlock>,
    post: Seq<CommittedBlock>,
    blocks: Seq<ExecutedBlock>,
)
    requires
        post == pre + blocks.map_values(|eb: ExecutedBlock| committed_record(eb)),
        forall|i: int|
            0 <= i < blocks.len() ==> (#[trigger] blocks[i]).output.state_root == exec_state_root(
                blocks[i].block.qc.certified_state_root,
                blocks[i].block.payload@,
            ),
    ensures
        post.len() == pre.len() + blocks.len(),
        forall|i: int|
            0 <= i < blocks.len() ==> (#[trigger] post[pre.len() + i]).state_root
                == exec_state_root(
                blocks[i].block.qc.certified_state_root,
                blocks[i].block.payload@,
            ),
{
    assert forall|i: int| 0 <= i < blocks.len() implies (#[trigger] post[pre.len() + i]).state_root
        == exec_state_root(blocks[i].block.qc.certified_state_root, blocks[i].block.payload@) by {
        assert(post[pre.len() + i] == blocks.map_values(|eb: ExecutedBlock| committed_record(eb))[i]);
    }
}

} // verus!
