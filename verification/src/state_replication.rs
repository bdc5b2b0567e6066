//! The pluggable boundary between the BFT driver and its collaborators:
//! the payload transformer, the transaction manager and the speculative
//! state computer. The traits carry the interface shape; the verified
//! in-process implementations carry the exact contracts on their own
//! methods.

use vstd::prelude::*;
use crate::types::{HashValue, SignedTransaction};
use crate::consensus_types::{
    Block, ExecutedBlock, LedgerInfoWithSignatures, PivotBlockDecision, ProcessedVMOutput,
    ValidatorChangeProof,
};
use crate::peers::Peers;
use crate::txn_manager::{LocalTxnManager, Error as TxnError};
use crate::state_computer::{LocalStateComputer, Error as StateError};

verus! {

/// Turns one signed transaction into the payload carrier a consensus
/// proposal holds.
pub trait TxnTransformer: Sized {
    type Payload;

    fn convert(&self, tx: SignedTransaction) -> Self::Payload;
}

/// The default transformer: a payload is an ordered sequence of signed
/// transactions, and one transaction becomes the singleton payload.
#[derive(Clone, Debug)]
pub struct TxnTransformerProxy {}

impl TxnTransformerProxy {
    /// The singleton payload holding exactly `tx`.
    pub fn convert_one(&self, tx: SignedTransaction) -> (r: Vec<SignedTransaction>)
        ensures
            r@ == seq![tx],
    {
        let mut payload: Vec<SignedTransaction> = Vec::new();
        payload.push(tx);
        proof {
            assert(payload@ =~= seq![tx]);
        }
        payload
    }
}

impl TxnTransformer for TxnTransformerProxy {
    type Payload = Vec<SignedTransaction>;

    fn convert(&self, tx: SignedTransaction) -> Vec<SignedTransaction> {
        self.convert_one(tx)
    }
}

impl Default for TxnTransformerProxy {
    /// There is only one transformer; `default` yields it.
    fn default() -> (r: TxnTransformerProxy)
        ensures
            r == (TxnTransformerProxy {  }),
    {
        TxnTransformerProxy {  }
    }
}

/// Retrieves and updates the status of transactions on demand, as by
/// talking to a mempool: pulls a bounded payload excluding what is
/// already pending, and commits a payload so that expired transactions
/// are garbage-collected.
pub trait TxnManager: Sized {
    type Payload;

    fn pull_txns(&mut self, max_size: u64, exclude_txns: &Self::Payload) -> Result<
        Self::Payload,
        TxnError,
    >;

    fn commit_txns(&mut self, txns: &Self::Payload, timestamp_usecs: u64) -> Result<(), TxnError>;
}

impl TxnManager for LocalTxnManager {
    type Payload = Vec<SignedTransaction>;

    fn pull_txns(&mut self, max_size: u64, exclude_txns: &Vec<SignedTransaction>) -> Result<
        Vec<SignedTransaction>,
        TxnError,
    > {
        LocalTxnManager::pull_txns(self, max_size, exclude_txns)
    }

    fn commit_txns(&mut self, txns: &Vec<SignedTransaction>, timestamp_usecs: u64) -> Result<
        (),
        TxnError,
    > {
        LocalTxnManager::commit_txns(self, txns, timestamp_usecs)
    }
}

/// Manages the results of speculatively executing proposed blocks:
/// executes payloads, commits them once finality is proven, synchronizes
/// to a remote ledger info and serves epoch-change proofs.
pub trait StateComputer: Sized {
    type Payload;

    /// Validity of the computer's ledger, preserved by every operation.
    spec fn valid(&self) -> bool;

    fn compute(&self, block: &Block, last_pivot: Option<PivotBlockDecision>) -> Result<
        ProcessedVMOutput,
        StateError,
    >
        requires
            self.valid(),
    ;

    fn commit(&mut self, blocks: &Vec<ExecutedBlock>, finality_proof: LedgerInfoWithSignatures)
        -> (r: Result<(), StateError>)
        requires
            old(self).valid(),
        ensures
            final(self).valid(),
    ;

    fn sync_to(&mut self, target: LedgerInfoWithSignatures) -> (r: Result<(), StateError>)
        requires
            old(self).valid(),
        ensures
            final(self).valid(),
    ;

    fn get_epoch_proof(&self, start_epoch: u64, end_epoch: u64) -> Result<
        ValidatorChangeProof,
        StateError,
    >
        requires
            self.valid(),
    ;

    fn get_peers(&self) -> &Peers;
}

impl StateComputer for LocalStateComputer {
    type Payload = Vec<SignedTransaction>;

    open spec fn valid(&self) -> bool {
        self.wf()
    }

    fn compute(&self, block: &Block, last_pivot: Option<PivotBlockDecision>) -> Result<
        ProcessedVMOutput,
        StateError,
    > {
        LocalStateComputer::compute(self, block, last_pivot)
    }

    fn commit(&mut self, blocks: &Vec<ExecutedBlock>, finality_proof: LedgerInfoWithSignatures)
        -> Result<(), StateError> {
        LocalStateComputer::commit(self, blocks, finality_proof)
    }

    fn sync_to(&mut self, target: LedgerInfoWithSignatures) -> Result<(), StateError> {
        LocalStateComputer::sync_to(self, target)
    }

    fn get_epoch_proof(&self, start_epoch: u64, end_epoch: u64) -> Result<
        ValidatorChangeProof,
        StateError,
    > {
        LocalStateComputer::get_epoch_proof(self, start_epoch, end_epoch)
    }

    fn get_peers(&self) -> &Peers {
        LocalStateComputer::get_peers(self)
    }
}

/// The state-machine-replication lifecycle: `start` returns once the
/// engine has recovered its persisted safety state; `stop` returns once
/// everything has quiesced and the state is flushed. The network and
/// executor handles that the engine is wired to live outside the
/// verified core, which sees only the recovered safety record.
pub trait StateMachineReplication: Sized {
    type Payload;

    fn start(&mut self, own_node_hash: HashValue, persisted_safety_state: &Vec<u8>) -> Result<
        (),
        crate::consensus_provider::ProviderError,
    >;

    fn stop(&mut self);
}

} // verus!
