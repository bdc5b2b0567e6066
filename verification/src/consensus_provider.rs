//! The lifecycle facade of the consensus protocol: starting the engine
//! recovers the persisted safety state and fails on a corrupt record;
//! stopping quiesces it with the safety state retained. The network
//! transport, the executor handle and the spawned driver threads live
//! outside the verified core, which holds the recovered state and the
//! decisions made over it.

use vstd::prelude::*;
use crate::types::HashValue;
use crate::safety_rules::{ConsensusState, InMemoryStorage, SafetyRules};
use crate::persistent_storage::{decode_consensus_state, decode_state_spec};

verus! {

/// Why the provider refused a lifecycle request.
#[derive(Clone, Copy, Debug, PartialEq, Eq, Structural)]
pub enum ProviderError {
    /// `start` without an intervening `stop`.
    AlreadyRunning,
    /// The persisted safety record did not decode: starting would risk
    /// equivocation, so the node refuses to come up.
    CorruptSafetyState,
}

/// The node configuration slice the verified core reads: the size of the
/// current validator set, which the quorum checks are made against.
#[derive(Clone, Copy, Debug, PartialEq, Eq, Structural)]
pub struct NodeConfig {
    pub validator_set_size: u64,
}

/// Public interface to a consensus protocol: spawn and wire the engine,
/// or quiesce it gracefully.
pub trait ConsensusProvider: Sized {
    fn start(&mut self, own_node_hash: HashValue, persisted_safety_state: &Vec<u8>) -> Result<
        (),
        ProviderError,
    >;

    fn stop(&mut self);
}

/// The chained-BFT provider: wires safety rules recovered from the
/// persistent store into the driver's round loop. Only the recovered
/// state and the lifecycle decisions are held here; the driver's threads
/// run outside the verified core.
#[derive(Clone, Copy, Debug)]
pub struct ChainedBftProvider {
    config: NodeConfig,
    running: bool,
    own_node_hash: HashValue,
    safety_rules: Option<SafetyRules>,
}

impl ChainedBftProvider {
    pub closed spec fn running_spec(self) -> bool {
        self.running
    }

    pub closed spec fn config_spec(self) -> NodeConfig {
        self.config
    }

    pub closed spec fn own_node_hash_spec(self) -> HashValue {
        self.own_node_hash
    }

    pub closed spec fn safety_rules_spec(self) -> Option<SafetyRules> {
        self.safety_rules
    }

    /// A stopped provider for this node configuration.
    pub fn new(config: &NodeConfig) -> (r: ChainedBftProvider)
        ensures
            !r.running_spec(),
            r.config_spec() == *config,
            r.safety_rules_spec() is None,
    {
        ChainedBftProvider {
            config: *config,
            running: false,
            own_node_hash: HashValue::zero(),
            safety_rules: None,
        }
    }

    /// Starts the engine: recovers the persisted safety record and brings
    /// up safety rules over it. Fails without any state change when the
    /// engine already runs, or when the record is corrupt — the node
    /// halts rather than risk equivocation. Idempotent only when preceded
    /// by `stop`.
    pub fn start(&mut self, own_node_hash: HashValue, persisted_safety_state: &Vec<u8>) -> (r:
        Result<(), ProviderError>)
        ensures
            old(self).running_spec() ==> r == Err::<(), ProviderError>(
                ProviderError::AlreadyRunning,
            ) && *final(self) == *old(self),
            !old(self).running_spec() && decode_state_spec(persisted_safety_state@) is None ==> r
                == Err::<(), ProviderError>(ProviderError::CorruptSafetyState) && *final(self)
                == *old(self),
            !old(self).running_spec() && decode_state_spec(persisted_safety_state@) is Some ==> {
                &&& r is Ok
                &&& final(self).running_spec()
                &&& final(self).config_spec() == old(self).config_spec()
                &&& final(self).own_node_hash_spec() == own_node_hash
                &&& match final(self).safety_rules_spec() {
                    Some(sr) => sr.state() == decode_state_spec(persisted_safety_state@).unwrap()
                        && sr.validator_set_size_spec() == old(
                        self,
                    ).config_spec().validator_set_size,
                    None => false,
                }
            },
    {
        if self.running {
            return Err(ProviderError::AlreadyRunning);
        }
        let state: ConsensusState = match decode_consensus_state(persisted_safety_state) {
            Some(state) => state,
            None => {
                return Err(ProviderError::CorruptSafetyState);
            }
        };
        let storage = InMemoryStorage::new(state);
        self.safety_rules = Some(SafetyRules::new(storage, self.config.validator_set_size));
        self.own_node_hash = own_node_hash;
        self.running = true;
        Ok(())
    }

    /// Quiesces the engine. The safety state stays flushed and readable,
    /// so a following `start` resumes from it.
    pub fn stop(&mut self)
        ensures
            !final(self).running_spec(),
            final(self).config_spec() == old(self).config_spec(),
            final(self).own_node_hash_spec() == old(self).own_node_hash_spec(),
            final(self).safety_rules_spec() == old(self).safety_rules_spec(),
    {
        self.running = false;
    }

    /// Read-only view of the recovered safety state, as the introspection
    /// surface reports it.
    pub fn consensus_state(&self) -> (r: Option<ConsensusState>)
        ensures
            r == (match self.safety_rules_spec() {
                Some(sr) => Some(sr.state()),
                None => None::<ConsensusState>,
            }),
    {
        match &self.safety_rules {
            Some(sr) => Some(sr.consensus_state()),
            None => None,
        }
    }
}

impl ConsensusProvider for ChainedBftProvider {
    fn start(&mut self, own_node_hash: HashValue, persisted_safety_state: &Vec<u8>) -> Result<
        (),
        ProviderError,
    > {
        ChainedBftProvider::start(self, own_node_hash, persisted_safety_state)
    }

    fn stop(&mut self) {
        ChainedBftProvider::stop(self)
    }
}

impl crate::state_replication::StateMachineReplication for ChainedBftProvider {
    type Payload = Vec<crate::types::SignedTransaction>;

    fn start(&mut self, own_node_hash: HashValue, persisted_safety_state: &Vec<u8>) -> Result<
        (),
        ProviderError,
    > {
        ChainedBftProvider::start(self, own_node_hash, persisted_safety_state)
    }

    fn stop(&mut self) {
        ChainedBftProvider::stop(self)
    }
}

/// Helper to create a consensus provider from the node configuration;
/// the executor and Tree-Graph handles it is later wired to live outside
/// the verified core.
pub fn make_consensus_provider(node_config: &NodeConfig) -> (r: ChainedBftProvider)
    ensures
        !r.running_spec(),
        r.config_spec() == *node_config,
        r.safety_rules_spec() is None,
{
    ChainedBftProvider::new(node_config)
}

} // verus!
