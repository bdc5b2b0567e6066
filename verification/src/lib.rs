//! Core of a Tree-Graph node's BFT finality overlay and its snapshot
//! restoration path: the safety rules that keep a validator from
//! equivocating, the state-replication contracts between the consensus
//! driver, the transaction manager and the speculative state computer,
//! and the chunk-wise verified reconstruction of a state snapshot.

pub mod types;
pub mod consensus_types;
pub mod safety_rules;
pub mod persistent_storage;
pub mod restore;
pub mod state_computer;
pub mod txn_manager;
pub mod peers;
pub mod state_replication;
pub mod consensus_provider;
pub mod light_rpc;
pub mod raw_tx;
