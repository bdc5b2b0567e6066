use bft_finality::consensus_provider::{
    ChainedBftProvider, NodeConfig, ProviderError, make_consensus_provider,
};
use bft_finality::light_rpc::{
    BFTStates, RpcErrorKind, SyncPhase, TxReceipt, account_response, balance_response,
    bank_balance_response, bft_state, code_response, current_sync_phase_name, make_receipt,
    relay_response, rpc_error_code, send_transaction_nonce, storage_balance_response,
};
use bft_finality::peers::{PeerState, Peers};
use bft_finality::persistent_storage::{decode_consensus_state, encode_consensus_state};
use bft_finality::raw_tx::{decode_raw_transaction, transaction_hash, validate_raw_transaction};
use bft_finality::safety_rules::ConsensusState;
use bft_finality::state_replication::{TxnTransformer, TxnTransformerProxy};
use bft_finality::types::{Account, HashValue, SignedTransaction};

fn h(x: u64) -> HashValue {
    HashValue { w0: 0, w1: 0, w2: 0, w3: x }
}

fn account(addr: u64, balance: u128, nonce: u128) -> Account {
    Account {
        address: h(addr),
        balance,
        bank_balance: balance + 1,
        storage_balance: balance + 2,
        nonce,
    }
}

#[test]
fn rpc_error_codes() {
    assert_eq!(rpc_error_code(&RpcErrorKind::MethodNotFound), -32601);
    assert_eq!(rpc_error_code(&RpcErrorKind::InvalidParams), -32602);
    assert_eq!(rpc_error_code(&RpcErrorKind::InternalError), -32603);
}

#[test]
fn account_responses() {
    let acc = account(5, 77, 3);
    assert_eq!(account_response(h(5), Some(Some(acc))), Ok(acc));
    let empty = account_response(h(5), Some(None)).unwrap();
    assert_eq!(empty.address, h(5));
    assert_eq!(empty.balance, 0);
    assert_eq!(empty.nonce, 0);
    assert_eq!(account_response(h(5), None), Err(RpcErrorKind::InvalidParams));
}

#[test]
fn balance_responses() {
    let acc = account(5, 77, 3);
    assert_eq!(balance_response(Some(Some(acc))), Ok(77));
    assert_eq!(bank_balance_response(Some(Some(acc))), Ok(78));
    assert_eq!(storage_balance_response(Some(Some(acc))), Ok(79));
    assert_eq!(balance_response(Some(None)), Ok(0));
    assert_eq!(bank_balance_response(Some(None)), Ok(0));
    assert_eq!(storage_balance_response(Some(None)), Ok(0));
    assert_eq!(balance_response(None), Err(RpcErrorKind::InvalidParams));
}

#[test]
fn code_responses() {
    assert_eq!(code_response(Some(Some(vec![1, 2, 3]))), Ok(vec![1, 2, 3]));
    assert_eq!(code_response(Some(None)), Ok(vec![]));
    assert_eq!(code_response(None), Err(RpcErrorKind::InvalidParams));
}

#[test]
fn nonce_selection_for_send_transaction() {
    assert_eq!(send_transaction_nonce(Some(9), Some(account(1, 0, 4))), 9);
    assert_eq!(send_transaction_nonce(None, Some(account(1, 0, 4))), 4);
    assert_eq!(send_transaction_nonce(None, None), 0);
}

#[test]
fn receipt_assembly() {
    let receipt = make_receipt(h(12), true, Some(33), Some(h(44)));
    assert_eq!(
        receipt,
        TxReceipt { tx_hash: h(12), outcome_ok: true, epoch_number: Some(33), state_root: Some(h(44)) }
    );
    let bare = make_receipt(h(12), false, None, None);
    assert_eq!(bare.state_root, None);
    assert_eq!(bare.epoch_number, None);
}

#[test]
fn relay_responses() {
    assert_eq!(relay_response(h(3), true), Ok(h(3)));
    assert_eq!(relay_response(h(3), false), Err(RpcErrorKind::InvalidParams));
}

#[test]
fn sync_phase_names() {
    assert_eq!(current_sync_phase_name(&SyncPhase::CatchUpSnapshot), "CatchUpSnapshot");
    assert_eq!(
        current_sync_phase_name(&SyncPhase::CatchUpRecentBlocks),
        "CatchUpRecentBlocks"
    );
    assert_eq!(current_sync_phase_name(&SyncPhase::Normal), "Normal");
}

#[test]
fn bft_state_snapshot() {
    let state = ConsensusState { epoch: 2, last_voted_round: 8, preferred_round: 6 };
    assert_eq!(
        bft_state(&state, 9, 5),
        BFTStates { epoch: 2, round: 9, last_voted_round: 8, preferred_round: 6, committed_round: 5 }
    );
}

#[test]
fn txn_transformer_wraps_single_transaction() {
    let transformer = TxnTransformerProxy::default();
    let tx = SignedTransaction {
        hash: h(1),
        sender: h(2),
        nonce: 0,
        expiration_usecs: 10,
        vm_ok: true,
    };
    assert_eq!(transformer.convert(tx), vec![tx]);
    assert_eq!(transformer.convert_one(tx), vec![tx]);
}

#[test]
fn safety_state_codec_round_trip() {
    let state = ConsensusState { epoch: 7, last_voted_round: 123456789, preferred_round: 42 };
    let bytes = encode_consensus_state(&state);
    assert_eq!(bytes.len(), 24);
    assert_eq!(decode_consensus_state(&bytes), Some(state));
    assert_eq!(decode_consensus_state(&vec![0u8; 23]), None);
    let max = ConsensusState {
        epoch: u64::MAX,
        last_voted_round: u64::MAX - 1,
        preferred_round: 1,
    };
    assert_eq!(decode_consensus_state(&encode_consensus_state(&max)), Some(max));
}

#[test]
fn provider_lifecycle() {
    let config = NodeConfig { validator_set_size: 4 };
    let mut provider: ChainedBftProvider = make_consensus_provider(&config);
    assert_eq!(provider.consensus_state(), None);
    let state = ConsensusState { epoch: 1, last_voted_round: 9, preferred_round: 2 };
    let bytes = encode_consensus_state(&state);
    assert_eq!(provider.start(h(1), &bytes), Ok(()));
    assert_eq!(provider.consensus_state(), Some(state));
    assert_eq!(provider.start(h(1), &bytes), Err(ProviderError::AlreadyRunning));
    provider.stop();
    assert_eq!(provider.start(h(1), &bytes), Ok(()));
}

#[test]
fn provider_refuses_corrupt_safety_state() {
    let config = NodeConfig { validator_set_size: 4 };
    let mut provider = make_consensus_provider(&config);
    assert_eq!(
        provider.start(h(1), &vec![1, 2, 3]),
        Err(ProviderError::CorruptSafetyState)
    );
    assert_eq!(provider.consensus_state(), None);
}

#[test]
fn peer_registry() {
    let mut peers = Peers::new();
    assert_eq!(peers.len(), 0);
    assert_eq!(peers.get(&h(1)), None);
    peers.update_peer(h(1), PeerState { best_round: 5, last_seen_usecs: 100 });
    peers.update_peer(h(2), PeerState { best_round: 9, last_seen_usecs: 200 });
    assert_eq!(peers.len(), 2);
    assert_eq!(peers.get(&h(1)), Some(PeerState { best_round: 5, last_seen_usecs: 100 }));
    peers.update_peer(h(1), PeerState { best_round: 7, last_seen_usecs: 300 });
    assert_eq!(peers.len(), 2);
    assert_eq!(peers.get(&h(1)), Some(PeerState { best_round: 7, last_seen_usecs: 300 }));
    assert_eq!(peers.get(&h(2)), Some(PeerState { best_round: 9, last_seen_usecs: 200 }));
}

fn encode_tx(fields: &[&[u8]]) -> Vec<u8> {
    let mut stream = rlp::RlpStream::new_list(fields.len());
    for field in fields {
        stream.append(field);
    }
    stream.out().to_vec()
}

fn valid_tx_bytes() -> Vec<u8> {
    let action = [0x11u8; 20];
    encode_tx(&[
        &[1u8],            // nonce
        &[2u8],            // gas price
        &[3u8],            // gas
        &action,           // action: a 20-byte address
        &[4u8],            // value
        &[0xde, 0xad],     // data
        &[27u8],           // v
        &[5u8; 32],        // r
        &[6u8; 32],        // s
    ])
}

fn expected_hash(bytes: &[u8]) -> HashValue {
    let digest = keccak_hash::keccak(bytes);
    let b = digest.as_bytes();
    HashValue {
        w0: u64::from_be_bytes(b[0..8].try_into().unwrap()),
        w1: u64::from_be_bytes(b[8..16].try_into().unwrap()),
        w2: u64::from_be_bytes(b[16..24].try_into().unwrap()),
        w3: u64::from_be_bytes(b[24..32].try_into().unwrap()),
    }
}

#[test]
fn valid_raw_transaction_is_accepted_and_identified() {
    let bytes = valid_tx_bytes();
    let decoded = decode_raw_transaction(&bytes).unwrap();
    assert_eq!(decoded.nonce, vec![1u8]);
    assert_eq!(decoded.data, vec![0xde, 0xad]);
    assert_eq!(decoded.action.len(), 20);
    assert_eq!(validate_raw_transaction(&bytes), Ok(expected_hash(&bytes)));
}

#[test]
fn raw_transaction_with_wrong_arity_is_refused() {
    let bytes = encode_tx(&[&[1u8], &[2u8], &[3u8]]);
    assert!(decode_raw_transaction(&bytes).is_none());
    assert_eq!(validate_raw_transaction(&bytes), Err(RpcErrorKind::InvalidParams));
}

#[test]
fn raw_transaction_with_leading_zero_integer_is_refused() {
    let action = [0x11u8; 20];
    let bytes = encode_tx(&[
        &[0u8, 1u8],       // nonce with a leading zero byte
        &[2u8],
        &[3u8],
        &action,
        &[4u8],
        &[0xde, 0xad],
        &[27u8],
        &[5u8; 32],
        &[6u8; 32],
    ]);
    assert_eq!(validate_raw_transaction(&bytes), Err(RpcErrorKind::InvalidParams));
}

#[test]
fn raw_transaction_with_bad_action_length_is_refused() {
    let bytes = encode_tx(&[
        &[1u8],
        &[2u8],
        &[3u8],
        &[0x11u8; 5],      // neither empty nor a 20-byte address
        &[4u8],
        &[0xde, 0xad],
        &[27u8],
        &[5u8; 32],
        &[6u8; 32],
    ]);
    assert_eq!(validate_raw_transaction(&bytes), Err(RpcErrorKind::InvalidParams));
}

#[test]
fn garbage_bytes_are_refused() {
    assert_eq!(
        validate_raw_transaction(&vec![0xff, 0x00, 0x13]),
        Err(RpcErrorKind::InvalidParams)
    );
}

#[test]
fn transaction_hash_is_the_keccak_digest() {
    // The digest of the empty string pins the wrapper to the real keccak.
    let empty: Vec<u8> = vec![];
    let hash = transaction_hash(&empty);
    assert_eq!(hash.w0, 0xc5d2460186f7233c);
    assert_eq!(hash.w1, 0x927e7db2dcc703c0);
    assert_eq!(hash.w2, 0xe500b653ca82273b);
    assert_eq!(hash.w3, 0x7bfad8045d85a470);
    assert_eq!(hash, expected_hash(&[]));
}
