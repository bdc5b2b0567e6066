//! The decisions behind the light client's RPC surface: what each method
//! answers for every outcome of the underlying query service. The service
//! itself — network fetches, wallets, the state exposer — lives outside
//! the verified core and hands plain values in; every response below is a
//! function of those values.

use vstd::prelude::*;
use crate::types::{Account, HashValue};
use crate::safety_rules::ConsensusState;

verus! {

/// The error kinds the RPC boundary distinguishes: an unsupported method,
/// invalid parameters, and a violated internal invariant.
#[derive(Clone, Copy, Debug, PartialEq, Eq, Structural)]
pub enum RpcErrorKind {
    MethodNotFound,
    InvalidParams,
    InternalError,
}

/// The JSON-RPC error code of each kind.
pub fn rpc_error_code(kind: &RpcErrorKind) -> (r: i64)
    ensures
        *kind == RpcErrorKind::MethodNotFound ==> r == -32601,
        *kind == RpcErrorKind::InvalidParams ==> r == -32602,
        *kind == RpcErrorKind::InternalError ==> r == -32603,
{
    match kind {
        RpcErrorKind::MethodNotFound => -32601,
        RpcErrorKind::InvalidParams => -32602,
        RpcErrorKind::InternalError => -32603,
    }
}

/// The account reported for an address that has no state yet: zero
/// balances and a zero nonce.
pub open spec fn empty_account_spec(address: HashValue) -> Account {
    Account { address, balance: 0, bank_balance: 0, storage_balance: 0, nonce: 0 }
}

/// What the service's answer to an account query looks like to the
/// verified core: `None` when the service failed, otherwise the account
/// it found, if any.
pub type AccountFetch = Option<Option<Account>>;

/// The response to an account query: the account the service found, an
/// empty account for a fresh address, and invalid-params when the
/// service failed.
pub fn account_response(address: HashValue, fetched: AccountFetch) -> (r: Result<
    Account,
    RpcErrorKind,
>)
    ensures
        r == (match fetched {
            Some(Some(acc)) => Ok::<Account, RpcErrorKind>(acc),
            Some(None) => Ok::<Account, RpcErrorKind>(empty_account_spec(address)),
            None => Err::<Account, RpcErrorKind>(RpcErrorKind::InvalidParams),
        }),
{
    match fetched {
        Some(Some(acc)) => Ok(acc),
        Some(None) => Ok(
            Account { address, balance: 0, bank_balance: 0, storage_balance: 0, nonce: 0 },
        ),
        None => Err(RpcErrorKind::InvalidParams),
    }
}

/// The response to a balance query: the account's balance, zero for a
/// fresh address, invalid-params when the service failed.
pub fn balance_response(fetched: AccountFetch) -> (r: Result<u128, RpcErrorKind>)
    ensures
        r == (match fetched {
            Some(Some(acc)) => Ok::<u128, RpcErrorKind>(acc.balance),
            Some(None) => Ok::<u128, RpcErrorKind>(0),
            None => Err::<u128, RpcErrorKind>(RpcErrorKind::InvalidParams),
        }),
{
    match fetched {
        Some(Some(acc)) => Ok(acc.balance),
        Some(None) => Ok(0),
        None => Err(RpcErrorKind::InvalidParams),
    }
}

/// As `balance_response`, for the banking balance.
pub fn bank_balance_response(fetched: AccountFetch) -> (r: Result<u128, RpcErrorKind>)
    ensures
        r == (match fetched {
            Some(Some(acc)) => Ok::<u128, RpcErrorKind>(acc.bank_balance),
            Some(None) => Ok::<u128, RpcErrorKind>(0),
            None => Err::<u128, RpcErrorKind>(RpcErrorKind::InvalidParams),
        }),
{
    match fetched {
        Some(Some(acc)) => Ok(acc.bank_balance),
        Some(None) => Ok(0),
        None => Err(RpcErrorKind::InvalidParams),
    }
}

/// As `balance_response`, for the storage balance.
pub fn storage_balance_response(fetched: AccountFetch) -> (r: Result<u128, RpcErrorKind>)
    ensures
        r == (match fetched {
            Some(Some(acc)) => Ok::<u128, RpcErrorKind>(acc.storage_balance),
            Some(None) => Ok::<u128, RpcErrorKind>(0),
            None => Err::<u128, RpcErrorKind>(RpcErrorKind::InvalidParams),
        }),
{
    match fetched {
        Some(Some(acc)) => Ok(acc.storage_balance),
        Some(None) => Ok(0),
        None => Err(RpcErrorKind::InvalidParams),
    }
}

/// The response to a code query: the contract code, empty for an address
/// without code, invalid-params when the service failed.
pub fn code_response(fetched: Option<Option<Vec<u8>>>) -> (r: Result<Vec<u8>, RpcErrorKind>)
    ensures
        r is Ok <==> fetched is Some,
        fetched matches Some(Some(code)) ==> r is Ok && r.unwrap()@ == code@,
        fetched matches Some(None) ==> r is Ok && r.unwrap()@ == Seq::<u8>::empty(),
        fetched is None ==> r == Err::<Vec<u8>, RpcErrorKind>(RpcErrorKind::InvalidParams),
{
    match fetched {
        Some(Some(code)) => Ok(code),
        Some(None) => {
            let empty: Vec<u8> = Vec::new();
            Ok(empty)
        }
        None => Err(RpcErrorKind::InvalidParams),
    }
}

/// The nonce a submitted transaction is sent with: the nonce the caller
/// requested, else the nonce of the sender's account in the latest
/// state, else zero for a fresh sender.
pub fn send_transaction_nonce(requested: Option<u128>, account: Option<Account>) -> (r: u128)
    ensures
        requested is Some ==> r == requested.unwrap(),
        requested is None && account is Some ==> r == account.unwrap().nonce,
        requested is None && account is None ==> r == 0,
{
    match requested {
        Some(nonce) => nonce,
        None => match account {
            Some(acc) => acc.nonce,
            None => 0,
        },
    }
}

/// A transaction receipt as the light path assembles it from what the
/// service fetched.
#[derive(Clone, Copy, Debug, PartialEq, Eq, Structural)]
pub struct TxReceipt {
    pub tx_hash: HashValue,
    pub outcome_ok: bool,
    pub epoch_number: Option<u64>,
    pub state_root: Option<HashValue>,
}

/// Assembles a receipt: the epoch is set from what was fetched, and the
/// state root only when the service knew one.
pub fn make_receipt(
    tx_hash: HashValue,
    outcome_ok: bool,
    maybe_epoch: Option<u64>,
    maybe_state_root: Option<HashValue>,
) -> (r: TxReceipt)
    ensures
        r == (TxReceipt { tx_hash, outcome_ok, epoch_number: maybe_epoch, state_root: maybe_state_root }),
{
    TxReceipt { tx_hash, outcome_ok, epoch_number: maybe_epoch, state_root: maybe_state_root }
}

/// The response once a validated raw transaction was offered to the
/// network: its hash when some peer relayed it, invalid-params when none
/// did.
pub fn relay_response(tx_hash: HashValue, relay_accepted: bool) -> (r: Result<
    HashValue,
    RpcErrorKind,
>)
    ensures
        relay_accepted ==> r == Ok::<HashValue, RpcErrorKind>(tx_hash),
        !relay_accepted ==> r == Err::<HashValue, RpcErrorKind>(RpcErrorKind::InvalidParams),
{
    if relay_accepted {
        Ok(tx_hash)
    } else {
        Err(RpcErrorKind::InvalidParams)
    }
}

/// The phases the synchronization protocol moves through.
#[derive(Clone, Copy, Debug, PartialEq, Eq, Structural)]
pub enum SyncPhase {
    CatchUpSnapshot,
    CatchUpRecentBlocks,
    Normal,
}

/// The name of the current synchronization phase, as the RPC surface
/// reports it.
pub fn current_sync_phase_name(phase: &SyncPhase) -> (r: String)
    ensures
        *phase == SyncPhase::CatchUpSnapshot ==> r@ == "CatchUpSnapshot"@,
        *phase == SyncPhase::CatchUpRecentBlocks ==> r@ == "CatchUpRecentBlocks"@,
        *phase == SyncPhase::Normal ==> r@ == "Normal"@,
{
    match phase {
        SyncPhase::CatchUpSnapshot => String::from_str("CatchUpSnapshot"),
        SyncPhase::CatchUpRecentBlocks => String::from_str("CatchUpRecentBlocks"),
        SyncPhase::Normal => String::from_str("Normal"),
    }
}

/// The introspection snapshot of the BFT overlay that `bft_state`
/// reports.
#[derive(Clone, Copy, Debug, PartialEq, Eq, Structural)]
pub struct BFTStates {
    pub epoch: u64,
    pub round: u64,
    pub last_voted_round: u64,
    pub preferred_round: u64,
    pub committed_round: u64,
}

/// Snapshots the safety state and the driver's rounds for introspection.
pub fn bft_state(state: &ConsensusState, round: u64, committed_round: u64) -> (r: BFTStates)
    ensures
        r == (BFTStates {
            epoch: state.epoch,
            round,
            last_voted_round: state.last_voted_round,
            preferred_round: state.preferred_round,
            committed_round,
        }),
{
    BFTStates {
        epoch: state.epoch,
        round,
        last_voted_round: state.last_voted_round,
        preferred_round: state.preferred_round,
        committed_round,
    }
}

} // verus!
