//! Framing of a raw transaction as submitted over RPC: an RLP list of
//! nine data items — nonce, gas price, gas, action, value, data, and the
//! three signature fields — with canonical integer encodings. The RLP
//! reader and the keccak digest come from outside crates behind trusted
//! wrappers; everything decided from what they return is verified.

use vstd::prelude::*;
use crate::types::HashValue;
use crate::light_rpc::RpcErrorKind;

verus! {

/// The keccak-256 digest of a byte string.
pub uninterp spec fn keccak_of(data: Seq<u8>) -> Seq<u8>;

/// The number of top-level items of an RLP list, `None` for bytes that
/// are not a well-formed list.
pub uninterp spec fn rlp_list_len_of(raw: Seq<u8>) -> Option<usize>;

/// The payload bytes of the data item at the given index of an RLP list,
/// `None` when the index is out of range or the item is not a data item.
pub uninterp spec fn rlp_bytes_at_of(raw: Seq<u8>, index: usize) -> Option<Seq<u8>>;

/// Relies on keccak_hash::keccak: the 32-byte keccak-256 digest, a
/// function of the input bytes alone.
#[verifier::external_body]
fn keccak_bytes(data: &Vec<u8>) -> (r: Vec<u8>)
    ensures
        r@ == keccak_of(data@),
        r@.len() == 32,
{
    keccak_hash::keccak(data.as_slice()).as_bytes().to_vec()
}

/// Relies on rlp::Rlp::item_count: the number of top-level items of an
/// RLP list, an error for anything that is not a list; a function of the
/// bytes alone.
#[verifier::external_body]
fn rlp_list_len(raw: &Vec<u8>) -> (r: Option<usize>)
    ensures
        r == rlp_list_len_of(raw@),
{
    rlp::Rlp::new(raw.as_slice()).item_count().ok()
}

/// Relies on rlp::Rlp::val_at::<Vec<u8>>: the payload bytes of the data
/// item at the given index of an RLP list, an error when absent or not a
/// data item; a function of the bytes and the index alone.
#[verifier::external_body]
fn rlp_bytes_at(raw: &Vec<u8>, index: usize) -> (r: Option<Vec<u8>>)
    ensures
        (match r {
            Some(v) => rlp_bytes_at_of(raw@, index) == Some(v@),
            None => rlp_bytes_at_of(raw@, index) is None,
        }),
{
    rlp::Rlp::new(raw.as_slice()).val_at::<Vec<u8>>(index).ok()
}

/// A canonical unsigned-integer field: at most `max_len` bytes and no
/// leading zero byte.
pub open spec fn canonical_uint(b: Seq<u8>, max_len: int) -> bool {
    b.len() <= max_len && (b.len() == 0 || b[0] != 0)
}

/// Checks a field for the canonical unsigned-integer encoding.
fn check_canonical_uint(b: &Vec<u8>, max_len: usize) -> (r: bool)
    ensures
        r == canonical_uint(b@, max_len as int),
{
    b.len() <= max_len && (b.len() == 0 || *b.first().unwrap() != 0)
}

/// The decoded fields of a raw transaction, as byte strings: the numeric
/// fields keep their canonical big-endian encoding.
#[derive(Clone, Debug)]
pub struct RawTransaction {
    pub nonce: Vec<u8>,
    pub gas_price: Vec<u8>,
    pub gas: Vec<u8>,
    pub action: Vec<u8>,
    pub value: Vec<u8>,
    pub data: Vec<u8>,
    pub sig_v: Vec<u8>,
    pub sig_r: Vec<u8>,
    pub sig_s: Vec<u8>,
}

/// Whether raw bytes frame a well-formed transaction: an RLP list of
/// exactly nine data items, the numeric and signature fields canonical
/// 256-bit integers (the recovery id one byte), and the action either
/// empty (contract creation) or a 20-byte address.
pub open spec fn raw_tx_well_formed(raw: Seq<u8>) -> bool {
    &&& rlp_list_len_of(raw) == Some(9usize)
    &&& rlp_bytes_at_of(raw, 0) is Some && canonical_uint(rlp_bytes_at_of(raw, 0).unwrap(), 32)
    &&& rlp_bytes_at_of(raw, 1) is Some && canonical_uint(rlp_bytes_at_of(raw, 1).unwrap(), 32)
    &&& rlp_bytes_at_of(raw, 2) is Some && canonical_uint(rlp_bytes_at_of(raw, 2).unwrap(), 32)
    &&& rlp_bytes_at_of(raw, 3) is Some && (rlp_bytes_at_of(raw, 3).unwrap().len() == 0
        || rlp_bytes_at_of(raw, 3).unwrap().len() == 20)
    &&& rlp_bytes_at_of(raw, 4) is Some && canonical_uint(rlp_bytes_at_of(raw, 4).unwrap(), 32)
    &&& rlp_bytes_at_of(raw, 5) is Some
    &&& rlp_bytes_at_of(raw, 6) is Some && canonical_uint(rlp_bytes_at_of(raw, 6).unwrap(), 1)
    &&& rlp_bytes_at_of(raw, 7) is Some && canonical_uint(rlp_bytes_at_of(raw, 7).unwrap(), 32)
    &&& rlp_bytes_at_of(raw, 8) is Some && canonical_uint(rlp_bytes_at_of(raw, 8).unwrap(), 32)
}

/// Decodes raw bytes into the transaction's fields, refusing anything
/// that is not a well-formed frame.
pub fn decode_raw_transaction(raw: &Vec<u8>) -> (r: Option<RawTransaction>)
    ensures
        r is Some <==> raw_tx_well_formed(raw@),
        r matches Some(tx) ==> {
            &&& Some(tx.nonce@) == rlp_bytes_at_of(raw@, 0)
            &&& Some(tx.gas_price@) == rlp_bytes_at_of(raw@, 1)
            &&& Some(tx.gas@) == rlp_bytes_at_of(raw@, 2)
            &&& Some(tx.action@) == rlp_bytes_at_of(raw@, 3)
            &&& Some(tx.value@) == rlp_bytes_at_of(raw@, 4)
            &&& Some(tx.data@) == rlp_bytes_at_of(raw@, 5)
            &&& Some(tx.sig_v@) == rlp_bytes_at_of(raw@, 6)
            &&& Some(tx.sig_r@) == rlp_bytes_at_of(raw@, 7)
            &&& Some(tx.sig_s@) == rlp_bytes_at_of(raw@, 8)
        },
{
    match rlp_list_len(raw) {
        Some(n) if n == 9 => {}
        _ => {
            return None;
        }
    }
    let nonce = match rlp_bytes_at(raw, 0) {
        Some(b) => b,
        None => {
            return None;
        }
    };
    let gas_price = match rlp_bytes_at(raw, 1) {
        Some(b) => b,
        None => {
            return None;
        }
    };
    let gas = match rlp_bytes_at(raw, 2) {
        Some(b) => b,
        None => {
            return None;
        }
    };
    let action = match rlp_bytes_at(raw, 3) {
        Some(b) => b,
        None => {
            return None;
        }
    };
    let value = match rlp_bytes_at(raw, 4) {
        Some(b) => b,
        None => {
            return None;
        }
    };
    let data = match rlp_bytes_at(raw, 5) {
        Some(b) => b,
        None => {
            return None;
        }
    };
    let sig_v = match rlp_bytes_at(raw, 6) {
        Some(b) => b,
        None => {
            return None;
        }
    };
    let sig_r = match rlp_bytes_at(raw, 7) {
        Some(b) => b,
        None => {
            return None;
        }
    };
    let sig_s = match rlp_bytes_at(raw, 8) {
        Some(b) => b,
        None => {
            return None;
        }
    };
    if !(check_canonical_uint(&nonce, 32) && check_canonical_uint(&gas_price, 32)
        && check_canonical_uint(&gas, 32) && (action.len() == 0 || action.len() == 20)
        && check_canonical_uint(&value, 32) && check_canonical_uint(&sig_v, 1)
        && check_canonical_uint(&sig_r, 32) && check_canonical_uint(&sig_s, 32)) {
        return None;
    }
    Some(
        RawTransaction { nonce, gas_price, gas, action, value, data, sig_v, sig_r, sig_s },
    )
}

/// The word read from eight big-endian bytes at offset `o`.
pub open spec fn word_at(b: Seq<u8>, o: int) -> u64 {
    ((b[o] as u64) << 56) | ((b[o + 1] as u64) << 48) | ((b[o + 2] as u64) << 40) | ((b[o
        + 3] as u64) << 32) | ((b[o + 4] as u64) << 24) | ((b[o + 5] as u64) << 16) | ((b[o
        + 6] as u64) << 8) | (b[o + 7] as u64)
}

/// A 32-byte digest as a hash value: four big-endian words.
pub open spec fn hash_from_bytes(b: Seq<u8>) -> HashValue
    recommends
        b.len() == 32,
{
    HashValue { w0: word_at(b, 0), w1: word_at(b, 8), w2: word_at(b, 16), w3: word_at(b, 24) }
}

/// Reads one big-endian word of a 32-byte digest.
fn read_word(b: &Vec<u8>, o: usize) -> (r: u64)
    requires
        o + 8 <= b@.len(),
    ensures
        r == word_at(b@, o as int),
{
    let n = b.len();
    assert(o + 8 <= n);
    ((b[o] as u64) << 56) | ((b[o + 1] as u64) << 48) | ((b[o + 2] as u64) << 40) | ((b[o
        + 3] as u64) << 32) | ((b[o + 4] as u64) << 24) | ((b[o + 5] as u64) << 16) | ((b[o
        + 6] as u64) << 8) | (b[o + 7] as u64)
}

/// The identity of a raw transaction: the keccak-256 digest of exactly
/// the submitted bytes.
pub fn transaction_hash(raw: &Vec<u8>) -> (r: HashValue)
    ensures
        r == hash_from_bytes(keccak_of(raw@)),
{
    let digest = keccak_bytes(raw);
    HashValue {
        w0: read_word(&digest, 0),
        w1: read_word(&digest, 8),
        w2: read_word(&digest, 16),
        w3: read_word(&digest, 24),
    }
}

/// The first half of the raw-transaction path: decode the submitted
/// bytes so invalid transactions never reach the peers, and identify the
/// transaction by its digest. The caller then offers the bytes to the
/// network and answers through `relay_response`.
pub fn validate_raw_transaction(raw: &Vec<u8>) -> (r: Result<HashValue, RpcErrorKind>)
    ensures
        raw_tx_well_formed(raw@) ==> r == Ok::<HashValue, RpcErrorKind>(
            hash_from_bytes(keccak_of(raw@)),
        ),
        !raw_tx_well_formed(raw@) ==> r == Err::<HashValue, RpcErrorKind>(
            RpcErrorKind::InvalidParams,
        ),
{
    match decode_raw_transaction(raw) {
        Some(_) => Ok(transaction_hash(raw)),
        None => Err(RpcErrorKind::InvalidParams),
    }
}

} // verus!
