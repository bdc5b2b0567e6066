//! Plain value types shared across the consensus core: 256-bit hashes,
//! signed transactions, and accounts as the light query path sees them.

use vstd::prelude::*;

verus! {

/// A 256-bit hash, held as four 64-bit words, most significant first.
/// Block ids, epoch ids, Merkle roots and peer identities are all such
/// hashes; the hash function that produces them is outside this model.
#[derive(Clone, Copy, Debug, PartialEq, Eq, Structural, Hash)]
pub struct HashValue {
    pub w0: u64,
    pub w1: u64,
    pub w2: u64,
    pub w3: u64,
}

impl HashValue {
    /// The all-zero hash, used as a placeholder before a real root is known.
    pub fn zero() -> (r: HashValue)
        ensures
            r == HashValue::zero_spec(),
    {
        HashValue { w0: 0, w1: 0, w2: 0, w3: 0 }
    }

    pub open spec fn zero_spec() -> HashValue {
        HashValue { w0: 0, w1: 0, w2: 0, w3: 0 }
    }

    pub fn from_u64(x: u64) -> (r: HashValue)
        ensures
            r == (HashValue { w0: 0, w1: 0, w2: 0, w3: x }),
    {
        HashValue { w0: 0, w1: 0, w2: 0, w3: x }
    }
}

/// One step of the running authenticators used across the model: rotate a
/// word left by one and fold in another word. It stands in for the
/// cryptographic hashing that is outside this model; everything proved of
/// it holds for any such step function.
pub open spec fn mix64(h: u64, x: u64) -> u64 {
    (((h << 1) as u64) | ((h >> 63) as u64)) ^ x
}

/// Folds one word into a 256-bit running hash: shift the words and mix.
pub open spec fn mix_hash(h: HashValue, x: u64) -> HashValue {
    HashValue { w0: h.w1, w1: h.w2, w2: h.w3, w3: mix64(h.w0, x) }
}

/// A signed transaction as the consensus core sees it: an identity, a
/// sender, an ordering nonce, and an expiry used by mempool garbage
/// collection. Whether the VM accepts the transaction is recorded in
/// `vm_ok`; the VM itself is outside this model.
#[derive(Clone, Copy, Debug, PartialEq, Eq, Structural)]
pub struct SignedTransaction {
    pub hash: HashValue,
    pub sender: HashValue,
    pub nonce: u64,
    pub expiration_usecs: u64,
    pub vm_ok: bool,
}

/// An account as the light query path reports it.
#[derive(Clone, Copy, Debug, PartialEq, Eq, Structural)]
pub struct Account {
    pub address: HashValue,
    pub balance: u128,
    pub bank_balance: u128,
    pub storage_balance: u128,
    pub nonce: u128,
}

} // verus!
