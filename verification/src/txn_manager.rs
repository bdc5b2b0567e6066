//! The transaction manager over an in-process mempool: pulling a bounded
//! payload while excluding what is already pending on the branch being
//! extended, and committing a payload, which removes it from the mempool
//! and garbage-collects everything expired by the commit timestamp.

use vstd::prelude::*;
use crate::types::SignedTransaction;

verus! {

/// Why the transaction manager refused a request. The in-process mempool
/// never fails; the variant mirrors the contract of a remote mempool.
#[derive(Clone, Copy, Debug, PartialEq, Eq, Structural)]
pub enum Error {
    MempoolUnavailable,
}

/// Whether a transaction with the same hash appears in `exclude`.
pub open spec fn is_excluded(t: SignedTransaction, exclude: Seq<SignedTransaction>) -> bool {
    exists|i: int| 0 <= i < exclude.len() && (#[trigger] exclude[i]).hash == t.hash
}

/// The payload pulled from the first `n` mempool entries: mempool order,
/// skipping excluded transactions, stopping at `max_size`.
pub open spec fn pull_prefix(
    txns: Seq<SignedTransaction>,
    n: int,
    max_size: u64,
    exclude: Seq<SignedTransaction>,
) -> Seq<SignedTransaction>
    decreases n,
{
    if n <= 0 {
        Seq::empty()
    } else {
        let prev = pull_prefix(txns, n - 1, max_size, exclude);
        if !is_excluded(txns[n - 1], exclude) && prev.len() < max_size {
            prev.push(txns[n - 1])
        } else {
            prev
        }
    }
}

/// What `pull_txns` returns: a function of the mempool snapshot, the
/// bound and the exclude set alone, so pulling is deterministic.
pub open spec fn pull_spec(
    txns: Seq<SignedTransaction>,
    max_size: u64,
    exclude: Seq<SignedTransaction>,
) -> Seq<SignedTransaction> {
    pull_prefix(txns, txns.len() as int, max_size, exclude)
}

/// Whether the mempool keeps a transaction across a commit of `payload`
/// at time `timestamp_usecs`: it keeps what was not committed and has not
/// expired.
pub open spec fn keeps(t: SignedTransaction, payload: Seq<SignedTransaction>, timestamp_usecs: u64) -> bool {
    !is_excluded(t, payload) && t.expiration_usecs > timestamp_usecs
}

/// The mempool contents surviving a commit, restricted to the first `n`
/// entries.
pub open spec fn commit_prefix(
    txns: Seq<SignedTransaction>,
    n: int,
    payload: Seq<SignedTransaction>,
    timestamp_usecs: u64,
) -> Seq<SignedTransaction>
    decreases n,
{
    if n <= 0 {
        Seq::empty()
    } else {
        let prev = commit_prefix(txns, n - 1, payload, timestamp_usecs);
        if keeps(txns[n - 1], payload, timestamp_usecs) {
            prev.push(txns[n - 1])
        } else {
            prev
        }
    }
}

/// The mempool after committing `payload` at `timestamp_usecs`.
pub open spec fn commit_spec(
    txns: Seq<SignedTransaction>,
    payload: Seq<SignedTransaction>,
    timestamp_usecs: u64,
) -> Seq<SignedTransaction> {
    commit_prefix(txns, txns.len() as int, payload, timestamp_usecs)
}

/// Everything a commit leaves in the mempool survives the same commit.
proof fn lemma_commit_prefix_all_kept(
    txns: Seq<SignedTransaction>,
    n: int,
    payload: Seq<SignedTransaction>,
    timestamp_usecs: u64,
)
    ensures
        forall|j: int|
            0 <= j < commit_prefix(txns, n, payload, timestamp_usecs).len() ==> keeps(
                #[trigger] commit_prefix(txns, n, payload, timestamp_usecs)[j],
                payload,
                timestamp_usecs,
            ),
    decreases n,
{
    if n > 0 {
        lemma_commit_prefix_all_kept(txns, n - 1, payload, timestamp_usecs);
        let prev = commit_prefix(txns, n - 1, payload, timestamp_usecs);
        let cur = commit_prefix(txns, n, payload, timestamp_usecs);
        if keeps(txns[n - 1], payload, timestamp_usecs) {
            assert forall|j: int| 0 <= j < cur.len() implies keeps(
                cur[j],
                payload,
                timestamp_usecs,
            ) by {
                if j < prev.len() {
                    assert(cur[j] == prev[j]);
                } else {
                    assert(cur[j] == txns[n - 1]);
                }
            }
        }
    }
}

/// Committing changes nothing in a mempool all of whose entries survive
/// the commit.
proof fn lemma_commit_all_kept_identity(
    s: Seq<SignedTransaction>,
    n: int,
    payload: Seq<SignedTransaction>,
    timestamp_usecs: u64,
)
    requires
        0 <= n <= s.len(),
        forall|j: int| 0 <= j < s.len() ==> keeps(#[trigger] s[j], payload, timestamp_usecs),
    ensures
        commit_prefix(s, n, payload, timestamp_usecs) == s.subrange(0, n),
    decreases n,
{
    if n > 0 {
        lemma_commit_all_kept_identity(s, n - 1, payload, timestamp_usecs);
        assert(commit_prefix(s, n, payload, timestamp_usecs) =~= s.subrange(0, n));
    } else {
        assert(commit_prefix(s, n, payload, timestamp_usecs) =~= s.subrange(0, 0));
    }
}

/// Committing a payload is idempotent: committing the same payload twice
/// with the same timestamp leaves exactly the mempool of the first
/// commit.
pub proof fn lemma_commit_txns_idempotent(
    txns: Seq<SignedTransaction>,
    payload: Seq<SignedTransaction>,
    timestamp_usecs: u64,
)
    ensures
        commit_spec(commit_spec(txns, payload, timestamp_usecs), payload, timestamp_usecs)
            == commit_spec(txns, payload, timestamp_usecs),
{
    let once = commit_spec(txns, payload, timestamp_usecs);
    lemma_commit_prefix_all_kept(txns, txns.len() as int, payload, timestamp_usecs);
    lemma_commit_all_kept_identity(once, once.len() as int, payload, timestamp_usecs);
    assert(once.subrange(0, once.len() as int) =~= once);
}

/// The transaction manager bound to one in-process mempool snapshot.
/// Mempool order is the insertion order, so pulling is deterministic for
/// a given snapshot and exclude set.
#[derive(Clone, Debug)]
pub struct LocalTxnManager {
    txns: Vec<SignedTransaction>,
}

impl LocalTxnManager {
    pub closed spec fn mempool_spec(self) -> Seq<SignedTransaction> {
        self.txns@
    }

    pub fn new(txns: Vec<SignedTransaction>) -> (r: LocalTxnManager)
        ensures
            r.mempool_spec() == txns@,
    {
        LocalTxnManager { txns }
    }

    /// The current mempool contents, in order.
    pub fn mempool(&self) -> (r: &Vec<SignedTransaction>)
        ensures
            r@ == self.mempool_spec(),
    {
        &self.txns
    }

    /// Checks membership by transaction hash.
    fn is_excluded_exec(t: &SignedTransaction, exclude: &Vec<SignedTransaction>) -> (r: bool)
        ensures
            r == is_excluded(*t, exclude@),
    {
        let mut i: usize = 0;
        while i < exclude.len()
            invariant
                0 <= i <= exclude@.len(),
                forall|j: int| 0 <= j < i ==> (#[trigger] exclude@[j]).hash != t.hash,
            decreases exclude@.len() - i,
        {
            if exclude[i].hash == t.hash {
                return true;
            }
            i = i + 1;
        }
        false
    }

    /// Brings at most `max_size` new transactions in mempool order,
    /// excluding those already pending on the branch being extended. The
    /// mempool itself is unchanged.
    pub fn pull_txns(&mut self, max_size: u64, exclude_txns: &Vec<SignedTransaction>) -> (r: Result<
        Vec<SignedTransaction>,
        Error,
    >)
        ensures
            *final(self) == *old(self),
            r is Ok,
            r.unwrap()@ == pull_spec(old(self).mempool_spec(), max_size, exclude_txns@),
            r.unwrap()@.len() <= max_size,
    {
        let n = self.txns.len();
        let mut out: Vec<SignedTransaction> = Vec::new();
        let mut i: usize = 0;
        while i < n
            invariant
                0 <= i <= n,
                n == self.txns@.len(),
                *self == *old(self),
                out@ == pull_prefix(self.txns@, i as int, max_size, exclude_txns@),
                out@.len() <= max_size,
            decreases n - i,
        {
            let t = self.txns[i];
            if !Self::is_excluded_exec(&t, exclude_txns) && (out.len() as u64) < max_size {
                out.push(t);
            }
            i = i + 1;
        }
        Ok(out)
    }

    /// Commits a payload: removes the committed transactions from the
    /// mempool and garbage-collects everything expired by the monotonic
    /// commit timestamp. Re-committing the same payload neither errs nor
    /// has any further effect.
    pub fn commit_txns(&mut self, txns: &Vec<SignedTransaction>, timestamp_usecs: u64) -> (r:
        Result<(), Error>)
        ensures
            r is Ok,
            final(self).mempool_spec() == commit_spec(
                old(self).mempool_spec(),
                txns@,
                timestamp_usecs,
            ),
    {
        let ghost mempool0 = self.txns@;
        let n = self.txns.len();
        let mut kept: Vec<SignedTransaction> = Vec::new();
        let mut i: usize = 0;
        while i < n
            invariant
                0 <= i <= n,
                n == mempool0.len(),
                self.txns@ == mempool0,
                kept@ == commit_prefix(mempool0, i as int, txns@, timestamp_usecs),
            decreases n - i,
        {
            let t = self.txns[i];
            if !Self::is_excluded_exec(&t, txns) && t.expiration_usecs > timestamp_usecs {
                kept.push(t);
            }
            i = i + 1;
        }
        self.txns = kept;
        Ok(())
    }
}

} // verus!
