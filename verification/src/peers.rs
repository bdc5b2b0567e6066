//! The peer registry the synchronization protocol maintains: a mapping
//! from peer identity to its advertised round and last activity, which
//! the BFT driver queries to pick synchronization targets.

use vstd::prelude::*;
use crate::types::HashValue;

verus! {

/// What the registry knows of one peer.
#[derive(Clone, Copy, Debug, PartialEq, Eq, Structural)]
pub struct PeerState {
    pub best_round: u64,
    pub last_seen_usecs: u64,
}

/// Whether entry list `s` holds some entry for peer `id`.
pub open spec fn has_peer(s: Seq<(HashValue, PeerState)>, id: HashValue) -> bool {
    exists|i: int| 0 <= i < s.len() && (#[trigger] s[i]).0 == id
}

/// The state recorded for `id`, when each peer has at most one entry.
pub open spec fn peer_lookup(s: Seq<(HashValue, PeerState)>, id: HashValue) -> Option<PeerState> {
    if has_peer(s, id) {
        Some(s[choose|i: int| 0 <= i < s.len() && (#[trigger] s[i]).0 == id].1)
    } else {
        None
    }
}

/// At most one entry per peer.
pub open spec fn peers_unique(s: Seq<(HashValue, PeerState)>) -> bool {
    forall|i: int, j: int| 0 <= i < j < s.len() ==> (#[trigger] s[i]).0 != (#[trigger] s[j]).0
}

/// The registry: an association list with unique peer identities.
#[derive(Clone, Debug)]
pub struct Peers {
    entries: Vec<(HashValue, PeerState)>,
}

impl Peers {
    pub closed spec fn entries_spec(self) -> Seq<(HashValue, PeerState)> {
        self.entries@
    }

    /// Registry validity: one entry per peer.
    pub open spec fn wf(self) -> bool {
        peers_unique(self.entries_spec())
    }

    pub fn new() -> (r: Peers)
        ensures
            r.wf(),
            r.entries_spec() == Seq::<(HashValue, PeerState)>::empty(),
    {
        Peers { entries: Vec::new() }
    }

    pub fn len(&self) -> (r: usize)
        ensures
            r == self.entries_spec().len(),
    {
        self.entries.len()
    }

    /// The recorded state of a peer, if any.
    pub fn get(&self, id: &HashValue) -> (r: Option<PeerState>)
        requires
            self.wf(),
        ensures
            r == peer_lookup(self.entries_spec(), *id),
    {
        let n = self.entries.len();
        let mut i: usize = 0;
        while i < n
            invariant
                0 <= i <= n,
                n == self.entries@.len(),
                self.wf(),
                forall|j: int| 0 <= j < i ==> (#[trigger] self.entries@[j]).0 != *id,
            decreases n - i,
        {
            if self.entries[i].0 == *id {
                proof {
                    let w = choose|k: int|
                        0 <= k < self.entries@.len() && (#[trigger] self.entries@[k]).0 == *id;
                    assert(self.entries@[i as int].0 == *id);
                    assert(w == i);
                }
                return Some(self.entries[i].1);
            }
            i = i + 1;
        }
        None
    }

    /// Records what is now known of a peer: replaces its entry or, for a
    /// new peer, appends one.
    pub fn update_peer(&mut self, id: HashValue, state: PeerState)
        requires
            old(self).wf(),
        ensures
            final(self).wf(),
            peer_lookup(final(self).entries_spec(), id) == Some(state),
            forall|other: HashValue|
                other != id ==> #[trigger] peer_lookup(final(self).entries_spec(), other)
                    == peer_lookup(old(self).entries_spec(), other),
    {
        let ghost entries0 = self.entries@;
        let n = self.entries.len();
        let mut i: usize = 0;
        while i < n
            invariant
                0 <= i <= n,
                n == self.entries@.len(),
                self.entries@ == entries0,
                old(self).wf(),
                entries0 == old(self).entries_spec(),
                forall|j: int| 0 <= j < i ==> (#[trigger] entries0[j]).0 != id,
            decreases n - i,
        {
            if self.entries[i].0 == id {
                self.entries.set(i, (id, state));
                proof {
                    lemma_lookup_after_update(entries0, self.entries@, id, state, i as int);
                }
                return ;
            }
            i = i + 1;
        }
        self.entries.push((id, state));
        proof {
            lemma_lookup_after_push(entries0, self.entries@, id, state);
        }
    }
}

/// Replacing the unique entry of `id` changes only that peer's lookup.
proof fn lemma_lookup_after_update(
    pre: Seq<(HashValue, PeerState)>,
    post: Seq<(HashValue, PeerState)>,
    id: HashValue,
    state: PeerState,
    i: int,
)
    requires
        peers_unique(pre),
        0 <= i < pre.len(),
        pre[i].0 == id,
        post == pre.update(i, (id, state)),
    ensures
        peers_unique(post),
        peer_lookup(post, id) == Some(state),
        forall|other: HashValue|
            other != id ==> #[trigger] peer_lookup(post, other) == peer_lookup(pre, other),
{
    assert(forall|k: int| 0 <= k < post.len() && k != i ==> post[k] == pre[k]);
    assert(post[i].0 == id);
    assert forall|other: HashValue| other != id implies #[trigger] peer_lookup(post, other)
        == peer_lookup(pre, other) by {
        assert(forall|k: int|
            0 <= k < post.len() ==> ((#[trigger] post[k]).0 == other <==> pre[k].0 == other));
        if has_peer(pre, other) {
            let w = choose|k: int| 0 <= k < pre.len() && (#[trigger] pre[k]).0 == other;
            assert(post[w].0 == other);
            let w2 = choose|k: int| 0 <= k < post.len() && (#[trigger] post[k]).0 == other;
            assert(w2 == w);
        }
    }
    let w = choose|k: int| 0 <= k < post.len() && (#[trigger] post[k]).0 == id;
    assert(w == i);
}

/// Appending an entry for a new peer changes only that peer's lookup.
proof fn lemma_lookup_after_push(
    pre: Seq<(HashValue, PeerState)>,
    post: Seq<(HashValue, PeerState)>,
    id: HashValue,
    state: PeerState,
)
    requires
        peers_unique(pre),
        !has_peer(pre, id),
        post == pre.push((id, state)),
    ensures
        peers_unique(post),
        peer_lookup(post, id) == Some(state),
        forall|other: HashValue|
            other != id ==> #[trigger] peer_lookup(post, other) == peer_lookup(pre, other),
{
    assert(forall|k: int| 0 <= k < pre.len() ==> post[k] == pre[k]);
    assert(post[pre.len() as int] == (id, state));
    assert forall|i: int, j: int| 0 <= i < j < post.len() implies (#[trigger] post[i]).0 != (
    #[trigger] post[j]).0 by {
        if j == pre.len() {
            assert(pre[i].0 != id);
        }
    }
    assert(post[pre.len() as int].0 == id);
    let w = choose|k: int| 0 <= k < post.len() && (#[trigger] post[k]).0 == id;
    if w != pre.len() {
        assert(pre[w].0 == id);
    }
    assert forall|other: HashValue| other != id implies #[trigger] peer_lookup(post, other)
        == peer_lookup(pre, other) by {
        assert(forall|k: int|
            0 <= k < pre.len() ==> ((#[trigger] post[k]).0 == other <==> pre[k].0 == other));
        if has_peer(pre, other) {
            let w1 = choose|k: int| 0 <= k < pre.len() && (#[trigger] pre[k]).0 == other;
            assert(post[w1].0 == other);
            let w2 = choose|k: int| 0 <= k < post.len() && (#[trigger] post[k]).0 == other;
            assert(w2 != pre.len());
            assert(w2 == w1);
        } else {
            if has_peer(post, other) {
                let w2 = choose|k: int| 0 <= k < post.len() && (#[trigger] post[k]).0 == other;
                assert(w2 == pre.len());
            }
        }
    }
}

} // verus!
