//! Peer discovery gate. The signaling transport reports, at each poll,
//! whatever peers it currently knows about, and may reorder them between
//! polls. Handle assignment must be identical on every peer, so peers are
//! cached in first-seen order and never reordered or dropped: the
//! cached order is what the bootstrap turns into player handles. A
//! transport failure before bootstrap completes is latched and surfaced,
//! never silently swallowed.

use vstd::prelude::*;

verus! {

/// Whether a player slot is driven by this process or by a remote peer.
#[derive(Clone, Copy, PartialEq, Eq, Structural, Debug)]
pub enum PlayerKind {
    Local,
    Remote,
}

/// A discovered peer: an identifier unique within the session, and whether
/// it is the local player. The identifier is assigned by the layer that
/// talks to the transport and is not otherwise interpreted here.
#[derive(Clone, Copy, PartialEq, Eq, Structural, Debug)]
pub struct Peer {
    pub id: u64,
    pub kind: PlayerKind,
}

/// Whether a peer with the given id occurs in the sequence.
pub open spec fn has_id(s: Seq<Peer>, id: u64) -> bool {
    exists|i: int| 0 <= i < s.len() && s[i].id == id
}

/// Whether every peer id in the sequence occurs exactly once.
pub open spec fn ids_distinct(s: Seq<Peer>) -> bool {
    forall|i: int, j: int| 0 <= i < j < s.len() ==> s[i].id != s[j].id
}

/// The cache after one poll: peers already known stay exactly where they
/// are; peers observed for the first time are appended in observed order.
pub open spec fn merge_first_seen(cur: Seq<Peer>, observed: Seq<Peer>) -> Seq<Peer>
    decreases observed.len(),
{
    if observed.len() == 0 {
        cur
    } else {
        let next = if has_id(cur, observed[0].id) {
            cur
        } else {
            cur.push(observed[0])
        };
        merge_first_seen(next, observed.drop_first())
    }
}

/// The first-seen-ordered peer cache, with a latched failure flag.
pub struct DiscoveryGate {
    peers: Vec<Peer>,
    failed: bool,
}

impl DiscoveryGate {
    /// The cached peers, in first-seen order.
    pub closed spec fn peers_seq(&self) -> Seq<Peer> {
        self.peers@
    }

    /// Whether the transport has reported a failure.
    pub closed spec fn failed_spec(&self) -> bool {
        self.failed
    }

    /// Well-formedness: no peer id is cached twice.
    pub open spec fn wf(&self) -> bool {
        ids_distinct(self.peers_seq())
    }

    /// A fresh gate: no peers seen, no failure.
    pub fn new() -> (r: DiscoveryGate)
        ensures
            r.peers_seq() == Seq::<Peer>::empty(),
            !r.failed_spec(),
            r.wf(),
    {
        DiscoveryGate { peers: Vec::new(), failed: false }
    }

    /// Records one poll of the transport. Peers already known keep their
    /// place; peers seen for the first time are appended in the order the
    /// transport listed them. Safe to call any number of times: a poll
    /// that reports nothing new changes nothing.
    pub fn record_poll(&mut self, observed: &Vec<Peer>)
        requires
            old(self).wf(),
        ensures
            final(self).peers_seq() == merge_first_seen(old(self).peers_seq(), observed@),
            final(self).failed_spec() == old(self).failed_spec(),
            final(self).wf(),
    {
        let ghost start = self.peers@;
        proof {
            assert(observed@.skip(0) =~= observed@);
        }
        let n = observed.len();
        let mut k: usize = 0;
        while k < n
            invariant
                n == observed@.len(),
                k <= n,
                ids_distinct(self.peers@),
                self.failed == old(self).failed,
                merge_first_seen(self.peers@, observed@.skip(k as int)) == merge_first_seen(
                    start,
                    observed@,
                ),
            decreases n - k,
        {
            let ghost before = self.peers@;
            let ghost rem = observed@.skip(k as int);
            let candidate = observed[k];
            let mut seen = false;
            let m = self.peers.len();
            let mut i: usize = 0;
            while i < m
                invariant
                    m == self.peers@.len(),
                    i <= m,
                    self.peers@ == before,
                    seen <==> exists|j: int| 0 <= j < i && before[j].id == candidate.id,
                decreases m - i,
            {
                if self.peers[i].id == candidate.id {
                    seen = true;
                }
                i = i + 1;
            }
            assert(seen <==> has_id(before, candidate.id));
            if !seen {
                self.peers.push(candidate);
                proof {
                    assert forall|a: int, b: int|
                        0 <= a < b < self.peers@.len() implies self.peers@[a].id
                        != self.peers@[b].id by {
                        if b == self.peers@.len() - 1 {
                            assert(!has_id(before, candidate.id));
                        }
                    }
                }
            }
            proof {
                assert(rem[0] == candidate);
                assert(rem.drop_first() =~= observed@.skip(k as int + 1));
                assert(merge_first_seen(before, rem) == merge_first_seen(
                    self.peers@,
                    observed@.skip(k as int + 1),
                ));
            }
            k = k + 1;
        }
        proof {
            assert(observed@.skip(n as int) =~= Seq::<Peer>::empty());
        }
    }

    /// Latches a transport failure. The condition is sticky: once the
    /// signaling channel has errored before bootstrap completed, this cache
    /// keeps reporting it until the operator-facing layer decides what to
    /// do.
    pub fn record_failure(&mut self)
        ensures
            final(self).failed_spec(),
            final(self).peers_seq() == old(self).peers_seq(),
            old(self).wf() ==> final(self).wf(),
    {
        self.failed = true;
    }

    /// The peers known so far, in first-seen order. Stable across repeated
    /// calls within the same discovery phase: this order becomes the
    /// handle-assignment order.
    pub fn known_peers(&self) -> (r: &Vec<Peer>)
        ensures
            r@ == self.peers_seq(),
    {
        &self.peers
    }

    /// How many peers are known so far.
    pub fn known_count(&self) -> (r: usize)
        ensures
            r == self.peers_seq().len(),
    {
        self.peers.len()
    }

    /// Whether the transport has reported a failure.
    pub fn has_failed(&self) -> (r: bool)
        ensures
            r == self.failed_spec(),
    {
        self.failed
    }
}

/// Merging never disturbs what was already seen: the cache before a poll
/// is a prefix of the cache after it, so a peer's position — its future
/// handle — never changes once assigned.
pub proof fn lemma_merge_keeps_prefix(cur: Seq<Peer>, observed: Seq<Peer>)
    ensures
        merge_first_seen(cur, observed).len() >= cur.len(),
        merge_first_seen(cur, observed).take(cur.len() as int) == cur,
    decreases observed.len(),
{
    if observed.len() == 0 {
        assert(merge_first_seen(cur, observed).take(cur.len() as int) =~= cur);
    } else {
        let next = if has_id(cur, observed[0].id) {
            cur
        } else {
            cur.push(observed[0])
        };
        lemma_merge_keeps_prefix(next, observed.drop_first());
        assert(next.take(cur.len() as int) =~= cur);
        let merged = merge_first_seen(next, observed.drop_first());
        assert(merged.take(cur.len() as int) =~= merged.take(next.len() as int).take(
            cur.len() as int,
        ));
    }
}

/// Merging preserves distinctness of peer ids: a gate that never held a
/// duplicate never acquires one, whatever the transport reports.
pub proof fn lemma_merge_keeps_distinct(cur: Seq<Peer>, observed: Seq<Peer>)
    requires
        ids_distinct(cur),
    ensures
        ids_distinct(merge_first_seen(cur, observed)),
    decreases observed.len(),
{
    if observed.len() > 0 {
        let next = if has_id(cur, observed[0].id) {
            cur
        } else {
            cur.push(observed[0])
        };
        assert(ids_distinct(next));
        lemma_merge_keeps_distinct(next, observed.drop_first());
    }
}

} // verus!
