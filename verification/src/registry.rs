use vstd::prelude::*;

use crate::endpoint::{Endpoint, Peer};

verus! {

/// No two entries of `s` are registered under the same endpoint.
pub open spec fn distinct_endpoints(s: Seq<Peer>) -> bool {
    forall|i: int, j: int|
        #![trigger s[i], s[j]]
        0 <= i < j < s.len() ==> s[i].endpoint != s[j].endpoint
}

/// Some entry of `s` is registered under endpoint `e`.
pub open spec fn contains_endpoint(s: Seq<Peer>, e: Endpoint) -> bool {
    exists|i: int| 0 <= i < s.len() && #[trigger] s[i].endpoint == e
}

/// The entries of `s` whose endpoint differs from `e`, in registration order:
/// the recipients of one broadcast round sent on behalf of `e`.
pub open spec fn others(s: Seq<Peer>, e: Endpoint) -> Seq<Peer>
    decreases s.len(),
{
    if s.len() == 0 {
        Seq::empty()
    } else if s.last().endpoint == e {
        others(s.drop_last(), e)
    } else {
        others(s.drop_last(), e).push(s.last())
    }
}

pub(crate) proof fn lemma_contains_drop_last(s: Seq<Peer>, p: Peer)
    requires
        s.len() > 0,
    ensures
        s.contains(p) <==> (s.drop_last().contains(p) || p == s.last()),
{
    if s.contains(p) {
        let i = choose|i: int| 0 <= i < s.len() && s[i] == p;
        if i < s.len() - 1 {
            assert(s.drop_last()[i] == p);
        }
    }
    if s.drop_last().contains(p) {
        let i = choose|i: int| 0 <= i < s.drop_last().len() && s.drop_last()[i] == p;
        assert(s[i] == p);
    }
}

proof fn lemma_contains_endpoint_drop_last(s: Seq<Peer>, e: Endpoint)
    requires
        s.len() > 0,
    ensures
        contains_endpoint(s, e) <==> (contains_endpoint(s.drop_last(), e)
            || s.last().endpoint == e),
{
    if contains_endpoint(s, e) {
        let i = choose|i: int| 0 <= i < s.len() && s[i].endpoint == e;
        if i < s.len() - 1 {
            assert(s.drop_last()[i].endpoint == e);
        }
    }
    if contains_endpoint(s.drop_last(), e) {
        let i = choose|i: int| 0 <= i < s.drop_last().len() && s.drop_last()[i].endpoint == e;
        assert(s[i].endpoint == e);
    }
}

pub(crate) proof fn lemma_distinct_drop_last(s: Seq<Peer>)
    requires
        distinct_endpoints(s),
        s.len() > 0,
    ensures
        distinct_endpoints(s.drop_last()),
        !contains_endpoint(s.drop_last(), s.last().endpoint),
{
    let s0 = s.drop_last();
    assert forall|i: int, j: int|
        #![trigger s0[i], s0[j]]
        0 <= i < j < s0.len() implies s0[i].endpoint != s0[j].endpoint by {
        assert(s[i] == s0[i]);
        assert(s[j] == s0[j]);
    }
    assert forall|i: int| 0 <= i < s0.len() implies #[trigger] s0[i].endpoint
        != s.last().endpoint by {
        assert(s[i] == s0[i]);
        assert(s[i].endpoint != s[s.len() - 1].endpoint);
    }
}

/// Every peer of `others(s, e)` is a peer of `s` with a different endpoint,
/// and every such peer of `s` is kept.
pub proof fn lemma_others_membership(s: Seq<Peer>, e: Endpoint)
    ensures
        forall|p: Peer| #[trigger] others(s, e).contains(p) <==> (s.contains(p) && p.endpoint
            != e),
    decreases s.len(),
{
    if s.len() > 0 {
        let s0 = s.drop_last();
        lemma_others_membership(s0, e);
        assert forall|p: Peer| #[trigger] others(s, e).contains(p) <==> (s.contains(p)
            && p.endpoint != e) by {
            lemma_contains_drop_last(s, p);
            if s.last().endpoint != e {
                lemma_contains_drop_last(others(s0, e).push(s.last()), p);
                assert(others(s0, e).push(s.last()).drop_last() =~= others(s0, e));
            }
        }
    }
}

/// Keeping the entries of other endpoints preserves endpoint uniqueness.
pub proof fn lemma_others_distinct(s: Seq<Peer>, e: Endpoint)
    requires
        distinct_endpoints(s),
    ensures
        distinct_endpoints(others(s, e)),
    decreases s.len(),
{
    if s.len() > 0 {
        let s0 = s.drop_last();
        lemma_distinct_drop_last(s);
        lemma_others_distinct(s0, e);
        lemma_others_membership(s0, e);
        if s.last().endpoint != e {
            let out = others(s0, e).push(s.last());
            assert forall|i: int, j: int|
                #![trigger out[i], out[j]]
                0 <= i < j < out.len() implies out[i].endpoint != out[j].endpoint by {
                if j < out.len() - 1 {
                    assert(others(s0, e)[i] == out[i]);
                    assert(others(s0, e)[j] == out[j]);
                } else {
                    assert(out[i] == others(s0, e)[i]);
                    assert(others(s0, e).contains(others(s0, e)[i]));
                    assert(s0.contains(out[i]));
                    let k = choose|k: int| 0 <= k < s0.len() && s0[k] == out[i];
                    assert(s0[k].endpoint != s.last().endpoint);
                }
            }
        }
    }
}

/// How many entries one exclusion round keeps: all of them when the excluded
/// endpoint is absent, and exactly one fewer when it is present (endpoint
/// uniqueness rules out a second match).
pub proof fn lemma_others_len(s: Seq<Peer>, e: Endpoint)
    requires
        distinct_endpoints(s),
    ensures
        contains_endpoint(s, e) ==> others(s, e).len() == s.len() - 1,
        !contains_endpoint(s, e) ==> others(s, e) == s,
    decreases s.len(),
{
    if s.len() > 0 {
        let s0 = s.drop_last();
        lemma_distinct_drop_last(s);
        lemma_others_len(s0, e);
        lemma_contains_endpoint_drop_last(s, e);
        if s.last().endpoint != e && !contains_endpoint(s0, e) {
            assert(others(s0, e).push(s.last()) =~= s);
        }
    }
}

/// The connection registry: the authoritative table of live stream peers.
/// Its view is the sequence of entries in registration order; the registry's
/// invariant is that no endpoint appears twice.
pub struct Registry {
    peers: Vec<Peer>,
}

impl View for Registry {
    type V = Seq<Peer>;

    closed spec fn view(&self) -> Seq<Peer> {
        self.peers@
    }
}

impl Registry {
    /// Endpoint uniqueness, the registry invariant.
    pub open spec fn wf(&self) -> bool {
        distinct_endpoints(self@)
    }

    /// An empty registry.
    pub fn new() -> (r: Registry)
        ensures
            r@ == Seq::<Peer>::empty(),
            r.wf(),
    {
        Registry { peers: Vec::new() }
    }

    /// How many peers are currently registered.
    pub fn len(&self) -> (r: usize)
        ensures
            r == self@.len(),
    {
        self.peers.len()
    }

    /// Whether some entry is registered under endpoint `e`.
    pub fn contains(&self, e: Endpoint) -> (r: bool)
        ensures
            r == contains_endpoint(self@, e),
    {
        let n = self.peers.len();
        let mut i: usize = 0;
        while i < n
            invariant
                n == self@.len(),
                i <= n,
                forall|k: int| 0 <= k < i ==> #[trigger] self@[k].endpoint != e,
            decreases n - i,
        {
            if self.peers[i].endpoint == e {
                assert(self@[i as int].endpoint == e);
                return true;
            }
            i += 1;
        }
        false
    }

    /// Inserts a peer. Succeeds exactly when its endpoint is not yet present;
    /// a duplicate endpoint leaves the registry unchanged and returns false.
    pub fn register(&mut self, peer: Peer) -> (r: bool)
        requires
            old(self).wf(),
        ensures
            final(self).wf(),
            r == !contains_endpoint(old(self)@, peer.endpoint),
            r ==> final(self)@ == old(self)@.push(peer),
            !r ==> final(self)@ == old(self)@,
    {
        if self.contains(peer.endpoint) {
            false
        } else {
            proof {
                lemma_distinct_push(self@, peer);
            }
            self.peers.push(peer);
            true
        }
    }

    /// Removes the entry registered under `e`, if any; removing an absent
    /// endpoint is a no-op, not an error.
    pub fn deregister(&mut self, e: Endpoint)
        requires
            old(self).wf(),
        ensures
            final(self).wf(),
            final(self)@ == others(old(self)@, e),
            !contains_endpoint(final(self)@, e),
    {
        let kept = self.snapshot_excluding(e);
        proof {
            lemma_others_distinct(self@, e);
            lemma_others_not_excluded(self@, e);
        }
        self.peers = kept;
    }

    /// The recipients of one broadcast round on behalf of `e`: a copy of
    /// every entry whose endpoint differs from `e`, in registration order.
    pub fn snapshot_excluding(&self, e: Endpoint) -> (r: Vec<Peer>)
        ensures
            r@ == others(self@, e),
    {
        let n = self.peers.len();
        let mut out: Vec<Peer> = Vec::new();
        let mut i: usize = 0;
        while i < n
            invariant
                n == self@.len(),
                i <= n,
                out@ == others(self@.take(i as int), e),
            decreases n - i,
        {
            let p = self.peers[i];
            proof {
                assert(self@.take(i + 1).drop_last() =~= self@.take(i as int));
                assert(self@.take(i + 1).last() == self@[i as int]);
            }
            if p.endpoint != e {
                out.push(p);
            }
            i += 1;
        }
        proof {
            assert(self@.take(n as int) =~= self@);
        }
        out
    }
}

proof fn lemma_distinct_push(s: Seq<Peer>, p: Peer)
    requires
        distinct_endpoints(s),
        !contains_endpoint(s, p.endpoint),
    ensures
        distinct_endpoints(s.push(p)),
{
    let out = s.push(p);
    assert forall|i: int, j: int|
        #![trigger out[i], out[j]]
        0 <= i < j < out.len() implies out[i].endpoint != out[j].endpoint by {
        if j < out.len() - 1 {
            assert(out[i] == s[i]);
            assert(out[j] == s[j]);
        } else {
            assert(out[i] == s[i]);
            assert(s[i].endpoint != p.endpoint);
        }
    }
}

/// Nothing kept by an exclusion round carries the excluded endpoint.
pub proof fn lemma_others_not_excluded(s: Seq<Peer>, e: Endpoint)
    ensures
        !contains_endpoint(others(s, e), e),
{
    lemma_others_membership(s, e);
    if contains_endpoint(others(s, e), e) {
        let i = choose|i: int| 0 <= i < others(s, e).len() && others(s, e)[i].endpoint == e;
        assert(others(s, e).contains(others(s, e)[i]));
    }
}

/// Law: after a sequence of registrations and one deregistration of a
/// present endpoint, the table holds exactly one entry fewer, none of them
/// under the removed endpoint, and no other entry is lost.
pub proof fn lemma_deregister_removes_exactly_one(s: Seq<Peer>, e: Endpoint)
    requires
        distinct_endpoints(s),
        contains_endpoint(s, e),
    ensures
        others(s, e).len() == s.len() - 1,
        !contains_endpoint(others(s, e), e),
        forall|p: Peer| #[trigger] others(s, e).contains(p) <==> (s.contains(p) && p.endpoint
            != e),
{
    lemma_others_len(s, e);
    lemma_others_not_excluded(s, e);
    lemma_others_membership(s, e);
}

/// Law: one broadcast round on behalf of a registered sender `a` attempts
/// exactly the other registered peers: one attempt per other entry, never
/// directed at `a`, and no other entry left out.
pub proof fn lemma_broadcast_targets(s: Seq<Peer>, a: Endpoint)
    requires
        distinct_endpoints(s),
        contains_endpoint(s, a),
    ensures
        others(s, a).len() == s.len() - 1,
        forall|i: int| 0 <= i < others(s, a).len() ==> #[trigger] others(s, a)[i].endpoint != a,
        forall|p: Peer| s.contains(p) && p.endpoint != a ==> #[trigger] others(s, a).contains(p),
        distinct_endpoints(others(s, a)),
{
    lemma_others_len(s, a);
    lemma_others_membership(s, a);
    lemma_others_distinct(s, a);
    assert forall|i: int| 0 <= i < others(s, a).len() implies #[trigger] others(s, a)[i].endpoint
        != a by {
        assert(others(s, a).contains(others(s, a)[i]));
    }
}

} // verus!
