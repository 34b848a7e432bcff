use vstd::prelude::*;

use crate::endpoint::Peer;
use crate::registry::{distinct_endpoints, lemma_contains_drop_last, lemma_distinct_drop_last};

verus! {

/// The recipients that received the frame in one broadcast round: the
/// targets whose own write attempt succeeded, in attempt order.
pub open spec fn delivered_of(targets: Seq<Peer>, outcomes: Seq<bool>) -> Seq<Peer>
    recommends
        targets.len() == outcomes.len(),
    decreases targets.len(),
{
    if targets.len() == 0 || outcomes.len() != targets.len() {
        Seq::empty()
    } else if outcomes.last() {
        delivered_of(targets.drop_last(), outcomes.drop_last()).push(targets.last())
    } else {
        delivered_of(targets.drop_last(), outcomes.drop_last())
    }
}

/// The recipients whose write attempt failed in one broadcast round, in
/// attempt order. They are skipped for this frame only and stay registered.
pub open spec fn failed_of(targets: Seq<Peer>, outcomes: Seq<bool>) -> Seq<Peer>
    recommends
        targets.len() == outcomes.len(),
    decreases targets.len(),
{
    if targets.len() == 0 || outcomes.len() != targets.len() {
        Seq::empty()
    } else if !outcomes.last() {
        failed_of(targets.drop_last(), outcomes.drop_last()).push(targets.last())
    } else {
        failed_of(targets.drop_last(), outcomes.drop_last())
    }
}

/// Everything delivered was a target of the round.
proof fn lemma_delivered_subset(targets: Seq<Peer>, outcomes: Seq<bool>)
    ensures
        forall|p: Peer| #[trigger] delivered_of(targets, outcomes).contains(p) ==> targets.contains(
            p,
        ),
    decreases targets.len(),
{
    if targets.len() > 0 && outcomes.len() == targets.len() {
        let t0 = targets.drop_last();
        let o0 = outcomes.drop_last();
        lemma_delivered_subset(t0, o0);
        assert forall|p: Peer| #[trigger] delivered_of(targets, outcomes).contains(
            p,
        ) implies targets.contains(p) by {
            if outcomes.last() {
                lemma_contains_drop_last(delivered_of(t0, o0).push(targets.last()), p);
                assert(delivered_of(t0, o0).push(targets.last()).drop_last() =~= delivered_of(
                    t0,
                    o0,
                ));
            }
            if delivered_of(t0, o0).contains(p) || p == targets.last() {
                lemma_contains_drop_last(targets, p);
            }
        }
    }
}

/// When every write succeeds, every target is delivered, in order.
proof fn lemma_all_ok_delivers_all(targets: Seq<Peer>, outcomes: Seq<bool>)
    requires
        outcomes.len() == targets.len(),
        forall|i: int| 0 <= i < outcomes.len() ==> outcomes[i],
    ensures
        delivered_of(targets, outcomes) == targets,
    decreases targets.len(),
{
    if targets.len() > 0 {
        lemma_all_ok_delivers_all(targets.drop_last(), outcomes.drop_last());
        assert(outcomes.last());
        assert(delivered_of(targets, outcomes) =~= targets);
    }
}

/// Law: whether a recipient receives the frame depends on its own write
/// outcome alone — never on the outcome of a write to any other recipient.
pub proof fn lemma_delivery_pointwise(targets: Seq<Peer>, outcomes: Seq<bool>, i: int)
    requires
        distinct_endpoints(targets),
        outcomes.len() == targets.len(),
        0 <= i < targets.len(),
    ensures
        delivered_of(targets, outcomes).contains(targets[i]) <==> outcomes[i],
    decreases targets.len(),
{
    let t0 = targets.drop_last();
    let o0 = outcomes.drop_last();
    let last = targets.last();
    lemma_distinct_drop_last(targets);
    lemma_delivered_subset(t0, o0);
    if i == targets.len() - 1 {
        if outcomes.last() {
            let d = delivered_of(t0, o0).push(last);
            assert(d[d.len() - 1] == last);
            assert(d.contains(last));
        } else {
            if delivered_of(t0, o0).contains(last) {
                let k = choose|k: int| 0 <= k < t0.len() && t0[k] == last;
                assert(targets[k] == last);
                assert(targets[k].endpoint != targets[targets.len() - 1].endpoint);
            }
        }
    } else {
        lemma_delivery_pointwise(t0, o0, i);
        assert(t0[i] == targets[i]);
        assert(o0[i] == outcomes[i]);
        if outcomes.last() {
            lemma_contains_drop_last(delivered_of(t0, o0).push(last), targets[i]);
            assert(delivered_of(t0, o0).push(last).drop_last() =~= delivered_of(t0, o0));
            assert(targets[i].endpoint != targets[targets.len() - 1].endpoint);
        }
    }
}

/// How many recipients receive the frame when exactly one write fails.
proof fn lemma_one_failure_len(targets: Seq<Peer>, outcomes: Seq<bool>, k: int)
    requires
        outcomes.len() == targets.len(),
        0 <= k < targets.len(),
        !outcomes[k],
        forall|i: int| 0 <= i < outcomes.len() && i != k ==> outcomes[i],
    ensures
        delivered_of(targets, outcomes).len() == targets.len() - 1,
    decreases targets.len(),
{
    let t0 = targets.drop_last();
    let o0 = outcomes.drop_last();
    if k == targets.len() - 1 {
        assert(!outcomes.last());
        lemma_all_ok_delivers_all(t0, o0);
    } else {
        assert(outcomes.last());
        lemma_one_failure_len(t0, o0, k);
    }
}

/// Law: a failed write to one recipient is isolated. With every other write
/// succeeding, each remaining recipient still receives the frame, the failed
/// one does not, and exactly one delivery is missing from the round.
pub proof fn lemma_failure_isolation(targets: Seq<Peer>, outcomes: Seq<bool>, k: int)
    requires
        distinct_endpoints(targets),
        outcomes.len() == targets.len(),
        0 <= k < targets.len(),
        !outcomes[k],
        forall|i: int| 0 <= i < outcomes.len() && i != k ==> outcomes[i],
    ensures
        forall|i: int|
            0 <= i < targets.len() && i != k ==> delivered_of(targets, outcomes).contains(
                targets[i],
            ),
        !delivered_of(targets, outcomes).contains(targets[k]),
        delivered_of(targets, outcomes).len() == targets.len() - 1,
{
    assert forall|i: int| 0 <= i < targets.len() && i != k implies delivered_of(
        targets,
        outcomes,
    ).contains(targets[i]) by {
        lemma_delivery_pointwise(targets, outcomes, i);
    }
    lemma_delivery_pointwise(targets, outcomes, k);
    lemma_one_failure_len(targets, outcomes, k);
}

/// One broadcast round in progress: the fixed target snapshot, how far the
/// round has come, and which targets received or missed the frame so far.
pub struct BroadcastRound {
    targets: Vec<Peer>,
    next: usize,
    delivered: Vec<Peer>,
    failed: Vec<Peer>,
    outcomes: Ghost<Seq<bool>>,
}

impl BroadcastRound {
    /// The fixed recipients of this round, in attempt order.
    pub closed spec fn targets(&self) -> Seq<Peer> {
        self.targets@
    }

    /// How many write attempts have been recorded.
    pub closed spec fn attempted(&self) -> nat {
        self.next as nat
    }

    /// The recorded outcome of each attempt so far.
    pub closed spec fn outcomes(&self) -> Seq<bool> {
        self.outcomes@
    }

    /// The targets delivered so far, in attempt order.
    pub closed spec fn delivered(&self) -> Seq<Peer> {
        self.delivered@
    }

    /// The targets whose write failed so far, in attempt order.
    pub closed spec fn failed(&self) -> Seq<Peer> {
        self.failed@
    }

    /// The round's bookkeeping is exactly the outcome record: what was
    /// delivered (and what failed) is determined by the attempts made.
    pub open spec fn wf(&self) -> bool {
        &&& self.attempted() <= self.targets().len()
        &&& self.outcomes().len() == self.attempted()
        &&& self.delivered() == delivered_of(
            self.targets().take(self.attempted() as int),
            self.outcomes(),
        )
        &&& self.failed() == failed_of(
            self.targets().take(self.attempted() as int),
            self.outcomes(),
        )
    }

    /// Starts a broadcast round over the given target snapshot.
    pub fn new(targets: Vec<Peer>) -> (r: BroadcastRound)
        ensures
            r.wf(),
            r.targets() == targets@,
            r.attempted() == 0,
            r.outcomes() == Seq::<bool>::empty(),
            r.delivered() == Seq::<Peer>::empty(),
            r.failed() == Seq::<Peer>::empty(),
    {
        let r = BroadcastRound {
            targets,
            next: 0,
            delivered: Vec::new(),
            failed: Vec::new(),
            outcomes: Ghost(Seq::empty()),
        };
        proof {
            assert(r.targets().take(0) =~= Seq::<Peer>::empty());
        }
        r
    }

    /// The target of the next write attempt, or `None` once every target has
    /// been attempted.
    pub fn next_target(&self) -> (r: Option<Peer>)
        requires
            self.wf(),
        ensures
            r matches Some(p) ==> self.attempted() < self.targets().len() && p
                == self.targets()[self.attempted() as int],
            r is None <==> self.attempted() == self.targets().len(),
    {
        if self.next < self.targets.len() {
            Some(self.targets[self.next])
        } else {
            None
        }
    }

    /// Records the outcome of the write to the current target and moves on.
    /// A failure is recorded and skipped: it changes neither the remaining
    /// schedule nor what was already delivered to the others.
    pub fn record(&mut self, ok: bool)
        requires
            old(self).wf(),
            old(self).attempted() < old(self).targets().len(),
        ensures
            final(self).wf(),
            final(self).targets() == old(self).targets(),
            final(self).attempted() == old(self).attempted() + 1,
            final(self).outcomes() == old(self).outcomes().push(ok),
            ok ==> final(self).delivered() == old(self).delivered().push(
                old(self).targets()[old(self).attempted() as int],
            ) && final(self).failed() == old(self).failed(),
            !ok ==> final(self).failed() == old(self).failed().push(
                old(self).targets()[old(self).attempted() as int],
            ) && final(self).delivered() == old(self).delivered(),
    {
        let n = self.targets.len();
        let p = self.targets[self.next];
        if ok {
            self.delivered.push(p);
        } else {
            self.failed.push(p);
        }
        assert(self.next < n);
        self.next += 1;
        proof {
            self.outcomes@ = self.outcomes@.push(ok);
            let t1 = self.targets@.take(self.next as int);
            assert(t1.drop_last() =~= self.targets@.take(self.next - 1));
            assert(t1.last() == self.targets@[self.next - 1]);
            assert(self.outcomes@.drop_last() =~= old(self).outcomes());
        }
    }

    /// Whether every target of the round has been attempted.
    pub fn is_done(&self) -> (r: bool)
        ensures
            r == (self.attempted() == self.targets().len()),
    {
        self.next == self.targets.len()
    }

    /// The targets delivered so far, in attempt order.
    pub fn delivered_peers(&self) -> (r: &Vec<Peer>)
        ensures
            r@ == self.delivered(),
    {
        &self.delivered
    }

    /// The targets whose write failed so far, in attempt order.
    pub fn failed_peers(&self) -> (r: &Vec<Peer>)
        ensures
            r@ == self.failed(),
    {
        &self.failed
    }
}

} // verus!
