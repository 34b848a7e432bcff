use vstd::prelude::*;

use crate::broadcast::BroadcastRound;
use crate::endpoint::{Endpoint, Peer};
use crate::frame::{classify_datagram, datagram_frame_action, DatagramAction, StreamAction};
use crate::registry::{
    contains_endpoint, distinct_endpoints, lemma_others_membership, others, Registry,
};
use crate::worker::{ev_view, next_phase, read_action, Phase, StreamConn};

verus! {

/// The hub state as specifications see it: who is registered, whether the
/// shutdown flag is set, and how many fan-out workers are still running.
pub ghost struct HubModel {
    pub peers: Seq<Peer>,
    pub shutdown: bool,
    pub running: nat,
}

impl HubModel {
    /// Endpoint uniqueness, inherited from the registry.
    pub open spec fn wf(self) -> bool {
        distinct_endpoints(self.peers)
    }
}

/// One lifecycle event the hub reacts to.
pub enum HubEvent {
    /// A stream connection was accepted; its peer is to be registered and a
    /// worker spawned for it.
    Accept(Peer),
    /// The single datagram fan-out worker is started.
    StartDatagram,
    /// A stream worker finished: its connection was closed and its endpoint
    /// deregistered.
    ConnClosed(Endpoint),
    /// The datagram fan-out worker stopped after a receive error.
    DatagramStopped,
    /// The external operator signal flipped the shutdown flag.
    SetShutdown,
}

/// How one lifecycle event changes the hub state. Under a set shutdown flag
/// nothing new is accepted or started; workers may still finish, and the
/// flag itself is never cleared.
pub open spec fn hub_step(m: HubModel, ev: HubEvent) -> HubModel {
    match ev {
        HubEvent::Accept(p) => if !m.shutdown && !contains_endpoint(m.peers, p.endpoint) {
            HubModel { peers: m.peers.push(p), shutdown: m.shutdown, running: m.running + 1 }
        } else {
            m
        },
        HubEvent::StartDatagram => if !m.shutdown {
            HubModel { peers: m.peers, shutdown: m.shutdown, running: m.running + 1 }
        } else {
            m
        },
        HubEvent::ConnClosed(e) => HubModel {
            peers: others(m.peers, e),
            shutdown: m.shutdown,
            running: if m.running > 0 {
                (m.running - 1) as nat
            } else {
                0
            },
        },
        HubEvent::DatagramStopped => HubModel {
            peers: m.peers,
            shutdown: m.shutdown,
            running: if m.running > 0 {
                (m.running - 1) as nat
            } else {
                0
            },
        },
        HubEvent::SetShutdown => HubModel {
            peers: m.peers,
            shutdown: true,
            running: m.running,
        },
    }
}

/// The hub state after a whole sequence of lifecycle events.
pub open spec fn hub_run(m: HubModel, evs: Seq<HubEvent>) -> HubModel
    decreases evs.len(),
{
    if evs.len() == 0 {
        m
    } else {
        hub_run(hub_step(m, evs[0]), evs.drop_first())
    }
}

/// What an accept attempt did.
#[derive(PartialEq, Eq, Structural, Clone, Copy, Debug)]
pub enum AcceptOutcome {
    /// The peer was registered and a worker is to be spawned for it.
    Accepted,
    /// The shutdown flag is set; nothing was registered.
    Refused,
    /// The endpoint is already registered — a logic error of the transport
    /// layer; nothing was changed.
    Duplicate,
}

/// The hub lifecycle controller: owns the registry of live stream peers,
/// the shutdown flag and the count of running fan-out workers.
pub struct Hub {
    registry: Registry,
    shutdown: bool,
    running: usize,
}

impl View for Hub {
    type V = HubModel;

    closed spec fn view(&self) -> HubModel {
        HubModel {
            peers: self.registry@,
            shutdown: self.shutdown,
            running: self.running as nat,
        }
    }
}

impl Hub {
    /// A hub with no peers, no workers and the shutdown flag clear.
    pub fn new() -> (r: Hub)
        ensures
            r@.peers == Seq::<Peer>::empty(),
            !r@.shutdown,
            r@.running == 0,
            r@.wf(),
    {
        Hub { registry: Registry::new(), shutdown: false, running: 0 }
    }

    /// Reacts to one accepted stream connection: registers the peer and
    /// accounts for its worker — unless the shutdown flag is set (nothing is
    /// accepted any more) or the endpoint is already present (a transport
    /// layer logic error; the registry is left unchanged).
    pub fn try_accept(&mut self, peer: Peer) -> (r: AcceptOutcome)
        requires
            old(self)@.wf(),
            old(self)@.running < usize::MAX,
        ensures
            final(self)@.wf(),
            final(self)@ == hub_step(old(self)@, HubEvent::Accept(peer)),
            r is Accepted <==> (!old(self)@.shutdown && !contains_endpoint(
                old(self)@.peers,
                peer.endpoint,
            )),
            r is Refused <==> old(self)@.shutdown,
            r is Duplicate <==> (!old(self)@.shutdown && contains_endpoint(
                old(self)@.peers,
                peer.endpoint,
            )),
    {
        if self.shutdown {
            AcceptOutcome::Refused
        } else if self.registry.register(peer) {
            self.running += 1;
            AcceptOutcome::Accepted
        } else {
            AcceptOutcome::Duplicate
        }
    }

    /// Accounts for the datagram fan-out worker, started once at startup;
    /// refused only if shutdown has already been signalled.
    pub fn start_datagram_worker(&mut self) -> (r: bool)
        requires
            old(self)@.running < usize::MAX,
        ensures
            final(self)@ == hub_step(old(self)@, HubEvent::StartDatagram),
            r == !old(self)@.shutdown,
    {
        if self.shutdown {
            false
        } else {
            self.running += 1;
            true
        }
    }

    /// The recipients of one broadcast round on behalf of `e`: a consistent
    /// copy of every registered peer whose endpoint differs from `e`.
    pub fn snapshot_excluding(&self, e: Endpoint) -> (r: Vec<Peer>)
        ensures
            r@ == others(self@.peers, e),
    {
        self.registry.snapshot_excluding(e)
    }

    /// Starts one broadcast round on behalf of `sender`: the round's targets
    /// are a consistent snapshot of every other registered peer, taken once
    /// for this frame.
    pub fn begin_broadcast(&self, sender: Endpoint) -> (r: BroadcastRound)
        ensures
            r.wf(),
            r.targets() == others(self@.peers, sender),
            r.attempted() == 0,
    {
        BroadcastRound::new(self.registry.snapshot_excluding(sender))
    }

    /// One stream worker step at hub level: feeds the read result to the
    /// worker and opens a broadcast round exactly when the frame is to be
    /// relayed — a short frame or a sentinel can never start one.
    pub fn handle_stream_read(&self, conn: &mut StreamConn, ev: Option<&[u8]>) -> (r: (
        StreamAction,
        Option<BroadcastRound>,
    ))
        ensures
            r.0 == read_action(old(conn).phase, ev_view(ev)),
            final(conn).phase == next_phase(old(conn).phase, ev_view(ev)),
            final(conn).endpoint == old(conn).endpoint,
            r.1 is Some <==> r.0 is Relay,
            r.1 matches Some(b) ==> b.wf() && b.targets() == others(
                self@.peers,
                old(conn).endpoint,
            ) && b.attempted() == 0,
    {
        let act = conn.on_read(ev);
        match act {
            StreamAction::Relay => (act, Some(self.begin_broadcast(conn.endpoint))),
            _ => (act, None),
        }
    }

    /// One datagram worker step at hub level: opens a broadcast round
    /// exactly when the datagram is to be forwarded. Short datagrams — the
    /// sentinel included — are dropped, and never stop this worker.
    pub fn handle_datagram(&self, sender: Endpoint, f: &[u8]) -> (r: Option<BroadcastRound>)
        ensures
            r is Some <==> datagram_frame_action(f@) is Forward,
            r matches Some(b) ==> b.wf() && b.targets() == others(self@.peers, sender)
                && b.attempted() == 0,
    {
        match classify_datagram(f) {
            DatagramAction::Forward => Some(self.begin_broadcast(sender)),
            DatagramAction::Ignore => None,
        }
    }

    /// Whether some peer is registered under endpoint `e`.
    pub fn contains(&self, e: Endpoint) -> (r: bool)
        ensures
            r == contains_endpoint(self@.peers, e),
    {
        self.registry.contains(e)
    }

    /// How many peers are currently registered.
    pub fn peer_count(&self) -> (r: usize)
        ensures
            r == self@.peers.len(),
    {
        self.registry.len()
    }

    /// Finishes one stream worker, exactly once: the worker must have left
    /// its relaying loop (its connection already closed by the caller); its
    /// endpoint leaves the registry and its worker leaves the running count.
    pub fn connection_closed(&mut self, conn: &mut StreamConn)
        requires
            old(self)@.wf(),
            old(conn).phase is Closing,
        ensures
            final(self)@.wf(),
            final(self)@ == hub_step(old(self)@, HubEvent::ConnClosed(old(conn).endpoint)),
            !contains_endpoint(final(self)@.peers, old(conn).endpoint),
            final(conn).phase is Closed,
            final(conn).endpoint == old(conn).endpoint,
    {
        self.registry.deregister(conn.endpoint);
        if self.running > 0 {
            self.running -= 1;
        }
        conn.phase = Phase::Closed;
    }

    /// Accounts for the datagram fan-out worker stopping after a receive
    /// error. Stream relaying continues; only the running count drops.
    pub fn datagram_worker_stopped(&mut self)
        requires
            old(self)@.wf(),
        ensures
            final(self)@.wf(),
            final(self)@ == hub_step(old(self)@, HubEvent::DatagramStopped),
    {
        if self.running > 0 {
            self.running -= 1;
        }
    }

    /// The external operator signal: stop accepting new connections. Running
    /// workers are unaffected and drain naturally.
    pub fn set_shutdown(&mut self)
        ensures
            final(self)@ == hub_step(old(self)@, HubEvent::SetShutdown),
    {
        self.shutdown = true;
    }

    /// Whether the accept loop may take another connection.
    pub fn accepting(&self) -> (r: bool)
        ensures
            r == !self@.shutdown,
    {
        !self.shutdown
    }

    /// How many fan-out workers are currently accounted as running.
    pub fn worker_count(&self) -> (r: usize)
        ensures
            r == self@.running,
    {
        self.running
    }

    /// Whether the lifecycle join may complete: true exactly when every
    /// spawned worker has exited.
    pub fn join_done(&self) -> (r: bool)
        ensures
            r == (self@.running == 0),
    {
        self.running == 0
    }
}

/// Law: shutdown sequencing. From any state with the shutdown flag set,
/// whatever lifecycle events still occur: the flag stays set; no new peer
/// enters the registry (every peer registered afterwards was registered
/// before); the running count never grows; and the lifecycle join, which
/// completes exactly when the running count reaches zero, therefore waits
/// for every worker that was still running.
pub proof fn lemma_shutdown_sequencing(m: HubModel, evs: Seq<HubEvent>)
    requires
        m.shutdown,
    ensures
        hub_run(m, evs).shutdown,
        hub_run(m, evs).running <= m.running,
        forall|p: Peer| #[trigger] hub_run(m, evs).peers.contains(p) ==> m.peers.contains(p),
    decreases evs.len(),
{
    if evs.len() > 0 {
        let m1 = hub_step(m, evs[0]);
        assert(m1.shutdown);
        assert(m1.running <= m.running);
        assert forall|p: Peer| #[trigger] m1.peers.contains(p) implies m.peers.contains(p) by {
            match evs[0] {
                HubEvent::ConnClosed(e) => {
                    lemma_others_membership(m.peers, e);
                },
                _ => {},
            }
        }
        lemma_shutdown_sequencing(m1, evs.drop_first());
    }
}

/// Law: setting the shutdown flag does not stop the workers already
/// running — a worker exit still takes effect and lowers the running count,
/// so the drain to zero is never blocked by the flag.
pub proof fn lemma_workers_drain_under_shutdown(m: HubModel, e: Endpoint)
    requires
        m.shutdown,
        m.running > 0,
    ensures
        hub_step(m, HubEvent::ConnClosed(e)).running == m.running - 1,
        hub_step(m, HubEvent::DatagramStopped).running == m.running - 1,
{
}

} // verus!
