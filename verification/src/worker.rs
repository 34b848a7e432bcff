use vstd::prelude::*;

use crate::endpoint::Endpoint;
use crate::frame::{classify_stream_frame, stream_frame_action, StreamAction};

verus! {

/// Lifecycle of one stream fan-out worker. A worker starts `Open` when its
/// connection is accepted, relays frames while `Relaying`, enters `Closing`
/// when it sees the sentinel, an empty read or a read error, and is `Closed`
/// once its endpoint has been deregistered. There is no way back from
/// `Closing` or `Closed` into the relaying loop.
#[derive(PartialEq, Eq, Structural, Clone, Copy, Debug)]
pub enum Phase {
    Open,
    Relaying,
    Closing,
    Closed,
}

/// Whether the worker is still in (or before) its relaying loop.
pub open spec fn is_active(p: Phase) -> bool {
    p is Open || p is Relaying
}

/// One read result at the specification level: the bytes of a frame, or
/// `None` for a read error.
pub open spec fn ev_view(ev: Option<&[u8]>) -> Option<Seq<u8>> {
    match ev {
        Some(f) => Some(f@),
        None => None,
    }
}

/// The action a worker in phase `p` takes on one read result: while active
/// it classifies the frame (a read error closes), and once it has begun
/// closing it ignores everything.
pub open spec fn read_action(p: Phase, ev: Option<Seq<u8>>) -> StreamAction {
    if !is_active(p) {
        StreamAction::Ignore
    } else {
        match ev {
            Some(f) => stream_frame_action(f),
            None => StreamAction::Close,
        }
    }
}

/// The worker's phase after one read result.
pub open spec fn next_phase(p: Phase, ev: Option<Seq<u8>>) -> Phase {
    if !is_active(p) {
        p
    } else if read_action(p, ev) is Close {
        Phase::Closing
    } else {
        Phase::Relaying
    }
}

/// The worker's phase after a whole sequence of read results.
pub open spec fn run_phases(p: Phase, evs: Seq<Option<Seq<u8>>>) -> Phase
    decreases evs.len(),
{
    if evs.len() == 0 {
        p
    } else {
        run_phases(next_phase(p, evs[0]), evs.drop_first())
    }
}

/// Whether any read result of `evs` would be relayed, starting in phase `p`.
pub open spec fn relays_any(p: Phase, evs: Seq<Option<Seq<u8>>>) -> bool
    decreases evs.len(),
{
    if evs.len() == 0 {
        false
    } else {
        read_action(p, evs[0]) is Relay || relays_any(next_phase(p, evs[0]), evs.drop_first())
    }
}

/// The per-connection state of one stream fan-out worker.
pub struct StreamConn {
    /// The remote endpoint this worker reads from and relays on behalf of.
    pub endpoint: Endpoint,
    /// Where the worker stands in its lifecycle.
    pub phase: Phase,
}

impl StreamConn {
    /// A worker for a freshly accepted connection from `endpoint`.
    pub fn new(endpoint: Endpoint) -> (r: StreamConn)
        ensures
            r.endpoint == endpoint,
            r.phase is Open,
    {
        StreamConn { endpoint, phase: Phase::Open }
    }

    /// Feeds one read result (a frame, or `None` for a read error) to the
    /// worker and returns the action to take: relay the frame verbatim,
    /// drop it, or leave the relaying loop and close.
    pub fn on_read(&mut self, ev: Option<&[u8]>) -> (a: StreamAction)
        ensures
            a == read_action(old(self).phase, ev_view(ev)),
            final(self).phase == next_phase(old(self).phase, ev_view(ev)),
            final(self).endpoint == old(self).endpoint,
    {
        let active = matches!(self.phase, Phase::Open | Phase::Relaying);
        if !active {
            return StreamAction::Ignore;
        }
        let act = match ev {
            Some(f) => classify_stream_frame(f),
            None => StreamAction::Close,
        };
        match act {
            StreamAction::Close => {
                self.phase = Phase::Closing;
            },
            _ => {
                self.phase = Phase::Relaying;
            },
        }
        act
    }

    /// Whether the worker has left its relaying loop and must now close the
    /// connection and deregister.
    pub fn is_closing(&self) -> (r: bool)
        ensures
            r == (self.phase is Closing),
    {
        matches!(self.phase, Phase::Closing)
    }
}

/// Law: the sentinel ends relaying. A worker still in its relaying loop that
/// reads the sentinel relays nothing for it and begins closing, and from
/// then on no sequence of further read results — whatever bytes still arrive
/// before the socket fully closes — is ever relayed on its behalf.
pub proof fn lemma_sentinel_stops_relaying(p: Phase, f: Seq<u8>, evs: Seq<Option<Seq<u8>>>)
    requires
        is_active(p),
        crate::frame::is_sentinel(f),
    ensures
        read_action(p, Some(f)) is Close,
        next_phase(p, Some(f)) is Closing,
        !relays_any(next_phase(p, Some(f)), evs),
{
    lemma_no_relay_after_closing(Phase::Closing, evs);
}

/// Law: once a stream worker has begun closing, no later read result is
/// relayed on its behalf — whatever bytes still arrive before the socket
/// fully closes, the worker never re-enters its relaying loop and never
/// answers Relay again.
pub proof fn lemma_no_relay_after_closing(p: Phase, evs: Seq<Option<Seq<u8>>>)
    requires
        !is_active(p),
    ensures
        run_phases(p, evs) == p,
        !relays_any(p, evs),
    decreases evs.len(),
{
    if evs.len() > 0 {
        lemma_no_relay_after_closing(p, evs.drop_first());
    }
}

} // verus!
