use vstd::prelude::*;
use vstd::slice::slice_index_get;

verus! {

/// Largest frame either transport carries in one read.
pub const MAX_FRAME_LEN: usize = 1024;

/// Frames of this length or shorter are protocol noise or a control
/// sentinel; they are never forwarded to any recipient.
pub const NOISE_LIMIT: usize = 3;

/// The voluntary-disconnect sentinel: the exact 3-byte frame `end`.
pub open spec fn is_sentinel(f: Seq<u8>) -> bool {
    f.len() == 3 && f[0] == 101u8 && f[1] == 110u8 && f[2] == 100u8
}

/// What the stream fan-out worker does with one frame read from its peer.
#[derive(PartialEq, Eq, Structural, Clone, Copy, Debug)]
pub enum StreamAction {
    /// Forward the frame verbatim to every other registered peer.
    Relay,
    /// Drop the frame and keep reading (noise / keepalive).
    Ignore,
    /// Stop relaying, close the connection and deregister.
    Close,
}

/// What the datagram fan-out worker does with one received datagram.
#[derive(PartialEq, Eq, Structural, Clone, Copy, Debug)]
pub enum DatagramAction {
    /// Send the datagram verbatim to every other registered peer's endpoint.
    Forward,
    /// Drop the datagram and keep receiving. A datagram sentinel is a
    /// best-effort notice from one sender; the shared socket keeps relaying
    /// for everyone, so short datagrams never stop this worker.
    Ignore,
}

/// What a participant-side receiver does with one read result.
#[derive(PartialEq, Eq, Structural, Clone, Copy, Debug)]
pub enum ClientAction {
    /// Decode and display the received payload.
    Show,
    /// Stop receiving (closed connection, sentinel echo or noise).
    Stop,
}

/// Stream-side classification of one frame: payloads are relayed; the
/// sentinel and an empty read (the peer closed) end the worker; any other
/// short frame is noise and is dropped without ending the connection.
pub open spec fn stream_frame_action(f: Seq<u8>) -> StreamAction {
    if f.len() > NOISE_LIMIT {
        StreamAction::Relay
    } else if is_sentinel(f) || f.len() == 0 {
        StreamAction::Close
    } else {
        StreamAction::Ignore
    }
}

/// Datagram-side classification of one datagram: payloads are forwarded,
/// everything short — the sentinel included — is dropped.
pub open spec fn datagram_frame_action(f: Seq<u8>) -> DatagramAction {
    if f.len() > NOISE_LIMIT {
        DatagramAction::Forward
    } else {
        DatagramAction::Ignore
    }
}

/// Participant-side classification of one received payload.
pub open spec fn client_frame_action(f: Seq<u8>) -> ClientAction {
    if f.len() > NOISE_LIMIT {
        ClientAction::Show
    } else {
        ClientAction::Stop
    }
}

/// The voluntary-disconnect sentinel as a frame to send.
pub fn sentinel_frame() -> (r: Vec<u8>)
    ensures
        is_sentinel(r@),
        r@.len() == 3,
{
    let r: Vec<u8> = vec![101, 110, 100];
    r
}

/// Whether `f` is exactly the voluntary-disconnect sentinel.
pub fn frame_is_sentinel(f: &[u8]) -> (r: bool)
    ensures
        r == is_sentinel(f@),
{
    f.len() == 3 && *slice_index_get(f, 0) == 101 && *slice_index_get(f, 1) == 110
        && *slice_index_get(f, 2) == 100
}

/// Classifies one frame read from a stream peer.
pub fn classify_stream_frame(f: &[u8]) -> (r: StreamAction)
    ensures
        r == stream_frame_action(f@),
{
    if f.len() > NOISE_LIMIT {
        StreamAction::Relay
    } else if frame_is_sentinel(f) || f.len() == 0 {
        StreamAction::Close
    } else {
        StreamAction::Ignore
    }
}

/// Classifies one datagram received on the shared socket.
pub fn classify_datagram(f: &[u8]) -> (r: DatagramAction)
    ensures
        r == datagram_frame_action(f@),
{
    if f.len() > NOISE_LIMIT {
        DatagramAction::Forward
    } else {
        DatagramAction::Ignore
    }
}

/// Classifies one payload received by a participant on either transport.
pub fn classify_client_frame(f: &[u8]) -> (r: ClientAction)
    ensures
        r == client_frame_action(f@),
{
    if f.len() > NOISE_LIMIT {
        ClientAction::Show
    } else {
        ClientAction::Stop
    }
}

/// Law: a frame of length at most 3 never triggers a write attempt on
/// either transport — the stream worker never answers Relay for it and the
/// datagram worker never answers Forward.
pub proof fn lemma_short_frames_never_forwarded(f: Seq<u8>)
    requires
        f.len() <= 3,
    ensures
        stream_frame_action(f) != StreamAction::Relay,
        datagram_frame_action(f) != DatagramAction::Forward,
{
}

} // verus!
