//! Core of a two-transport text relay hub: a registry of live stream peers,
//! the per-connection fan-out state machine, the datagram fan-out rules, and
//! the hub lifecycle (accept, shutdown, join). Frames are forwarded verbatim;
//! the envelope codec and the clock are reached through narrow trusted calls.

pub mod broadcast;
pub mod clock;
pub mod commands;
pub mod endpoint;
pub mod envelope;
pub mod frame;
pub mod hub;
pub mod registry;
pub mod worker;
