//! A gateway library that exposes a Spotify-Connect playback engine as a
//! remote-controllable streaming service: a typed command protocol, a device
//! registry, a paced audio-chunking adapter, and an event-forwarding path.
use vstd::prelude::*;

pub mod client;
pub mod commands;
pub mod dispatch;
pub mod events;
pub mod outbound;
pub mod registry;
pub mod server;
pub mod sink;

verus! {

/// Version tag carried in the acknowledgment sent when a connection opens.
pub const PROTOCOL_VERSION: &'static str = "0.1.1";

} // verus!
