//! The event-forwarding path: turns the playback engine's asynchronous
//! player events and sink-status callbacks into outbound wire messages for
//! the owning device.
//!
//! The embedding program drains the engine's event source in a background
//! task per session and hands each event in here, already shaped as a
//! [`PlayerEvent`]; event kinds beyond the five with a defined payload arrive
//! as [`PlayerEvent::Other`] carrying the engine's description of them.
use vstd::prelude::*;

use crate::outbound::{DetailsView, OutboundMessage, OutboundView, PlayerEventDetails};

verus! {

/// One asynchronous playback-engine event, as the verified core sees it.
#[derive(Clone, Debug, PartialEq)]
pub enum PlayerEvent {
    Playing { play_request_id: u64, track_id: String, position_ms: u32 },
    Paused { play_request_id: u64, track_id: String, position_ms: u32 },
    Stopped { play_request_id: u64, track_id: String },
    Loading { play_request_id: u64, track_id: String, position_ms: u32 },
    EndOfTrack { play_request_id: u64, track_id: String },
    /// Any event kind without a defined payload; carries the engine's
    /// description of it.
    Other { description: String },
}

/// Mathematical image of [`PlayerEvent`].
pub enum PlayerEventView {
    Playing { play_request_id: u64, track_id: Seq<char>, position_ms: u32 },
    Paused { play_request_id: u64, track_id: Seq<char>, position_ms: u32 },
    Stopped { play_request_id: u64, track_id: Seq<char> },
    Loading { play_request_id: u64, track_id: Seq<char>, position_ms: u32 },
    EndOfTrack { play_request_id: u64, track_id: Seq<char> },
    Other { description: Seq<char> },
}

impl View for PlayerEvent {
    type V = PlayerEventView;

    open spec fn view(&self) -> PlayerEventView {
        match self {
            PlayerEvent::Playing { play_request_id, track_id, position_ms } => {
                PlayerEventView::Playing {
                    play_request_id: *play_request_id,
                    track_id: track_id@,
                    position_ms: *position_ms,
                }
            },
            PlayerEvent::Paused { play_request_id, track_id, position_ms } => {
                PlayerEventView::Paused {
                    play_request_id: *play_request_id,
                    track_id: track_id@,
                    position_ms: *position_ms,
                }
            },
            PlayerEvent::Stopped { play_request_id, track_id } => PlayerEventView::Stopped {
                play_request_id: *play_request_id,
                track_id: track_id@,
            },
            PlayerEvent::Loading { play_request_id, track_id, position_ms } => {
                PlayerEventView::Loading {
                    play_request_id: *play_request_id,
                    track_id: track_id@,
                    position_ms: *position_ms,
                }
            },
            PlayerEvent::EndOfTrack { play_request_id, track_id } => PlayerEventView::EndOfTrack {
                play_request_id: *play_request_id,
                track_id: track_id@,
            },
            PlayerEvent::Other { description } => PlayerEventView::Other {
                description: description@,
            },
        }
    }
}

/// The type tag each event kind carries on the wire.
pub open spec fn spec_event_type(e: PlayerEventView) -> Seq<char> {
    match e {
        PlayerEventView::Playing { .. } => "Playing"@,
        PlayerEventView::Paused { .. } => "Paused"@,
        PlayerEventView::Stopped { .. } => "Stopped"@,
        PlayerEventView::Loading { .. } => "Loading"@,
        PlayerEventView::EndOfTrack { .. } => "EndOfTrack"@,
        PlayerEventView::Other { description } => description,
    }
}

/// The detail fields each event kind carries on the wire: request id, track
/// identifier, and position where the kind reports one; nothing for kinds
/// without a defined payload.
pub open spec fn spec_event_details(e: PlayerEventView) -> Option<DetailsView> {
    match e {
        PlayerEventView::Playing { play_request_id, track_id, position_ms } => Some(
            DetailsView { play_request_id, track_id, position_ms: Some(position_ms) },
        ),
        PlayerEventView::Paused { play_request_id, track_id, position_ms } => Some(
            DetailsView { play_request_id, track_id, position_ms: Some(position_ms) },
        ),
        PlayerEventView::Stopped { play_request_id, track_id } => Some(
            DetailsView { play_request_id, track_id, position_ms: None },
        ),
        PlayerEventView::Loading { play_request_id, track_id, position_ms } => Some(
            DetailsView { play_request_id, track_id, position_ms: Some(position_ms) },
        ),
        PlayerEventView::EndOfTrack { play_request_id, track_id } => Some(
            DetailsView { play_request_id, track_id, position_ms: None },
        ),
        PlayerEventView::Other { .. } => None,
    }
}

/// Produces the one outbound player-event message for one engine event, with
/// the owning device's identifier, the event's type tag, and its details.
pub fn forward_player_event(device_id: &str, event: PlayerEvent) -> (r: OutboundMessage)
    ensures
        r@ == (OutboundView::PlayerEvent {
            device_id: device_id@,
            event_type: spec_event_type(event@),
            details: spec_event_details(event@),
        }),
{
    match event {
        PlayerEvent::Playing { play_request_id, track_id, position_ms } => {
            OutboundMessage::PlayerEvent {
                device_id: String::from_str(device_id),
                event_type: String::from_str("Playing"),
                details: Some(
                    PlayerEventDetails {
                        play_request_id,
                        track_id,
                        position_ms: Some(position_ms),
                    },
                ),
            }
        },
        PlayerEvent::Paused { play_request_id, track_id, position_ms } => {
            OutboundMessage::PlayerEvent {
                device_id: String::from_str(device_id),
                event_type: String::from_str("Paused"),
                details: Some(
                    PlayerEventDetails {
                        play_request_id,
                        track_id,
                        position_ms: Some(position_ms),
                    },
                ),
            }
        },
        PlayerEvent::Stopped { play_request_id, track_id } => OutboundMessage::PlayerEvent {
            device_id: String::from_str(device_id),
            event_type: String::from_str("Stopped"),
            details: Some(PlayerEventDetails { play_request_id, track_id, position_ms: None }),
        },
        PlayerEvent::Loading { play_request_id, track_id, position_ms } => {
            OutboundMessage::PlayerEvent {
                device_id: String::from_str(device_id),
                event_type: String::from_str("Loading"),
                details: Some(
                    PlayerEventDetails {
                        play_request_id,
                        track_id,
                        position_ms: Some(position_ms),
                    },
                ),
            }
        },
        PlayerEvent::EndOfTrack { play_request_id, track_id } => OutboundMessage::PlayerEvent {
            device_id: String::from_str(device_id),
            event_type: String::from_str("EndOfTrack"),
            details: Some(PlayerEventDetails { play_request_id, track_id, position_ms: None }),
        },
        PlayerEvent::Other { description } => OutboundMessage::PlayerEvent {
            device_id: String::from_str(device_id),
            event_type: description,
            details: None,
        },
    }
}

/// One status transition of a device's audio sink, reported by the engine
/// independently of the event source.
#[derive(Clone, Copy, Debug, PartialEq, Eq, Structural)]
pub enum SinkStatus {
    Running,
    Closed,
    TemporarilyClosed,
}

impl SinkStatus {
    /// The wire tag of each status.
    pub open spec fn spec_tag(self) -> Seq<char> {
        match self {
            SinkStatus::Running => "Running"@,
            SinkStatus::Closed => "Closed"@,
            SinkStatus::TemporarilyClosed => "TemporarilyClosed"@,
        }
    }

    /// Executable counterpart of [`spec_tag`](Self::spec_tag).
    pub fn tag(self) -> (r: &'static str)
        ensures
            r@ == self.spec_tag(),
    {
        match self {
            SinkStatus::Running => "Running",
            SinkStatus::Closed => "Closed",
            SinkStatus::TemporarilyClosed => "TemporarilyClosed",
        }
    }
}

/// Produces the one outbound sink-event message for one status transition of
/// the owning device's audio sink.
pub fn forward_sink_event(device_id: &str, status: SinkStatus) -> (r: OutboundMessage)
    ensures
        r@ == (OutboundView::SinkEvent { device_id: device_id@, status: status.spec_tag() }),
{
    OutboundMessage::SinkEvent {
        device_id: String::from_str(device_id),
        status: String::from_str(status.tag()),
    }
}

} // verus!
