//! Everything the service pushes to a peer: the one tagged union of outbound
//! wire messages.
//!
//! The embedding program serializes these to JSON frames; every variant but
//! the connection acknowledgment and the command response carries the owning
//! device identifier.
use vstd::prelude::*;

use crate::commands::{CommandResponse, ResponseView};

verus! {

/// Whether an audio-data message carries buffered, converted sample words or
/// pre-encoded bytes forwarded as they came.
#[derive(Clone, Copy, Debug, PartialEq, Eq, Structural)]
pub enum PacketKind {
    Samples,
    Raw,
}

impl PacketKind {
    /// The wire tag of this packet kind.
    pub open spec fn spec_tag(self) -> Seq<char> {
        match self {
            PacketKind::Samples => "samples"@,
            PacketKind::Raw => "raw"@,
        }
    }

    /// Executable counterpart of [`spec_tag`](Self::spec_tag).
    pub fn tag(self) -> (r: &'static str)
        ensures
            r@ == self.spec_tag(),
    {
        match self {
            PacketKind::Samples => "samples",
            PacketKind::Raw => "raw",
        }
    }
}

/// The detail fields of a player event that defines a payload.
#[derive(Clone, Debug, PartialEq)]
pub struct PlayerEventDetails {
    pub play_request_id: u64,
    pub track_id: String,
    /// Present for events that report a playback position.
    pub position_ms: Option<u32>,
}

/// Mathematical image of [`PlayerEventDetails`].
pub struct DetailsView {
    pub play_request_id: u64,
    pub track_id: Seq<char>,
    pub position_ms: Option<u32>,
}

impl View for PlayerEventDetails {
    type V = DetailsView;

    open spec fn view(&self) -> DetailsView {
        DetailsView {
            play_request_id: self.play_request_id,
            track_id: self.track_id@,
            position_ms: self.position_ms,
        }
    }
}

/// One outbound wire message.
#[derive(Clone, Debug, PartialEq)]
pub enum OutboundMessage {
    /// Sent once, immediately upon connection establishment.
    ConnectionAck { status: String, protocol_version: String },
    /// The synchronous answer to one inbound command.
    Response(CommandResponse),
    /// Announces the stream parameters when audio output starts.
    AudioFormatNotice {
        device_id: String,
        sample_rate: u32,
        channels: u32,
        bit_depth: u32,
        format: String,
    },
    /// One chunk of audio, base64-encoded.
    AudioData { device_id: String, format: String, packet_type: PacketKind, encoded: String },
    /// Announces that audio output stopped.
    AudioStreamStopped { device_id: String },
    /// A status transition of the audio sink.
    SinkEvent { device_id: String, status: String },
    /// An asynchronous event of the playback engine.
    PlayerEvent { device_id: String, event_type: String, details: Option<PlayerEventDetails> },
}

/// Mathematical image of [`OutboundMessage`].
pub enum OutboundView {
    ConnectionAck { status: Seq<char>, protocol_version: Seq<char> },
    Response(ResponseView),
    AudioFormatNotice {
        device_id: Seq<char>,
        sample_rate: u32,
        channels: u32,
        bit_depth: u32,
        format: Seq<char>,
    },
    AudioData { device_id: Seq<char>, format: Seq<char>, packet_type: PacketKind, encoded: Seq<char> },
    AudioStreamStopped { device_id: Seq<char> },
    SinkEvent { device_id: Seq<char>, status: Seq<char> },
    PlayerEvent { device_id: Seq<char>, event_type: Seq<char>, details: Option<DetailsView> },
}

impl View for OutboundMessage {
    type V = OutboundView;

    open spec fn view(&self) -> OutboundView {
        match self {
            OutboundMessage::ConnectionAck { status, protocol_version } => {
                OutboundView::ConnectionAck {
                    status: status@,
                    protocol_version: protocol_version@,
                }
            },
            OutboundMessage::Response(r) => OutboundView::Response(r@),
            OutboundMessage::AudioFormatNotice {
                device_id,
                sample_rate,
                channels,
                bit_depth,
                format,
            } => OutboundView::AudioFormatNotice {
                device_id: device_id@,
                sample_rate: *sample_rate,
                channels: *channels,
                bit_depth: *bit_depth,
                format: format@,
            },
            OutboundMessage::AudioData { device_id, format, packet_type, encoded } => {
                OutboundView::AudioData {
                    device_id: device_id@,
                    format: format@,
                    packet_type: *packet_type,
                    encoded: encoded@,
                }
            },
            OutboundMessage::AudioStreamStopped { device_id } => OutboundView::AudioStreamStopped {
                device_id: device_id@,
            },
            OutboundMessage::SinkEvent { device_id, status } => OutboundView::SinkEvent {
                device_id: device_id@,
                status: status@,
            },
            OutboundMessage::PlayerEvent { device_id, event_type, details } => {
                OutboundView::PlayerEvent {
                    device_id: device_id@,
                    event_type: event_type@,
                    details: match details {
                        Some(d) => Some(d@),
                        None => None,
                    },
                }
            },
        }
    }
}

} // verus!
