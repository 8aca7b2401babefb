//! Tests of the audio stream adapter: chunking, pacing, serialization, and
//! the event-forwarding path.
use base64::engine::general_purpose::STANDARD;
use base64::Engine;

use blockyspot::events::{forward_player_event, forward_sink_event, PlayerEvent, SinkStatus};
use blockyspot::outbound::{OutboundMessage, PacketKind};
use blockyspot::sink::{
    pcm_le_bytes, AudioFormat, AudioStreamAdapter, CHANNEL_COUNT, CHUNK_SAMPLES,
    PACING_INTERVAL_MS, SAMPLE_RATE_HZ,
};

fn started_adapter() -> AudioStreamAdapter {
    let mut adapter = AudioStreamAdapter::new(AudioFormat::default(), "dev-1".to_string());
    adapter.start();
    adapter
}

fn expect_audio_data(message: OutboundMessage) -> (String, String, PacketKind, String) {
    match message {
        OutboundMessage::AudioData { device_id, format, packet_type, encoded } => {
            (device_id, format, packet_type, encoded)
        }
        _ => panic!("expected an audio-data message"),
    }
}

#[test]
fn inactive_adapter_drops_packets() {
    let mut adapter = AudioStreamAdapter::new(AudioFormat::default(), "dev-1".to_string());
    let effect = adapter.write_samples(&[1, 2, 3], 0);
    assert_eq!(effect.delay_ms, 0);
    assert!(effect.message.is_none());
    assert!(adapter.write_raw(&[9, 9]).is_none());
}

#[test]
fn start_announces_the_stream_format() {
    let mut adapter = AudioStreamAdapter::new(AudioFormat::default(), "dev-1".to_string());
    match adapter.start() {
        OutboundMessage::AudioFormatNotice { device_id, sample_rate, channels, bit_depth, format } => {
            assert_eq!(device_id, "dev-1");
            assert_eq!(sample_rate, SAMPLE_RATE_HZ);
            assert_eq!(sample_rate, 44_100);
            assert_eq!(channels, CHANNEL_COUNT);
            assert_eq!(channels, 2);
            assert_eq!(bit_depth, 16);
            assert_eq!(format, "S16");
        }
        _ => panic!("start must announce the audio format"),
    }
}

#[test]
fn bit_depths_per_format() {
    assert_eq!(AudioFormat::S16.bit_depth(), 16);
    assert_eq!(AudioFormat::S24.bit_depth(), 24);
    assert_eq!(AudioFormat::S24_3.bit_depth(), 24);
    assert_eq!(AudioFormat::S32.bit_depth(), 32);
    assert_eq!(AudioFormat::F32.bit_depth(), 32);
    assert_eq!(AudioFormat::F64.bit_depth(), 64);
    assert_eq!(AudioFormat::S24_3.tag(), "S24_3");
}

#[test]
fn exact_threshold_yields_exactly_one_emission() {
    let mut adapter = started_adapter();
    let samples = vec![0x1234u16; CHUNK_SAMPLES];
    let effect = adapter.write_samples(&samples, 1_000);
    let (device_id, format, kind, encoded) = expect_audio_data(effect.message.unwrap());
    assert_eq!(device_id, "dev-1");
    assert_eq!(format, "pcm_s16le");
    assert_eq!(kind, PacketKind::Samples);
    let mut expected_bytes = Vec::new();
    for _ in 0..CHUNK_SAMPLES {
        expected_bytes.push(0x34u8);
        expected_bytes.push(0x12u8);
    }
    assert_eq!(encoded, STANDARD.encode(&expected_bytes));
    // The buffer was emptied: the same feed again yields exactly one more.
    let effect = adapter.write_samples(&samples, 2_000);
    assert!(effect.message.is_some());
}

#[test]
fn split_packets_emit_once_at_the_threshold() {
    let mut adapter = started_adapter();
    let first = adapter.write_samples(&vec![1u16; 2_000], 0);
    assert!(first.message.is_none());
    let second = adapter.write_samples(&vec![1u16; CHUNK_SAMPLES - 2_000], 0);
    assert!(second.message.is_some());
}

#[test]
fn below_threshold_then_stop_emits_no_audio_data() {
    let mut adapter = started_adapter();
    let effect = adapter.write_samples(&vec![1u16; CHUNK_SAMPLES - 1], 0);
    assert!(effect.message.is_none());
    match adapter.stop() {
        OutboundMessage::AudioStreamStopped { device_id } => assert_eq!(device_id, "dev-1"),
        _ => panic!("stop must announce that the stream stopped"),
    }
}

#[test]
fn stop_discards_buffered_samples() {
    let mut adapter = started_adapter();
    adapter.write_samples(&vec![1u16; 100], 0);
    adapter.stop();
    adapter.start();
    // Were the 100 samples kept, this feed would reach the threshold.
    let effect = adapter.write_samples(&vec![1u16; CHUNK_SAMPLES - 100], 0);
    assert!(effect.message.is_none());
    let effect = adapter.write_samples(&vec![1u16; 100], 0);
    assert!(effect.message.is_some());
}

#[test]
fn raw_packets_bypass_the_buffer() {
    let mut adapter = started_adapter();
    adapter.write_samples(&vec![1u16; CHUNK_SAMPLES - 1], 0);
    let raw = adapter.write_raw(&[1, 2, 3]).unwrap();
    let (_, format, kind, encoded) = expect_audio_data(raw);
    assert_eq!(format, "pcm_s16le");
    assert_eq!(kind, PacketKind::Raw);
    assert_eq!(encoded, STANDARD.encode([1u8, 2, 3]));
    // One more sample completes the chunk: the raw packet added nothing.
    let effect = adapter.write_samples(&[1u16], 0);
    assert!(effect.message.is_some());
}

#[test]
fn emissions_are_paced_at_least_the_interval_apart() {
    let mut adapter = started_adapter();
    let samples = vec![0u16; CHUNK_SAMPLES];
    // First emission goes at once.
    let first = adapter.write_samples(&samples, 1_000);
    assert_eq!(first.delay_ms, 0);
    let mut last_emit = 1_000u64;
    // Chunks arriving 50 ms and then 60 ms apart are each delayed to the
    // 100 ms pacing grid.
    for now in [1_050u64, 1_210u64] {
        let effect = adapter.write_samples(&samples, now);
        assert!(effect.message.is_some());
        let emit_at = now + effect.delay_ms;
        assert!(emit_at - last_emit >= PACING_INTERVAL_MS);
        last_emit = emit_at;
    }
    // A chunk arriving after a long gap is not delayed at all.
    let effect = adapter.write_samples(&samples, 10_000);
    assert_eq!(effect.delay_ms, 0);
}

#[test]
fn pacing_delay_values() {
    let mut adapter = started_adapter();
    let samples = vec![0u16; CHUNK_SAMPLES];
    assert_eq!(adapter.write_samples(&samples, 1_000).delay_ms, 0);
    // 50 ms since the last emission: wait the remaining 50.
    assert_eq!(adapter.write_samples(&samples, 1_050).delay_ms, 50);
    // The previous emission went at 1100; 40 ms later: wait 60 more.
    assert_eq!(adapter.write_samples(&samples, 1_140).delay_ms, 60);
}

#[test]
fn pcm_serialization_is_little_endian() {
    let bytes = pcm_le_bytes(&vec![0x1234u16, 0xABCD, 0x0001]);
    assert_eq!(bytes, vec![0x34u8, 0x12, 0xCD, 0xAB, 0x01, 0x00]);
    assert!(pcm_le_bytes(&Vec::new()).is_empty());
}

#[test]
fn playing_event_carries_full_details() {
    let message = forward_player_event(
        "dev-9",
        PlayerEvent::Playing {
            play_request_id: 7,
            track_id: "spotify:track:xyz".to_string(),
            position_ms: 1_234,
        },
    );
    match message {
        OutboundMessage::PlayerEvent { device_id, event_type, details } => {
            assert_eq!(device_id, "dev-9");
            assert_eq!(event_type, "Playing");
            let details = details.unwrap();
            assert_eq!(details.play_request_id, 7);
            assert_eq!(details.track_id, "spotify:track:xyz");
            assert_eq!(details.position_ms, Some(1_234));
        }
        _ => panic!("expected a player-event message"),
    }
}

#[test]
fn stopped_event_has_no_position() {
    let message = forward_player_event(
        "dev-9",
        PlayerEvent::Stopped { play_request_id: 3, track_id: "t".to_string() },
    );
    match message {
        OutboundMessage::PlayerEvent { event_type, details, .. } => {
            assert_eq!(event_type, "Stopped");
            assert_eq!(details.unwrap().position_ms, None);
        }
        _ => panic!("expected a player-event message"),
    }
}

#[test]
fn undefined_event_kinds_carry_no_details() {
    let message = forward_player_event(
        "dev-9",
        PlayerEvent::Other { description: "VolumeChanged { volume: 3 }".to_string() },
    );
    match message {
        OutboundMessage::PlayerEvent { event_type, details, .. } => {
            assert_eq!(event_type, "VolumeChanged { volume: 3 }");
            assert!(details.is_none());
        }
        _ => panic!("expected a player-event message"),
    }
}

#[test]
fn sink_status_transitions_are_forwarded() {
    for (status, tag) in [
        (SinkStatus::Running, "Running"),
        (SinkStatus::Closed, "Closed"),
        (SinkStatus::TemporarilyClosed, "TemporarilyClosed"),
    ] {
        match forward_sink_event("dev-2", status) {
            OutboundMessage::SinkEvent { device_id, status } => {
                assert_eq!(device_id, "dev-2");
                assert_eq!(status, tag);
            }
            _ => panic!("expected a sink-event message"),
        }
    }
}
