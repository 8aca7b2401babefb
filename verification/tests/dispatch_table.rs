//! Tests of the dispatcher: one deterministic response per variant and
//! outcome, and the session-level wrapping around engine answers.
use blockyspot::client::{op_outcome, EngineOp, SpotifyClient};
use blockyspot::commands::Command;
use blockyspot::dispatch::{engine_op, CommandHandler, CommandManager, ShuffleCommandHandler};

#[test]
fn success_messages_per_variant() {
    let manager = CommandManager::new();
    let cases = [
        (Command::Play, "Playback started"),
        (Command::PlayPause, "Playback toggled"),
        (Command::Pause, "Playback paused"),
        (Command::Prev, "Previous track"),
        (Command::Next, "Next track"),
        (Command::VolumeUp, "Volume increased"),
        (Command::VolumeDown, "Volume decreased"),
        (Command::Shutdown, "Device shutdown"),
        (Command::Shuffle(true), "Shuffle enabled"),
        (Command::Shuffle(false), "Shuffle disabled"),
        (Command::Repeat(true), "Repeat enabled"),
        (Command::Repeat(false), "Repeat disabled"),
        (Command::RepeatTrack(true), "Track repeat enabled"),
        (Command::RepeatTrack(false), "Track repeat disabled"),
        (Command::Disconnect { pause: false }, "Device disconnected"),
        (Command::SetPosition(1), "Position updated"),
        (Command::SetVolume(1), "Volume updated"),
        (Command::Activate, "Device activated"),
    ];
    for (cmd, expected) in cases {
        let response = manager.execute(cmd, Ok(()));
        assert!(response.success);
        assert_eq!(response.message, expected);
        assert!(response.data.is_none());
    }
}

#[test]
fn failure_messages_per_variant() {
    let manager = CommandManager::new();
    let cases = [
        (Command::Play, "Failed to play: boom"),
        (Command::PlayPause, "Failed to play_pause: boom"),
        (Command::Pause, "Failed to pause: boom"),
        (Command::Prev, "Failed to prev: boom"),
        (Command::Next, "Failed to next: boom"),
        (Command::VolumeUp, "Failed to volume_up: boom"),
        (Command::VolumeDown, "Failed to volume_down: boom"),
        (Command::Shutdown, "Failed to shutdown: boom"),
        (Command::Shuffle(true), "Failed to set shuffle: boom"),
        (Command::Repeat(false), "Failed to set repeat: boom"),
        (Command::RepeatTrack(true), "Failed to set track repeat: boom"),
        (Command::Disconnect { pause: true }, "Failed to disconnect: boom"),
        (Command::SetPosition(9), "Failed to set position: boom"),
        (Command::SetVolume(9), "Failed to set volume: boom"),
        (Command::Activate, "Failed to activate: boom"),
    ];
    for (cmd, expected) in cases {
        let response = manager.execute(cmd, Err("boom".to_string()));
        assert!(!response.success);
        assert_eq!(response.message, expected);
        assert!(response.data.is_none());
    }
}

#[test]
fn create_device_is_misrouted_at_dispatch() {
    let manager = CommandManager::new();
    let response = manager.execute(
        Command::CreateDevice { token: "t".to_string(), device_name: None },
        Ok(()),
    );
    assert!(!response.success);
    assert_eq!(response.message, "CreateDevice command should be handled by the server");
}

#[test]
fn pause_twice_both_succeed() {
    let manager = CommandManager::new();
    let first = manager.execute(Command::Pause, Ok(()));
    let second = manager.execute(Command::Pause, Ok(()));
    assert!(first.success);
    assert!(second.success);
    assert_eq!(first.message, "Playback paused");
    assert_eq!(second.message, "Playback paused");
}

#[test]
fn handler_rejects_wrong_variant() {
    let response = ShuffleCommandHandler::handle(&Command::Play, Ok(()));
    assert!(!response.success);
    assert_eq!(response.message, "Invalid shuffle command");
}

#[test]
fn op_outcome_wraps_engine_errors() {
    assert!(op_outcome(EngineOp::Pause, Ok(())).is_ok());
    let err = op_outcome(EngineOp::SetPositionMs(4), Err("lost".to_string())).unwrap_err();
    assert_eq!(err, "Failed to execute set_position_ms: lost");
}

#[test]
fn engine_op_per_variant() {
    assert_eq!(engine_op(&Command::Play), Some(EngineOp::Play));
    assert_eq!(engine_op(&Command::Shuffle(true)), Some(EngineOp::Shuffle(true)));
    assert_eq!(engine_op(&Command::Disconnect { pause: true }), Some(EngineOp::Disconnect(true)));
    assert_eq!(engine_op(&Command::SetPosition(7)), Some(EngineOp::SetPositionMs(7)));
    assert_eq!(engine_op(&Command::SetVolume(3)), Some(EngineOp::SetVolume(3)));
    assert_eq!(
        engine_op(&Command::CreateDevice { token: "t".to_string(), device_name: None }),
        None
    );
}

#[test]
fn uninitialized_session_refuses_requests() {
    let client = SpotifyClient::new();
    assert!(!client.is_initialized());
    let err = client.request(EngineOp::Pause).unwrap_err();
    assert_eq!(err, "Spotify Connect device not initialized");
}

#[test]
fn initialized_session_passes_requests_through() {
    let mut client = SpotifyClient::new();
    client.attach_engine("Den".to_string(), "d-1".to_string());
    assert!(client.is_initialized());
    assert_eq!(client.request(EngineOp::Play).unwrap(), EngineOp::Play);
}
