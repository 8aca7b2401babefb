//! Tests of the connection-level flow: routing, device creation, dispatch
//! against the registry, and teardown.
use blockyspot::client::EngineOp;
use blockyspot::commands::{Command, CommandMessage, CommandParams};
use blockyspot::outbound::OutboundMessage;
use blockyspot::registry::DeviceRegistry;
use blockyspot::server::{RouteAction, SpotifyServer};
use blockyspot::PROTOCOL_VERSION;

fn command_envelope(device_id: Option<&str>, command_type: &str, params: CommandParams) -> CommandMessage {
    CommandMessage {
        device_id: device_id.map(String::from),
        command_type: command_type.to_string(),
        params,
    }
}

fn create_message(token: &str, name: Option<&str>) -> CommandMessage {
    let mut params = CommandParams::empty();
    params.token = Some(token.to_string());
    params.device_name = name.map(String::from);
    command_envelope(None, "CreateDevice", params)
}

/// Runs a full successful creation and returns the generated device id.
fn create_device(server: &SpotifyServer, registry: &mut DeviceRegistry, name: Option<&str>) -> String {
    match server.route_message(registry, create_message("abc", name)) {
        RouteAction::InitDevice { device_id, token, device_name } => {
            assert_eq!(token, "abc");
            if let Some(requested) = name {
                assert_eq!(device_name, requested);
            }
            let response = server.complete_create(registry, device_id.clone(), device_name, Ok(()));
            assert!(response.success);
            assert_eq!(response.message, "Connected to Spotify");
            assert_eq!(response.data.unwrap().device_id, device_id);
            device_id
        }
        _ => panic!("CreateDevice must demand engine initialization"),
    }
}

#[test]
fn connection_ack_carries_protocol_version() {
    match SpotifyServer::connection_ack() {
        OutboundMessage::ConnectionAck { status, protocol_version } => {
            assert_eq!(status, "Connected to server");
            assert_eq!(protocol_version, PROTOCOL_VERSION);
            assert_eq!(protocol_version, "0.1.1");
        }
        _ => panic!("connection ack must be a ConnectionAck message"),
    }
}

#[test]
fn invalid_json_response_text() {
    let response = SpotifyServer::invalid_json_response("expected value at line 1");
    assert!(!response.success);
    assert_eq!(response.message, "Invalid JSON format: expected value at line 1");
}

#[test]
fn unknown_device_answers_not_found_without_engine_work() {
    let server = SpotifyServer::new();
    let registry = DeviceRegistry::new();
    match server.route_message(&registry, command_envelope(Some("nope"), "Pause", CommandParams::empty())) {
        RouteAction::Respond(response) => {
            assert!(!response.success);
            assert_eq!(response.message, "Device not found");
        }
        _ => panic!("a command for an unknown device must settle without engine work"),
    }
}

#[test]
fn created_device_answers_success_with_generated_id() {
    let server = SpotifyServer::new();
    let mut registry = DeviceRegistry::new();
    let id = create_device(&server, &mut registry, Some("Kitchen"));
    assert_eq!(id.len(), 36);
    assert_eq!(registry.device_count(), 1);
}

#[test]
fn two_creations_never_share_an_id() {
    let server = SpotifyServer::new();
    let mut registry = DeviceRegistry::new();
    let first = create_device(&server, &mut registry, None);
    let second = create_device(&server, &mut registry, None);
    assert_ne!(first, second);
    assert_eq!(registry.device_count(), 2);
}

#[test]
fn device_name_defaults_to_generated() {
    let server = SpotifyServer::new();
    let registry = DeviceRegistry::new();
    match server.route_message(&registry, create_message("abc", None)) {
        RouteAction::InitDevice { device_id, device_name, .. } => {
            assert_eq!(device_name, format!("Blockyspot {device_id}"));
        }
        _ => panic!("CreateDevice must demand engine initialization"),
    }
}

#[test]
fn engine_init_failure_registers_nothing() {
    let server = SpotifyServer::new();
    let mut registry = DeviceRegistry::new();
    let response = server.complete_create(
        &mut registry,
        "some-id".to_string(),
        "Den".to_string(),
        Err("token rejected".to_string()),
    );
    assert!(!response.success);
    assert_eq!(response.message, "Failed to connect: token rejected");
    assert_eq!(registry.device_count(), 0);
}

#[test]
fn duplicate_identifier_is_refused() {
    let server = SpotifyServer::new();
    let mut registry = DeviceRegistry::new();
    let first = server.complete_create(&mut registry, "dup".to_string(), "A".to_string(), Ok(()));
    assert!(first.success);
    let second = server.complete_create(&mut registry, "dup".to_string(), "B".to_string(), Ok(()));
    assert!(!second.success);
    assert_eq!(second.message, "Failed to connect: duplicate device identifier");
    assert_eq!(registry.device_count(), 1);
}

#[test]
fn volume_out_of_range_settles_before_any_engine_step() {
    let server = SpotifyServer::new();
    let mut registry = DeviceRegistry::new();
    let id = create_device(&server, &mut registry, None);
    let mut params = CommandParams::empty();
    params.volume = Some(70_000);
    match server.route_message(&registry, command_envelope(Some(&id), "SetVolume", params)) {
        RouteAction::Respond(response) => {
            assert!(!response.success);
            assert_eq!(response.message, "Invalid command: Volume value out of range");
        }
        _ => panic!("an out-of-range volume must settle without engine work"),
    }
    assert_eq!(registry.device_count(), 1);
}

#[test]
fn bogus_command_leaves_connection_usable() {
    let server = SpotifyServer::new();
    let mut registry = DeviceRegistry::new();
    let id = create_device(&server, &mut registry, None);
    match server.route_message(&registry, command_envelope(Some(&id), "Bogus", CommandParams::empty())) {
        RouteAction::Respond(response) => {
            assert!(!response.success);
            assert_eq!(response.message, "Invalid command: Unknown command type: Bogus");
        }
        _ => panic!("an unknown command type must settle without engine work"),
    }
    // The same connection still routes further commands against the device.
    match server.route_message(&registry, command_envelope(Some(&id), "Pause", CommandParams::empty())) {
        RouteAction::Invoke { op, .. } => assert_eq!(op, EngineOp::Pause),
        _ => panic!("a live device must still be reachable"),
    }
}

#[test]
fn pause_invoked_twice_both_succeed() {
    let server = SpotifyServer::new();
    let mut registry = DeviceRegistry::new();
    let id = create_device(&server, &mut registry, None);
    for _ in 0..2 {
        match server.route_message(&registry, command_envelope(Some(&id), "Pause", CommandParams::empty()))
        {
            RouteAction::Invoke { device_id, op, command } => {
                let response =
                    server.conclude_invoke(&mut registry, &device_id, command, op, Ok(()));
                assert!(response.success);
                assert_eq!(response.message, "Playback paused");
            }
            _ => panic!("pause against a live device must demand its engine operation"),
        }
    }
}

#[test]
fn engine_failure_surfaces_in_response() {
    let server = SpotifyServer::new();
    let mut registry = DeviceRegistry::new();
    let id = create_device(&server, &mut registry, None);
    match server.route_message(&registry, command_envelope(Some(&id), "Pause", CommandParams::empty())) {
        RouteAction::Invoke { device_id, op, command } => {
            let response = server.conclude_invoke(
                &mut registry,
                &device_id,
                command,
                op,
                Err("transport closed".to_string()),
            );
            assert!(!response.success);
            assert_eq!(
                response.message,
                "Failed to pause: Failed to execute pause: transport closed"
            );
        }
        _ => panic!("pause against a live device must demand its engine operation"),
    }
    assert_eq!(registry.device_count(), 1);
}

#[test]
fn successful_disconnect_tears_down_the_session() {
    let server = SpotifyServer::new();
    let mut registry = DeviceRegistry::new();
    let id = create_device(&server, &mut registry, None);
    match server.route_message(&registry, command_envelope(Some(&id), "Disconnect", CommandParams::empty()))
    {
        RouteAction::Invoke { device_id, op, command } => {
            let response = server.conclude_invoke(&mut registry, &device_id, command, op, Ok(()));
            assert!(response.success);
            assert_eq!(response.message, "Device disconnected");
        }
        _ => panic!("disconnect against a live device must demand its engine operation"),
    }
    assert_eq!(registry.device_count(), 0);
    match server.route_message(&registry, command_envelope(Some(&id), "Pause", CommandParams::empty())) {
        RouteAction::Respond(response) => assert_eq!(response.message, "Device not found"),
        _ => panic!("a torn-down device must be unknown"),
    }
}

#[test]
fn failed_disconnect_keeps_the_session() {
    let server = SpotifyServer::new();
    let mut registry = DeviceRegistry::new();
    let id = create_device(&server, &mut registry, None);
    match server.route_message(&registry, command_envelope(Some(&id), "Disconnect", CommandParams::empty()))
    {
        RouteAction::Invoke { device_id, op, command } => {
            let response = server.conclude_invoke(
                &mut registry,
                &device_id,
                command,
                op,
                Err("busy".to_string()),
            );
            assert!(!response.success);
            assert_eq!(
                response.message,
                "Failed to disconnect: Failed to execute disconnect: busy"
            );
        }
        _ => panic!("disconnect against a live device must demand its engine operation"),
    }
    assert_eq!(registry.device_count(), 1);
}

#[test]
fn registry_remove_is_idempotent() {
    let mut registry = DeviceRegistry::new();
    assert!(!registry.remove("ghost"));
    let server = SpotifyServer::new();
    let id = create_device(&server, &mut registry, None);
    assert!(registry.remove(&id));
    assert!(!registry.remove(&id));
    assert_eq!(registry.device_count(), 0);
    assert!(registry.is_issued(&id));
}
