//! The per-connection control layer: every decision between an inbound,
//! already-parsed envelope and the response written back.
//!
//! The embedding program owns the sockets, the tasks, and the playback
//! engines; this module owns what happens in between. Routing is split around
//! the two points where only the engine can act: [`SpotifyServer::route_message`]
//! decides what a message demands, the embedding program performs the one
//! engine step the decision names, and [`SpotifyServer::complete_create`] or
//! [`SpotifyServer::conclude_invoke`] turns the engine's answer into the wire
//! response and the registry update.
use vstd::prelude::*;

use crate::client::{
    not_initialized_text, outcome_view, spec_op_outcome, ClientView, EngineOp, SpotifyClient,
};
use crate::commands::{
    opt_str_view, Command, CommandMessage, CommandResponse, CommandView, ProtocolError,
    ResponseData, ResponseView, spec_translate,
};
use crate::dispatch::{engine_op, spec_engine_op, spec_execute, CommandManager};
use crate::outbound::{OutboundMessage, OutboundView};
use crate::registry::DeviceRegistry;

verus! {

/// Relies on uuid's `Uuid::new_v4` and its `Display` impl: a fresh random
/// 128-bit identifier rendered in the hyphenated format, which is always 36
/// characters. Nothing is assumed about which identifier comes back.
#[verifier::external_body]
fn generate_device_id() -> (r: String)
    ensures
        r@.len() == 36,
{
    uuid::Uuid::new_v4().to_string()
}

/// The display name a new device gets: the requested one, or a generated
/// name incorporating the device identifier when none was requested.
pub fn device_display_name(requested: Option<String>, device_id: &str) -> (r: String)
    ensures
        r@ == match opt_str_view(requested) {
            Some(n) => n,
            None => "Blockyspot "@ + device_id@,
        },
{
    match requested {
        Some(n) => n,
        None => String::from_str("Blockyspot ").concat(device_id),
    }
}

/// What one inbound message demands, as decided by
/// [`SpotifyServer::route_message`].
pub enum RouteAction {
    /// The response is already settled; no engine work is owed.
    Respond(CommandResponse),
    /// A new device is owed: initialize an engine for it, then settle the
    /// response with [`SpotifyServer::complete_create`].
    InitDevice { device_id: String, token: String, device_name: String },
    /// One engine operation against a live session is owed: perform it, then
    /// settle the response with [`SpotifyServer::conclude_invoke`].
    Invoke { device_id: String, op: EngineOp, command: Command },
}

/// The per-connection command server: routes envelopes against a device
/// registry and renders every response.
#[derive(Clone)]
pub struct SpotifyServer {
    command_manager: CommandManager,
}

impl SpotifyServer {
    pub fn new() -> SpotifyServer {
        SpotifyServer { command_manager: CommandManager::new() }
    }

    /// Decides what an inbound envelope demands:
    /// - a translation fault answers immediately with the invalid-command text;
    /// - `CreateDevice` demands engine initialization under a freshly
    ///   generated identifier, under the requested or generated display name;
    /// - any other command addressed to an unknown device answers "Device not
    ///   found" with no engine work;
    /// - a device-scoped command against a live, initialized session demands
    ///   exactly its one engine operation;
    /// - against a session with no engine attached, it answers the
    ///   not-initialized failure with no engine work.
    pub fn route_message(&self, registry: &DeviceRegistry, msg: CommandMessage) -> (r: RouteAction)
        ensures
            match spec_translate(msg@) {
                Err(e) => r matches RouteAction::Respond(resp) && resp@ == ResponseView::failure(
                    "Invalid command: "@ + ProtocolError::spec_message(e),
                ),
                Ok((id, c)) => {
                    &&& (c matches CommandView::CreateDevice { token, device_name } ==> (
                    r matches RouteAction::InitDevice { device_id: rid, token: rtok, device_name: rname }
                        && rtok@ == token && rid@.len() == 36 && rname@ == (match device_name {
                        Some(n) => n,
                        None => "Blockyspot "@ + rid@,
                    })))
                    &&& (!(c is CreateDevice) && !registry.dev_map().contains_key(id) ==> (
                    r matches RouteAction::Respond(resp) && resp@ == ResponseView::failure(
                        "Device not found"@,
                    )))
                    &&& (!(c is CreateDevice) && registry.dev_map().contains_key(id)
                        && registry.dev_map().index(id)@.initialized ==> (
                    r matches RouteAction::Invoke { device_id: rid, op, command } && rid@ == id
                        && command@ == c && Some(op) == spec_engine_op(c)))
                    &&& (!(c is CreateDevice) && registry.dev_map().contains_key(id) && !registry
                        .dev_map().index(id)@.initialized ==> (
                    r matches RouteAction::Respond(resp) && resp@ == spec_execute(
                        c,
                        Err(not_initialized_text()),
                    )))
                },
            },
    {
        match Command::from_message(msg) {
            Err(e) => RouteAction::Respond(
                CommandResponse::error(
                    String::from_str("Invalid command: ").concat(e.message().as_str()),
                ),
            ),
            Ok((device_id, cmd)) => match cmd {
                Command::CreateDevice { token, device_name } => {
                    let new_id = generate_device_id();
                    let display_name = device_display_name(device_name, new_id.as_str());
                    RouteAction::InitDevice {
                        device_id: new_id,
                        token,
                        device_name: display_name,
                    }
                },
                cmd => match registry.get(device_id.as_str()) {
                    None => RouteAction::Respond(
                        CommandResponse::error(String::from_str("Device not found")),
                    ),
                    Some(client) => match engine_op(&cmd) {
                        Some(op) => match client.request(op) {
                            Ok(op) => RouteAction::Invoke { device_id, op, command: cmd },
                            Err(e) => RouteAction::Respond(
                                self.command_manager.execute(cmd, Err(e)),
                            ),
                        },
                        // Only `CreateDevice` has no engine operation, and
                        // this arm handles every other variant.
                        None => {
                            proof {
                                assert(false);
                            }
                            RouteAction::Respond(CommandResponse::error(String::new()))
                        },
                    },
                },
            },
        }
    }

    /// Settles a `CreateDevice` request once the embedding program tried to
    /// initialize an engine: a successful initialization under a never-issued
    /// identifier registers the session and answers success carrying the
    /// identifier; a failed one answers the connect failure with its cause
    /// and registers nothing; an identifier issued before is refused and
    /// registers nothing.
    pub fn complete_create(
        &self,
        registry: &mut DeviceRegistry,
        device_id: String,
        device_name: String,
        init_result: Result<(), String>,
    ) -> (r: CommandResponse)
        requires
            old(registry).wf(),
        ensures
            final(registry).wf(),
            init_result matches Err(e) ==> r@ == ResponseView::failure("Failed to connect: "@ + e@)
                && final(registry).dev_map() == old(registry).dev_map()
                && final(registry).issued_ids() == old(registry).issued_ids(),
            init_result is Ok && old(registry).issued_ids().contains(device_id@) ==> r@
                == ResponseView::failure("Failed to connect: duplicate device identifier"@)
                && final(registry).dev_map() == old(registry).dev_map()
                && final(registry).issued_ids() == old(registry).issued_ids(),
            init_result is Ok && !old(registry).issued_ids().contains(device_id@) ==> r@ == (
            ResponseView {
                success: true,
                message: "Connected to Spotify"@,
                data: Some(device_id@),
            }) && final(registry).issued_ids() == old(registry).issued_ids().insert(device_id@)
                && final(registry).dev_map().dom() == old(registry).dev_map().dom().insert(
                device_id@,
            ) && final(registry).dev_map().index(device_id@)@ == (ClientView {
                initialized: true,
                device_name: device_name@,
                device_id: device_id@,
            }) && (forall|k: Seq<char>|
                k != device_id@ && old(registry).dev_map().dom().contains(k)
                    ==> #[trigger] final(registry).dev_map().index(k)
                    == old(registry).dev_map().index(k)),
    {
        match init_result {
            Ok(()) => {
                let mut client = SpotifyClient::new();
                client.attach_engine(device_name, device_id.clone());
                if registry.register(device_id.clone(), client) {
                    CommandResponse::success(
                        String::from_str("Connected to Spotify"),
                        Some(ResponseData { device_id }),
                    )
                } else {
                    CommandResponse::error(
                        String::from_str("Failed to connect: duplicate device identifier"),
                    )
                }
            },
            Err(e) => CommandResponse::error(
                String::from_str("Failed to connect: ").concat(e.as_str()),
            ),
        }
    }

    /// Settles a device-scoped command once the embedding program performed
    /// its engine operation: the raw engine answer is wrapped into the
    /// session-level outcome and dispatched to the command's handler. A
    /// successful `Disconnect` or `Shutdown` also tears the session out of
    /// the registry; nothing else touches it.
    pub fn conclude_invoke(
        &self,
        registry: &mut DeviceRegistry,
        device_id: &str,
        command: Command,
        op: EngineOp,
        raw: Result<(), String>,
    ) -> (r: CommandResponse)
        requires
            old(registry).wf(),
            spec_engine_op(command@) == Some(op),
        ensures
            final(registry).wf(),
            r@ == spec_execute(command@, spec_op_outcome(op, outcome_view(raw))),
            final(registry).issued_ids() == old(registry).issued_ids(),
            r@.success && (command@ is Disconnect || command@ is Shutdown)
                ==> final(registry).dev_map() == old(registry).dev_map().remove(device_id@),
            !(r@.success && (command@ is Disconnect || command@ is Shutdown))
                ==> final(registry).dev_map() == old(registry).dev_map(),
    {
        let tears_down = matches!(command, Command::Disconnect { .. } | Command::Shutdown);
        let outcome = crate::client::op_outcome(op, raw);
        let response = self.command_manager.execute(command, outcome);
        if response.success && tears_down {
            registry.remove(device_id);
        }
        response
    }

    /// The acknowledgment sent once, immediately upon connection
    /// establishment, before any command is processed.
    pub fn connection_ack() -> (r: OutboundMessage)
        ensures
            r@ == (OutboundView::ConnectionAck {
                status: "Connected to server"@,
                protocol_version: "0.1.1"@,
            }),
    {
        OutboundMessage::ConnectionAck {
            status: String::from_str("Connected to server"),
            protocol_version: String::from_str(crate::PROTOCOL_VERSION),
        }
    }

    /// The response to a frame that is not valid JSON; `detail` is the
    /// parser's description of the fault.
    pub fn invalid_json_response(detail: &str) -> (r: CommandResponse)
        ensures
            r@ == ResponseView::failure("Invalid JSON format: "@ + detail@),
    {
        CommandResponse::error(String::from_str("Invalid JSON format: ").concat(detail))
    }
}

} // verus!
