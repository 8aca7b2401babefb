//! The command dispatcher: a pure routing table with one handler per command
//! variant.
//!
//! Each handler turns the session-level outcome of the one engine operation
//! its variant demands into the wire response, with a deterministic message
//! text per variant. The nine plain transport handlers read nothing from the
//! command; the six parameterized ones check that the variant is theirs.
//! `CreateDevice` is the one variant no handler serves: the server creates
//! devices before dispatch is reached.
use vstd::prelude::*;

use crate::client::{outcome_view, EngineOp};
use crate::commands::{Command, CommandResponse, CommandView, ResponseView};

verus! {

/// Which engine operation a command demands; `CreateDevice` demands none.
pub open spec fn spec_engine_op(c: CommandView) -> Option<EngineOp> {
    match c {
        CommandView::CreateDevice { .. } => None,
        CommandView::Play => Some(EngineOp::Play),
        CommandView::PlayPause => Some(EngineOp::PlayPause),
        CommandView::Pause => Some(EngineOp::Pause),
        CommandView::Prev => Some(EngineOp::Prev),
        CommandView::Next => Some(EngineOp::Next),
        CommandView::VolumeUp => Some(EngineOp::VolumeUp),
        CommandView::VolumeDown => Some(EngineOp::VolumeDown),
        CommandView::Shutdown => Some(EngineOp::Shutdown),
        CommandView::Shuffle(b) => Some(EngineOp::Shuffle(b)),
        CommandView::Repeat(b) => Some(EngineOp::Repeat(b)),
        CommandView::RepeatTrack(b) => Some(EngineOp::RepeatTrack(b)),
        CommandView::Disconnect { pause } => Some(EngineOp::Disconnect(pause)),
        CommandView::SetPosition(p) => Some(EngineOp::SetPositionMs(p)),
        CommandView::SetVolume(v) => Some(EngineOp::SetVolume(v)),
        CommandView::Activate => Some(EngineOp::Activate),
    }
}

/// Executable counterpart of [`spec_engine_op`].
pub fn engine_op(command: &Command) -> (r: Option<EngineOp>)
    ensures
        r == spec_engine_op(command@),
{
    match command {
        Command::CreateDevice { .. } => None,
        Command::Play => Some(EngineOp::Play),
        Command::PlayPause => Some(EngineOp::PlayPause),
        Command::Pause => Some(EngineOp::Pause),
        Command::Prev => Some(EngineOp::Prev),
        Command::Next => Some(EngineOp::Next),
        Command::VolumeUp => Some(EngineOp::VolumeUp),
        Command::VolumeDown => Some(EngineOp::VolumeDown),
        Command::Shutdown => Some(EngineOp::Shutdown),
        Command::Shuffle(b) => Some(EngineOp::Shuffle(*b)),
        Command::Repeat(b) => Some(EngineOp::Repeat(*b)),
        Command::RepeatTrack(b) => Some(EngineOp::RepeatTrack(*b)),
        Command::Disconnect { pause } => Some(EngineOp::Disconnect(*pause)),
        Command::SetPosition(p) => Some(EngineOp::SetPositionMs(*p)),
        Command::SetVolume(v) => Some(EngineOp::SetVolume(*v)),
        Command::Activate => Some(EngineOp::Activate),
    }
}

/// The wire text of a successful outcome, per variant. `CreateDevice` never
/// succeeds at this layer; its text here is unreachable filler.
pub open spec fn dispatch_success_text(c: CommandView) -> Seq<char> {
    match c {
        CommandView::CreateDevice { .. } => Seq::<char>::empty(),
        CommandView::Play => "Playback started"@,
        CommandView::PlayPause => "Playback toggled"@,
        CommandView::Pause => "Playback paused"@,
        CommandView::Prev => "Previous track"@,
        CommandView::Next => "Next track"@,
        CommandView::VolumeUp => "Volume increased"@,
        CommandView::VolumeDown => "Volume decreased"@,
        CommandView::Shutdown => "Device shutdown"@,
        CommandView::Shuffle(b) => if b {
            "Shuffle enabled"@
        } else {
            "Shuffle disabled"@
        },
        CommandView::Repeat(b) => if b {
            "Repeat enabled"@
        } else {
            "Repeat disabled"@
        },
        CommandView::RepeatTrack(b) => if b {
            "Track repeat enabled"@
        } else {
            "Track repeat disabled"@
        },
        CommandView::Disconnect { .. } => "Device disconnected"@,
        CommandView::SetPosition(_) => "Position updated"@,
        CommandView::SetVolume(_) => "Volume updated"@,
        CommandView::Activate => "Device activated"@,
    }
}

/// The prefix of the wire text of a failed outcome, per variant.
pub open spec fn dispatch_failure_intro(c: CommandView) -> Seq<char> {
    match c {
        CommandView::CreateDevice { .. } => Seq::<char>::empty(),
        CommandView::Play => "Failed to play: "@,
        CommandView::PlayPause => "Failed to play_pause: "@,
        CommandView::Pause => "Failed to pause: "@,
        CommandView::Prev => "Failed to prev: "@,
        CommandView::Next => "Failed to next: "@,
        CommandView::VolumeUp => "Failed to volume_up: "@,
        CommandView::VolumeDown => "Failed to volume_down: "@,
        CommandView::Shutdown => "Failed to shutdown: "@,
        CommandView::Shuffle(_) => "Failed to set shuffle: "@,
        CommandView::Repeat(_) => "Failed to set repeat: "@,
        CommandView::RepeatTrack(_) => "Failed to set track repeat: "@,
        CommandView::Disconnect { .. } => "Failed to disconnect: "@,
        CommandView::SetPosition(_) => "Failed to set position: "@,
        CommandView::SetVolume(_) => "Failed to set volume: "@,
        CommandView::Activate => "Failed to activate: "@,
    }
}

/// The wire text told to a peer that routed `CreateDevice` into the
/// dispatcher, which only serves device-scoped commands.
pub open spec fn misrouted_create_text() -> Seq<char> {
    "CreateDevice command should be handled by the server"@
}

/// What the dispatcher answers for a command whose engine operation came out
/// as `outcome` (the session-level result: either the engine's own failure,
/// wrapped, or the not-initialized fault).
pub open spec fn spec_execute(c: CommandView, outcome: Result<(), Seq<char>>) -> ResponseView {
    match c {
        CommandView::CreateDevice { .. } => ResponseView::failure(misrouted_create_text()),
        _ => match outcome {
            Ok(_) => ResponseView::plain_success(dispatch_success_text(c)),
            Err(e) => ResponseView::failure(dispatch_failure_intro(c) + e),
        },
    }
}

/// One entry of the routing table. A handler renders the session-level
/// outcome of its variant's engine operation into the wire response. The
/// plain transport handlers serve any variant (they read nothing from it);
/// the parameterized ones answer their `invalid_text` outside their variant.
pub trait CommandHandler {
    /// The command variants this handler serves.
    spec fn applicable(c: CommandView) -> bool;

    /// The wire text of a successful outcome.
    spec fn success_text(c: CommandView) -> Seq<char>;

    /// The prefix of the wire text of a failed outcome.
    spec fn failure_intro(c: CommandView) -> Seq<char>;

    /// The wire text answered when a command outside `applicable` reaches
    /// this handler.
    spec fn invalid_text() -> Seq<char>;

    fn handle(command: &Command, outcome: Result<(), String>) -> (r: CommandResponse)
        ensures
            Self::applicable(command@) && outcome is Ok ==> r@ == ResponseView::plain_success(
                Self::success_text(command@),
            ),
            outcome matches Err(e) ==> (Self::applicable(command@) ==> r@
                == ResponseView::failure(Self::failure_intro(command@) + e@)),
            !Self::applicable(command@) ==> r@ == ResponseView::failure(Self::invalid_text()),
    ;
}

pub struct PlayCommandHandler;

impl CommandHandler for PlayCommandHandler {
    open spec fn applicable(c: CommandView) -> bool {
        true
    }

    open spec fn success_text(c: CommandView) -> Seq<char> {
        "Playback started"@
    }

    open spec fn failure_intro(c: CommandView) -> Seq<char> {
        "Failed to play: "@
    }

    open spec fn invalid_text() -> Seq<char> {
        Seq::<char>::empty()
    }

    fn handle(command: &Command, outcome: Result<(), String>) -> (r: CommandResponse) {
        match outcome {
            Ok(()) => CommandResponse::success(String::from_str("Playback started"), None),
            Err(e) => CommandResponse::error(
                String::from_str("Failed to play: ").concat(e.as_str()),
            ),
        }
    }
}

pub struct PlayPauseCommandHandler;

impl CommandHandler for PlayPauseCommandHandler {
    open spec fn applicable(c: CommandView) -> bool {
        true
    }

    open spec fn success_text(c: CommandView) -> Seq<char> {
        "Playback toggled"@
    }

    open spec fn failure_intro(c: CommandView) -> Seq<char> {
        "Failed to play_pause: "@
    }

    open spec fn invalid_text() -> Seq<char> {
        Seq::<char>::empty()
    }

    fn handle(command: &Command, outcome: Result<(), String>) -> (r: CommandResponse) {
        match outcome {
            Ok(()) => CommandResponse::success(String::from_str("Playback toggled"), None),
            Err(e) => CommandResponse::error(
                String::from_str("Failed to play_pause: ").concat(e.as_str()),
            ),
        }
    }
}

pub struct PauseCommandHandler;

impl CommandHandler for PauseCommandHandler {
    open spec fn applicable(c: CommandView) -> bool {
        true
    }

    open spec fn success_text(c: CommandView) -> Seq<char> {
        "Playback paused"@
    }

    open spec fn failure_intro(c: CommandView) -> Seq<char> {
        "Failed to pause: "@
    }

    open spec fn invalid_text() -> Seq<char> {
        Seq::<char>::empty()
    }

    fn handle(command: &Command, outcome: Result<(), String>) -> (r: CommandResponse) {
        match outcome {
            Ok(()) => CommandResponse::success(String::from_str("Playback paused"), None),
            Err(e) => CommandResponse::error(
                String::from_str("Failed to pause: ").concat(e.as_str()),
            ),
        }
    }
}

pub struct PrevCommandHandler;

impl CommandHandler for PrevCommandHandler {
    open spec fn applicable(c: CommandView) -> bool {
        true
    }

    open spec fn success_text(c: CommandView) -> Seq<char> {
        "Previous track"@
    }

    open spec fn failure_intro(c: CommandView) -> Seq<char> {
        "Failed to prev: "@
    }

    open spec fn invalid_text() -> Seq<char> {
        Seq::<char>::empty()
    }

    fn handle(command: &Command, outcome: Result<(), String>) -> (r: CommandResponse) {
        match outcome {
            Ok(()) => CommandResponse::success(String::from_str("Previous track"), None),
            Err(e) => CommandResponse::error(
                String::from_str("Failed to prev: ").concat(e.as_str()),
            ),
        }
    }
}

pub struct NextCommandHandler;

impl CommandHandler for NextCommandHandler {
    open spec fn applicable(c: CommandView) -> bool {
        true
    }

    open spec fn success_text(c: CommandView) -> Seq<char> {
        "Next track"@
    }

    open spec fn failure_intro(c: CommandView) -> Seq<char> {
        "Failed to next: "@
    }

    open spec fn invalid_text() -> Seq<char> {
        Seq::<char>::empty()
    }

    fn handle(command: &Command, outcome: Result<(), String>) -> (r: CommandResponse) {
        match outcome {
            Ok(()) => CommandResponse::success(String::from_str("Next track"), None),
            Err(e) => CommandResponse::error(
                String::from_str("Failed to next: ").concat(e.as_str()),
            ),
        }
    }
}

pub struct VolumeUpCommandHandler;

impl CommandHandler for VolumeUpCommandHandler {
    open spec fn applicable(c: CommandView) -> bool {
        true
    }

    open spec fn success_text(c: CommandView) -> Seq<char> {
        "Volume increased"@
    }

    open spec fn failure_intro(c: CommandView) -> Seq<char> {
        "Failed to volume_up: "@
    }

    open spec fn invalid_text() -> Seq<char> {
        Seq::<char>::empty()
    }

    fn handle(command: &Command, outcome: Result<(), String>) -> (r: CommandResponse) {
        match outcome {
            Ok(()) => CommandResponse::success(String::from_str("Volume increased"), None),
            Err(e) => CommandResponse::error(
                String::from_str("Failed to volume_up: ").concat(e.as_str()),
            ),
        }
    }
}

pub struct VolumeDownCommandHandler;

impl CommandHandler for VolumeDownCommandHandler {
    open spec fn applicable(c: CommandView) -> bool {
        true
    }

    open spec fn success_text(c: CommandView) -> Seq<char> {
        "Volume decreased"@
    }

    open spec fn failure_intro(c: CommandView) -> Seq<char> {
        "Failed to volume_down: "@
    }

    open spec fn invalid_text() -> Seq<char> {
        Seq::<char>::empty()
    }

    fn handle(command: &Command, outcome: Result<(), String>) -> (r: CommandResponse) {
        match outcome {
            Ok(()) => CommandResponse::success(String::from_str("Volume decreased"), None),
            Err(e) => CommandResponse::error(
                String::from_str("Failed to volume_down: ").concat(e.as_str()),
            ),
        }
    }
}

pub struct ShutdownCommandHandler;

impl CommandHandler for ShutdownCommandHandler {
    open spec fn applicable(c: CommandView) -> bool {
        true
    }

    open spec fn success_text(c: CommandView) -> Seq<char> {
        "Device shutdown"@
    }

    open spec fn failure_intro(c: CommandView) -> Seq<char> {
        "Failed to shutdown: "@
    }

    open spec fn invalid_text() -> Seq<char> {
        Seq::<char>::empty()
    }

    fn handle(command: &Command, outcome: Result<(), String>) -> (r: CommandResponse) {
        match outcome {
            Ok(()) => CommandResponse::success(String::from_str("Device shutdown"), None),
            Err(e) => CommandResponse::error(
                String::from_str("Failed to shutdown: ").concat(e.as_str()),
            ),
        }
    }
}

pub struct ActivateCommandHandler;

impl CommandHandler for ActivateCommandHandler {
    open spec fn applicable(c: CommandView) -> bool {
        true
    }

    open spec fn success_text(c: CommandView) -> Seq<char> {
        "Device activated"@
    }

    open spec fn failure_intro(c: CommandView) -> Seq<char> {
        "Failed to activate: "@
    }

    open spec fn invalid_text() -> Seq<char> {
        Seq::<char>::empty()
    }

    fn handle(command: &Command, outcome: Result<(), String>) -> (r: CommandResponse) {
        match outcome {
            Ok(()) => CommandResponse::success(String::from_str("Device activated"), None),
            Err(e) => CommandResponse::error(
                String::from_str("Failed to activate: ").concat(e.as_str()),
            ),
        }
    }
}

pub struct ShuffleCommandHandler;

impl CommandHandler for ShuffleCommandHandler {
    open spec fn applicable(c: CommandView) -> bool {
        c is Shuffle
    }

    open spec fn success_text(c: CommandView) -> Seq<char> {
        dispatch_success_text(c)
    }

    open spec fn failure_intro(c: CommandView) -> Seq<char> {
        "Failed to set shuffle: "@
    }

    open spec fn invalid_text() -> Seq<char> {
        "Invalid shuffle command"@
    }

    fn handle(command: &Command, outcome: Result<(), String>) -> (r: CommandResponse) {
        if let Command::Shuffle(state) = command {
            match outcome {
                Ok(()) => CommandResponse::success(
                    if *state {
                        String::from_str("Shuffle enabled")
                    } else {
                        String::from_str("Shuffle disabled")
                    },
                    None,
                ),
                Err(e) => CommandResponse::error(
                    String::from_str("Failed to set shuffle: ").concat(e.as_str()),
                ),
            }
        } else {
            CommandResponse::error(String::from_str("Invalid shuffle command"))
        }
    }
}

pub struct RepeatCommandHandler;

impl CommandHandler for RepeatCommandHandler {
    open spec fn applicable(c: CommandView) -> bool {
        c is Repeat
    }

    open spec fn success_text(c: CommandView) -> Seq<char> {
        dispatch_success_text(c)
    }

    open spec fn failure_intro(c: CommandView) -> Seq<char> {
        "Failed to set repeat: "@
    }

    open spec fn invalid_text() -> Seq<char> {
        "Invalid repeat command"@
    }

    fn handle(command: &Command, outcome: Result<(), String>) -> (r: CommandResponse) {
        if let Command::Repeat(state) = command {
            match outcome {
                Ok(()) => CommandResponse::success(
                    if *state {
                        String::from_str("Repeat enabled")
                    } else {
                        String::from_str("Repeat disabled")
                    },
                    None,
                ),
                Err(e) => CommandResponse::error(
                    String::from_str("Failed to set repeat: ").concat(e.as_str()),
                ),
            }
        } else {
            CommandResponse::error(String::from_str("Invalid repeat command"))
        }
    }
}

pub struct RepeatTrackCommandHandler;

impl CommandHandler for RepeatTrackCommandHandler {
    open spec fn applicable(c: CommandView) -> bool {
        c is RepeatTrack
    }

    open spec fn success_text(c: CommandView) -> Seq<char> {
        dispatch_success_text(c)
    }

    open spec fn failure_intro(c: CommandView) -> Seq<char> {
        "Failed to set track repeat: "@
    }

    open spec fn invalid_text() -> Seq<char> {
        "Invalid repeat track command"@
    }

    fn handle(command: &Command, outcome: Result<(), String>) -> (r: CommandResponse) {
        if let Command::RepeatTrack(state) = command {
            match outcome {
                Ok(()) => CommandResponse::success(
                    if *state {
                        String::from_str("Track repeat enabled")
                    } else {
                        String::from_str("Track repeat disabled")
                    },
                    None,
                ),
                Err(e) => CommandResponse::error(
                    String::from_str("Failed to set track repeat: ").concat(e.as_str()),
                ),
            }
        } else {
            CommandResponse::error(String::from_str("Invalid repeat track command"))
        }
    }
}

pub struct DisconnectCommandHandler;

impl CommandHandler for DisconnectCommandHandler {
    open spec fn applicable(c: CommandView) -> bool {
        c is Disconnect
    }

    open spec fn success_text(c: CommandView) -> Seq<char> {
        "Device disconnected"@
    }

    open spec fn failure_intro(c: CommandView) -> Seq<char> {
        "Failed to disconnect: "@
    }

    open spec fn invalid_text() -> Seq<char> {
        "Invalid disconnect command"@
    }

    fn handle(command: &Command, outcome: Result<(), String>) -> (r: CommandResponse) {
        if let Command::Disconnect { .. } = command {
            match outcome {
                Ok(()) => CommandResponse::success(String::from_str("Device disconnected"), None),
                Err(e) => CommandResponse::error(
                    String::from_str("Failed to disconnect: ").concat(e.as_str()),
                ),
            }
        } else {
            CommandResponse::error(String::from_str("Invalid disconnect command"))
        }
    }
}

pub struct SetPositionCommandHandler;

impl CommandHandler for SetPositionCommandHandler {
    open spec fn applicable(c: CommandView) -> bool {
        c is SetPosition
    }

    open spec fn success_text(c: CommandView) -> Seq<char> {
        "Position updated"@
    }

    open spec fn failure_intro(c: CommandView) -> Seq<char> {
        "Failed to set position: "@
    }

    open spec fn invalid_text() -> Seq<char> {
        "Invalid set position command"@
    }

    fn handle(command: &Command, outcome: Result<(), String>) -> (r: CommandResponse) {
        if let Command::SetPosition(_) = command {
            match outcome {
                Ok(()) => CommandResponse::success(String::from_str("Position updated"), None),
                Err(e) => CommandResponse::error(
                    String::from_str("Failed to set position: ").concat(e.as_str()),
                ),
            }
        } else {
            CommandResponse::error(String::from_str("Invalid set position command"))
        }
    }
}

pub struct SetVolumeCommandHandler;

impl CommandHandler for SetVolumeCommandHandler {
    open spec fn applicable(c: CommandView) -> bool {
        c is SetVolume
    }

    open spec fn success_text(c: CommandView) -> Seq<char> {
        "Volume updated"@
    }

    open spec fn failure_intro(c: CommandView) -> Seq<char> {
        "Failed to set volume: "@
    }

    open spec fn invalid_text() -> Seq<char> {
        "Invalid set volume command"@
    }

    fn handle(command: &Command, outcome: Result<(), String>) -> (r: CommandResponse) {
        if let Command::SetVolume(_) = command {
            match outcome {
                Ok(()) => CommandResponse::success(String::from_str("Volume updated"), None),
                Err(e) => CommandResponse::error(
                    String::from_str("Failed to set volume: ").concat(e.as_str()),
                ),
            }
        } else {
            CommandResponse::error(String::from_str("Invalid set volume command"))
        }
    }
}

/// Idempotence of pause: the dispatcher keeps no state between commands, so
/// issuing pause twice in succession answers success both times whenever the
/// engine accepts both operations.
pub proof fn lemma_pause_idempotent(first: Result<(), Seq<char>>, second: Result<(), Seq<char>>)
    requires
        first is Ok,
        second is Ok,
    ensures
        spec_execute(CommandView::Pause, first).success,
        spec_execute(CommandView::Pause, second).success,
{
}

/// The routing table itself: one `execute` with one arm per command variant.
#[derive(Clone)]
pub struct CommandManager;

impl CommandManager {
    pub fn new() -> (r: Self)
        ensures
            r == CommandManager,
    {
        Self
    }

    /// Routes a device-scoped command to its handler, rendering the
    /// session-level outcome of its engine operation into the wire response;
    /// answers the misrouting error for `CreateDevice`, exactly as
    /// [`spec_execute`] states.
    pub fn execute(&self, command: Command, outcome: Result<(), String>) -> (r: CommandResponse)
        ensures
            r@ == spec_execute(command@, outcome_view(outcome)),
    {
        match command {
            Command::Play => PlayCommandHandler::handle(&command, outcome),
            Command::PlayPause => PlayPauseCommandHandler::handle(&command, outcome),
            Command::Pause => PauseCommandHandler::handle(&command, outcome),
            Command::Prev => PrevCommandHandler::handle(&command, outcome),
            Command::Next => NextCommandHandler::handle(&command, outcome),
            Command::VolumeUp => VolumeUpCommandHandler::handle(&command, outcome),
            Command::VolumeDown => VolumeDownCommandHandler::handle(&command, outcome),
            Command::Shutdown => ShutdownCommandHandler::handle(&command, outcome),
            Command::Shuffle(_) => ShuffleCommandHandler::handle(&command, outcome),
            Command::Repeat(_) => RepeatCommandHandler::handle(&command, outcome),
            Command::RepeatTrack(_) => RepeatTrackCommandHandler::handle(&command, outcome),
            Command::Disconnect { .. } => DisconnectCommandHandler::handle(&command, outcome),
            Command::SetPosition(_) => SetPositionCommandHandler::handle(&command, outcome),
            Command::SetVolume(_) => SetVolumeCommandHandler::handle(&command, outcome),
            Command::Activate => ActivateCommandHandler::handle(&command, outcome),
            Command::CreateDevice { .. } => CommandResponse::error(
                String::from_str("CreateDevice command should be handled by the server"),
            ),
        }
    }
}

} // verus!
