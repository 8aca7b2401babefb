//! The per-device session model and the capability surface of the playback
//! engine.
//!
//! The engine itself (Spotify Connect transport, session crypto, decoding) is
//! an external collaborator owned by the embedding program. This module keeps
//! the verified half of a session: whether an engine is attached, which engine
//! operation each request demands, and how an engine outcome is wrapped into
//! the session-level result the dispatcher reports.
use vstd::prelude::*;

verus! {

/// One operation of the playback engine's transport capability surface,
/// invoked synchronously and answering `Result<(), error text>`.
#[derive(Clone, Copy, Debug, PartialEq, Eq, Structural)]
pub enum EngineOp {
    Shutdown,
    Play,
    PlayPause,
    Pause,
    Prev,
    Next,
    VolumeUp,
    VolumeDown,
    Shuffle(bool),
    Repeat(bool),
    RepeatTrack(bool),
    SetVolume(u16),
    SetPositionMs(u32),
    Disconnect(bool),
    Activate,
}

/// The engine-side name of each operation, used in error texts.
pub open spec fn spec_op_name(op: EngineOp) -> Seq<char> {
    match op {
        EngineOp::Shutdown => "shutdown"@,
        EngineOp::Play => "play"@,
        EngineOp::PlayPause => "play_pause"@,
        EngineOp::Pause => "pause"@,
        EngineOp::Prev => "prev"@,
        EngineOp::Next => "next"@,
        EngineOp::VolumeUp => "volume_up"@,
        EngineOp::VolumeDown => "volume_down"@,
        EngineOp::Shuffle(_) => "shuffle"@,
        EngineOp::Repeat(_) => "repeat"@,
        EngineOp::RepeatTrack(_) => "repeat_track"@,
        EngineOp::SetVolume(_) => "set_volume"@,
        EngineOp::SetPositionMs(_) => "set_position_ms"@,
        EngineOp::Disconnect(_) => "disconnect"@,
        EngineOp::Activate => "activate"@,
    }
}

/// Executable counterpart of [`spec_op_name`].
pub fn op_name(op: EngineOp) -> (r: &'static str)
    ensures
        r@ == spec_op_name(op),
{
    match op {
        EngineOp::Shutdown => "shutdown",
        EngineOp::Play => "play",
        EngineOp::PlayPause => "play_pause",
        EngineOp::Pause => "pause",
        EngineOp::Prev => "prev",
        EngineOp::Next => "next",
        EngineOp::VolumeUp => "volume_up",
        EngineOp::VolumeDown => "volume_down",
        EngineOp::Shuffle(_) => "shuffle",
        EngineOp::Repeat(_) => "repeat",
        EngineOp::RepeatTrack(_) => "repeat_track",
        EngineOp::SetVolume(_) => "set_volume",
        EngineOp::SetPositionMs(_) => "set_position_ms",
        EngineOp::Disconnect(_) => "disconnect",
        EngineOp::Activate => "activate",
    }
}

/// The session-level text reported when no engine is attached yet.
pub open spec fn not_initialized_text() -> Seq<char> {
    "Spotify Connect device not initialized"@
}

/// The session-level text wrapped around a failed engine call.
pub open spec fn op_failure_text(op: EngineOp, engine_error: Seq<char>) -> Seq<char> {
    "Failed to execute "@ + spec_op_name(op) + ": "@ + engine_error
}

/// The mathematical image of a session-level outcome.
pub open spec fn outcome_view(o: Result<(), String>) -> Result<(), Seq<char>> {
    match o {
        Ok(_) => Ok(()),
        Err(e) => Err(e@),
    }
}

/// What [`op_outcome`] makes of the engine's raw answer to `op`.
pub open spec fn spec_op_outcome(op: EngineOp, raw: Result<(), Seq<char>>) -> Result<
    (),
    Seq<char>,
> {
    match raw {
        Ok(_) => Ok(()),
        Err(e) => Err(op_failure_text(op, e)),
    }
}

/// One virtual playback device session as the verified core sees it: its
/// identifier, its display name, and whether a playback engine has been
/// attached. The engine handle itself lives with the embedding program.
pub struct SpotifyClient {
    initialized: bool,
    device_name: String,
    device_id: String,
}

/// Mathematical image of [`SpotifyClient`].
pub struct ClientView {
    pub initialized: bool,
    pub device_name: Seq<char>,
    pub device_id: Seq<char>,
}

impl View for SpotifyClient {
    type V = ClientView;

    closed spec fn view(&self) -> ClientView {
        ClientView {
            initialized: self.initialized,
            device_name: self.device_name@,
            device_id: self.device_id@,
        }
    }
}

impl SpotifyClient {
    /// A fresh session with no engine attached.
    pub fn new() -> (r: SpotifyClient)
        ensures
            r@ == (ClientView {
                initialized: false,
                device_name: Seq::<char>::empty(),
                device_id: Seq::<char>::empty(),
            }),
    {
        SpotifyClient { initialized: false, device_name: String::new(), device_id: String::new() }
    }

    /// Records that an engine was successfully initialized for this session
    /// under the given display name and identifier.
    pub fn attach_engine(&mut self, device_name: String, device_id: String)
        ensures
            final(self)@ == (ClientView {
                initialized: true,
                device_name: device_name@,
                device_id: device_id@,
            }),
    {
        self.initialized = true;
        self.device_name = device_name;
        self.device_id = device_id;
    }

    pub fn is_initialized(&self) -> (r: bool)
        ensures
            r == self@.initialized,
    {
        self.initialized
    }

    /// Decides whether an engine operation may be issued against this
    /// session: the operation itself when an engine is attached, and the
    /// not-initialized fault otherwise.
    pub fn request(&self, op: EngineOp) -> (r: Result<EngineOp, String>)
        ensures
            self@.initialized ==> r == Ok::<EngineOp, String>(op),
            !self@.initialized ==> (r matches Err(e) && e@ == not_initialized_text()),
    {
        if self.initialized {
            Ok(op)
        } else {
            Err(String::from_str("Spotify Connect device not initialized"))
        }
    }
}

/// Wraps what the engine answered to `op` into the session-level result: a
/// failure is prefixed with which operation could not be executed, exactly as
/// [`op_failure_text`] states.
pub fn op_outcome(op: EngineOp, raw: Result<(), String>) -> (r: Result<(), String>)
    ensures
        outcome_view(r) == spec_op_outcome(op, outcome_view(raw)),
{
    match raw {
        Ok(()) => Ok(()),
        Err(e) => Err(
            String::from_str("Failed to execute ").concat(op_name(op)).concat(": ").concat(
                e.as_str(),
            ),
        ),
    }
}

} // verus!
