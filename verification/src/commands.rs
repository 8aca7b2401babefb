//! The command protocol: wire envelopes, typed commands, and the validating
//! translation between them.
//!
//! A remote peer sends a JSON envelope `{device_id?, command_type, params}`.
//! The fields a command may read from `params` are typed up front in
//! [`CommandParams`]; a key that is absent, or present with the wrong type,
//! is `None`. Translation into a [`Command`] validates per-variant parameters
//! and is a pure transform with no side effects.
use vstd::prelude::*;

verus! {

/// The typed parameter set of a wire envelope: each field holds the value of
/// the same-named key of the `params` object when that key is present with
/// the expected type (string, boolean, or unsigned integer), and `None`
/// otherwise.
pub struct CommandParams {
    pub token: Option<String>,
    pub device_name: Option<String>,
    pub state: Option<bool>,
    pub pause: Option<bool>,
    pub position: Option<u64>,
    pub volume: Option<u64>,
}

/// Mathematical image of [`CommandParams`]: strings as character sequences.
pub struct ParamsView {
    pub token: Option<Seq<char>>,
    pub device_name: Option<Seq<char>>,
    pub state: Option<bool>,
    pub pause: Option<bool>,
    pub position: Option<u64>,
    pub volume: Option<u64>,
}

pub open spec fn opt_str_view(o: Option<String>) -> Option<Seq<char>> {
    match o {
        Some(s) => Some(s@),
        None => None,
    }
}

impl View for CommandParams {
    type V = ParamsView;

    open spec fn view(&self) -> ParamsView {
        ParamsView {
            token: opt_str_view(self.token),
            device_name: opt_str_view(self.device_name),
            state: self.state,
            pause: self.pause,
            position: self.position,
            volume: self.volume,
        }
    }
}

impl CommandParams {
    /// A params object with no recognized keys.
    pub fn empty() -> (p: CommandParams)
        ensures
            p@ == ParamsView::empty(),
    {
        CommandParams {
            token: None,
            device_name: None,
            state: None,
            pause: None,
            position: None,
            volume: None,
        }
    }
}

impl ParamsView {
    pub open spec fn empty() -> ParamsView {
        ParamsView {
            token: None,
            device_name: None,
            state: None,
            pause: None,
            position: None,
            volume: None,
        }
    }
}

/// One inbound wire envelope, already shaped: an optional device identifier,
/// the command-type tag, and the typed parameter set.
pub struct CommandMessage {
    pub device_id: Option<String>,
    pub command_type: String,
    pub params: CommandParams,
}

/// Mathematical image of [`CommandMessage`].
pub struct MessageView {
    pub device_id: Option<Seq<char>>,
    pub command_type: Seq<char>,
    pub params: ParamsView,
}

impl View for CommandMessage {
    type V = MessageView;

    open spec fn view(&self) -> MessageView {
        MessageView {
            device_id: opt_str_view(self.device_id),
            command_type: self.command_type@,
            params: self.params@,
        }
    }
}

/// A validated operation against a playback device. Exactly one variant is
/// active per instance; every variant except `CreateDevice` is addressed to a
/// device identifier carried out-of-band in the envelope.
#[derive(Clone, Debug, PartialEq)]
pub enum Command {
    CreateDevice { token: String, device_name: Option<String> },
    Play,
    PlayPause,
    Pause,
    Prev,
    Next,
    VolumeUp,
    VolumeDown,
    Shutdown,
    Shuffle(bool),
    Repeat(bool),
    RepeatTrack(bool),
    Disconnect { pause: bool },
    SetPosition(u32),
    SetVolume(u16),
    Activate,
}

/// Mathematical image of [`Command`].
pub enum CommandView {
    CreateDevice { token: Seq<char>, device_name: Option<Seq<char>> },
    Play,
    PlayPause,
    Pause,
    Prev,
    Next,
    VolumeUp,
    VolumeDown,
    Shutdown,
    Shuffle(bool),
    Repeat(bool),
    RepeatTrack(bool),
    Disconnect { pause: bool },
    SetPosition(u32),
    SetVolume(u16),
    Activate,
}

impl View for Command {
    type V = CommandView;

    open spec fn view(&self) -> CommandView {
        match self {
            Command::CreateDevice { token, device_name } => CommandView::CreateDevice {
                token: token@,
                device_name: opt_str_view(*device_name),
            },
            Command::Play => CommandView::Play,
            Command::PlayPause => CommandView::PlayPause,
            Command::Pause => CommandView::Pause,
            Command::Prev => CommandView::Prev,
            Command::Next => CommandView::Next,
            Command::VolumeUp => CommandView::VolumeUp,
            Command::VolumeDown => CommandView::VolumeDown,
            Command::Shutdown => CommandView::Shutdown,
            Command::Shuffle(b) => CommandView::Shuffle(*b),
            Command::Repeat(b) => CommandView::Repeat(*b),
            Command::RepeatTrack(b) => CommandView::RepeatTrack(*b),
            Command::Disconnect { pause } => CommandView::Disconnect { pause: *pause },
            Command::SetPosition(p) => CommandView::SetPosition(*p),
            Command::SetVolume(v) => CommandView::SetVolume(*v),
            Command::Activate => CommandView::Activate,
        }
    }
}

/// A fault detected while validating a wire envelope, before the registry or
/// the engine is touched. Each variant renders to the exact wire text via
/// [`ProtocolError::message`].
#[derive(Clone, Debug, PartialEq)]
pub enum ProtocolError {
    /// `CreateDevice` without a string `token` parameter.
    MissingToken,
    /// `Shuffle` without a boolean `state` parameter.
    MissingShuffleState,
    /// `Repeat` without a boolean `state` parameter.
    MissingRepeatState,
    /// `RepeatTrack` without a boolean `state` parameter.
    MissingRepeatTrackState,
    /// `SetPosition` without a non-negative integer `position` parameter.
    MissingPosition,
    /// `SetVolume` without a non-negative integer `volume` parameter.
    MissingVolume,
    /// A `position` value that does not fit in 32 bits.
    PositionOutOfRange,
    /// A `volume` value that does not fit in 16 bits.
    VolumeOutOfRange,
    /// A command-type tag this protocol does not define; carries the tag.
    UnknownCommand(String),
    /// A device-scoped command whose envelope has no non-empty device identifier.
    MissingDeviceId,
}

/// Mathematical image of [`ProtocolError`].
pub enum ErrorView {
    MissingToken,
    MissingShuffleState,
    MissingRepeatState,
    MissingRepeatTrackState,
    MissingPosition,
    MissingVolume,
    PositionOutOfRange,
    VolumeOutOfRange,
    UnknownCommand(Seq<char>),
    MissingDeviceId,
}

impl View for ProtocolError {
    type V = ErrorView;

    open spec fn view(&self) -> ErrorView {
        match self {
            ProtocolError::MissingToken => ErrorView::MissingToken,
            ProtocolError::MissingShuffleState => ErrorView::MissingShuffleState,
            ProtocolError::MissingRepeatState => ErrorView::MissingRepeatState,
            ProtocolError::MissingRepeatTrackState => ErrorView::MissingRepeatTrackState,
            ProtocolError::MissingPosition => ErrorView::MissingPosition,
            ProtocolError::MissingVolume => ErrorView::MissingVolume,
            ProtocolError::PositionOutOfRange => ErrorView::PositionOutOfRange,
            ProtocolError::VolumeOutOfRange => ErrorView::VolumeOutOfRange,
            ProtocolError::UnknownCommand(t) => ErrorView::UnknownCommand(t@),
            ProtocolError::MissingDeviceId => ErrorView::MissingDeviceId,
        }
    }
}

impl ProtocolError {
    /// The wire text of this fault, exactly as [`spec_message`](Self::spec_message) states.
    pub fn message(&self) -> (r: String)
        ensures
            r@ == Self::spec_message(self@),
    {
        match self {
            ProtocolError::MissingToken => String::from_str("Missing token parameter"),
            ProtocolError::MissingShuffleState => String::from_str(
                "Missing or invalid shuffle state parameter",
            ),
            ProtocolError::MissingRepeatState => String::from_str(
                "Missing or invalid repeat state parameter",
            ),
            ProtocolError::MissingRepeatTrackState => String::from_str(
                "Missing or invalid repeat_track state parameter",
            ),
            ProtocolError::MissingPosition => String::from_str(
                "Missing or invalid position parameter",
            ),
            ProtocolError::MissingVolume => String::from_str("Missing or invalid volume parameter"),
            ProtocolError::PositionOutOfRange => String::from_str("Position value out of range"),
            ProtocolError::VolumeOutOfRange => String::from_str("Volume value out of range"),
            ProtocolError::UnknownCommand(t) => String::from_str("Unknown command type: ").concat(
                t.as_str(),
            ),
            ProtocolError::MissingDeviceId => String::from_str(
                "Device ID is required for this command",
            ),
        }
    }

    /// The wire text of each fault.
    pub open spec fn spec_message(e: ErrorView) -> Seq<char> {
        match e {
            ErrorView::MissingToken => "Missing token parameter"@,
            ErrorView::MissingShuffleState => "Missing or invalid shuffle state parameter"@,
            ErrorView::MissingRepeatState => "Missing or invalid repeat state parameter"@,
            ErrorView::MissingRepeatTrackState => "Missing or invalid repeat_track state parameter"@,
            ErrorView::MissingPosition => "Missing or invalid position parameter"@,
            ErrorView::MissingVolume => "Missing or invalid volume parameter"@,
            ErrorView::PositionOutOfRange => "Position value out of range"@,
            ErrorView::VolumeOutOfRange => "Volume value out of range"@,
            ErrorView::UnknownCommand(t) => "Unknown command type: "@ + t,
            ErrorView::MissingDeviceId => "Device ID is required for this command"@,
        }
    }
}

/// One response to one inbound command: a success flag, a human-readable
/// message, and, for a successful device creation, the generated identifier.
#[derive(Clone, Debug, PartialEq)]
pub struct ResponseData {
    pub device_id: String,
}

/// See [`ResponseData`].
#[derive(Clone, Debug, PartialEq)]
pub struct CommandResponse {
    pub success: bool,
    pub message: String,
    pub data: Option<ResponseData>,
}

/// Mathematical image of [`CommandResponse`]; `data` is the device identifier
/// it carries, when it carries one.
pub struct ResponseView {
    pub success: bool,
    pub message: Seq<char>,
    pub data: Option<Seq<char>>,
}

impl View for CommandResponse {
    type V = ResponseView;

    open spec fn view(&self) -> ResponseView {
        ResponseView {
            success: self.success,
            message: self.message@,
            data: match self.data {
                Some(ref d) => Some(d.device_id@),
                None => None,
            },
        }
    }
}

impl ResponseView {
    /// The image of an error response with the given message.
    pub open spec fn failure(message: Seq<char>) -> ResponseView {
        ResponseView { success: false, message, data: None }
    }

    /// The image of a success response with the given message and no payload.
    pub open spec fn plain_success(message: Seq<char>) -> ResponseView {
        ResponseView { success: true, message, data: None }
    }
}

impl CommandResponse {
    /// A successful response carrying `message` and, optionally, a device
    /// identifier payload.
    pub fn success(message: String, data: Option<ResponseData>) -> (r: CommandResponse)
        ensures
            r@ == (ResponseView {
                success: true,
                message: message@,
                data: match data {
                    Some(d) => Some(d.device_id@),
                    None => None,
                },
            }),
    {
        CommandResponse { success: true, message, data }
    }

    /// A failed response carrying `message` and no payload.
    pub fn error(message: String) -> (r: CommandResponse)
        ensures
            r@ == ResponseView::failure(message@),
    {
        CommandResponse { success: false, message, data: None }
    }
}

/// What a device-scoped command-type tag with the given parameters translates
/// to: the typed command, or the validation fault. `CreateDevice` is not a
/// device-scoped tag and falls to `UnknownCommand` here; [`spec_translate`]
/// handles it before consulting this function.
pub open spec fn spec_bare_command(t: Seq<char>, p: ParamsView) -> Result<CommandView, ErrorView> {
    if t == "Play"@ {
        Ok(CommandView::Play)
    } else if t == "PlayPause"@ {
        Ok(CommandView::PlayPause)
    } else if t == "Pause"@ {
        Ok(CommandView::Pause)
    } else if t == "Prev"@ {
        Ok(CommandView::Prev)
    } else if t == "Next"@ {
        Ok(CommandView::Next)
    } else if t == "VolumeUp"@ {
        Ok(CommandView::VolumeUp)
    } else if t == "VolumeDown"@ {
        Ok(CommandView::VolumeDown)
    } else if t == "Shutdown"@ {
        Ok(CommandView::Shutdown)
    } else if t == "Shuffle"@ {
        match p.state {
            Some(b) => Ok(CommandView::Shuffle(b)),
            None => Err(ErrorView::MissingShuffleState),
        }
    } else if t == "Repeat"@ {
        match p.state {
            Some(b) => Ok(CommandView::Repeat(b)),
            None => Err(ErrorView::MissingRepeatState),
        }
    } else if t == "RepeatTrack"@ {
        match p.state {
            Some(b) => Ok(CommandView::RepeatTrack(b)),
            None => Err(ErrorView::MissingRepeatTrackState),
        }
    } else if t == "Disconnect"@ {
        match p.pause {
            Some(b) => Ok(CommandView::Disconnect { pause: b }),
            None => Ok(CommandView::Disconnect { pause: false }),
        }
    } else if t == "SetPosition"@ {
        match p.position {
            Some(v) => if v <= u32::MAX as u64 {
                Ok(CommandView::SetPosition(v as u32))
            } else {
                Err(ErrorView::PositionOutOfRange)
            },
            None => Err(ErrorView::MissingPosition),
        }
    } else if t == "SetVolume"@ {
        match p.volume {
            Some(v) => if v <= u16::MAX as u64 {
                Ok(CommandView::SetVolume(v as u16))
            } else {
                Err(ErrorView::VolumeOutOfRange)
            },
            None => Err(ErrorView::MissingVolume),
        }
    } else if t == "Activate"@ {
        Ok(CommandView::Activate)
    } else {
        Err(ErrorView::UnknownCommand(t))
    }
}

/// What a whole envelope translates to: the addressed device identifier
/// (empty for `CreateDevice`, which addresses no existing device) paired with
/// the typed command, or the validation fault. `CreateDevice` needs a string
/// `token`; every other known tag needs a non-empty `device_id` in the
/// envelope; an unknown tag fails before the device identifier is looked at.
pub open spec fn spec_translate(m: MessageView) -> Result<(Seq<char>, CommandView), ErrorView> {
    if m.command_type == "CreateDevice"@ {
        match m.params.token {
            Some(t) => Ok(
                (
                    Seq::<char>::empty(),
                    CommandView::CreateDevice { token: t, device_name: m.params.device_name },
                ),
            ),
            None => Err(ErrorView::MissingToken),
        }
    } else {
        match spec_bare_command(m.command_type, m.params) {
            Ok(c) => match m.device_id {
                Some(d) => if d.len() > 0 {
                    Ok((d, c))
                } else {
                    Err(ErrorView::MissingDeviceId)
                },
                None => Err(ErrorView::MissingDeviceId),
            },
            Err(e) => Err(e),
        }
    }
}

/// True when the string equals the literal, decided executably.
fn type_is(s: &String, lit: &str) -> (r: bool)
    ensures
        r == (s@ == lit@),
{
    let other = String::from_str(lit);
    *s == other
}

/// Builds the device-scoped command named by `command_type`, validating its
/// parameters; the executable counterpart of [`spec_bare_command`].
fn bare_command(command_type: &String, params: &CommandParams) -> (r: Result<Command, ProtocolError>)
    ensures
        match (r, spec_bare_command(command_type@, params@)) {
            (Ok(c), Ok(sc)) => c@ == sc,
            (Err(e), Err(se)) => e@ == se,
            _ => false,
        },
{
    if type_is(command_type, "Play") {
        Ok(Command::Play)
    } else if type_is(command_type, "PlayPause") {
        Ok(Command::PlayPause)
    } else if type_is(command_type, "Pause") {
        Ok(Command::Pause)
    } else if type_is(command_type, "Prev") {
        Ok(Command::Prev)
    } else if type_is(command_type, "Next") {
        Ok(Command::Next)
    } else if type_is(command_type, "VolumeUp") {
        Ok(Command::VolumeUp)
    } else if type_is(command_type, "VolumeDown") {
        Ok(Command::VolumeDown)
    } else if type_is(command_type, "Shutdown") {
        Ok(Command::Shutdown)
    } else if type_is(command_type, "Shuffle") {
        match params.state {
            Some(b) => Ok(Command::Shuffle(b)),
            None => Err(ProtocolError::MissingShuffleState),
        }
    } else if type_is(command_type, "Repeat") {
        match params.state {
            Some(b) => Ok(Command::Repeat(b)),
            None => Err(ProtocolError::MissingRepeatState),
        }
    } else if type_is(command_type, "RepeatTrack") {
        match params.state {
            Some(b) => Ok(Command::RepeatTrack(b)),
            None => Err(ProtocolError::MissingRepeatTrackState),
        }
    } else if type_is(command_type, "Disconnect") {
        match params.pause {
            Some(b) => Ok(Command::Disconnect { pause: b }),
            None => Ok(Command::Disconnect { pause: false }),
        }
    } else if type_is(command_type, "SetPosition") {
        match params.position {
            Some(v) => if v <= u32::MAX as u64 {
                Ok(Command::SetPosition(v as u32))
            } else {
                Err(ProtocolError::PositionOutOfRange)
            },
            None => Err(ProtocolError::MissingPosition),
        }
    } else if type_is(command_type, "SetVolume") {
        match params.volume {
            Some(v) => if v <= u16::MAX as u64 {
                Ok(Command::SetVolume(v as u16))
            } else {
                Err(ProtocolError::VolumeOutOfRange)
            },
            None => Err(ProtocolError::MissingVolume),
        }
    } else if type_is(command_type, "Activate") {
        Ok(Command::Activate)
    } else {
        Err(ProtocolError::UnknownCommand(command_type.clone()))
    }
}

/// A message with the given tag, the given device identifier, and the given
/// parameter set.
pub open spec fn spec_message_with(
    t: Seq<char>,
    device_id: Option<Seq<char>>,
    params: ParamsView,
) -> MessageView {
    MessageView { device_id, command_type: t, params }
}

/// The wire envelope a command translates back out to: the variant's tag,
/// exactly the parameters that variant reads, and the device identifier for
/// every variant but `CreateDevice` (which addresses no existing device).
pub open spec fn spec_to_message(c: CommandView, device_id: Seq<char>) -> MessageView {
    match c {
        CommandView::CreateDevice { token, device_name } => spec_message_with(
            "CreateDevice"@,
            None,
            ParamsView { token: Some(token), device_name, ..ParamsView::empty() },
        ),
        CommandView::Play => spec_message_with("Play"@, Some(device_id), ParamsView::empty()),
        CommandView::PlayPause => spec_message_with(
            "PlayPause"@,
            Some(device_id),
            ParamsView::empty(),
        ),
        CommandView::Pause => spec_message_with("Pause"@, Some(device_id), ParamsView::empty()),
        CommandView::Prev => spec_message_with("Prev"@, Some(device_id), ParamsView::empty()),
        CommandView::Next => spec_message_with("Next"@, Some(device_id), ParamsView::empty()),
        CommandView::VolumeUp => spec_message_with(
            "VolumeUp"@,
            Some(device_id),
            ParamsView::empty(),
        ),
        CommandView::VolumeDown => spec_message_with(
            "VolumeDown"@,
            Some(device_id),
            ParamsView::empty(),
        ),
        CommandView::Shutdown => spec_message_with(
            "Shutdown"@,
            Some(device_id),
            ParamsView::empty(),
        ),
        CommandView::Shuffle(b) => spec_message_with(
            "Shuffle"@,
            Some(device_id),
            ParamsView { state: Some(b), ..ParamsView::empty() },
        ),
        CommandView::Repeat(b) => spec_message_with(
            "Repeat"@,
            Some(device_id),
            ParamsView { state: Some(b), ..ParamsView::empty() },
        ),
        CommandView::RepeatTrack(b) => spec_message_with(
            "RepeatTrack"@,
            Some(device_id),
            ParamsView { state: Some(b), ..ParamsView::empty() },
        ),
        CommandView::Disconnect { pause } => spec_message_with(
            "Disconnect"@,
            Some(device_id),
            ParamsView { pause: Some(pause), ..ParamsView::empty() },
        ),
        CommandView::SetPosition(p) => spec_message_with(
            "SetPosition"@,
            Some(device_id),
            ParamsView { position: Some(p as u64), ..ParamsView::empty() },
        ),
        CommandView::SetVolume(v) => spec_message_with(
            "SetVolume"@,
            Some(device_id),
            ParamsView { volume: Some(v as u64), ..ParamsView::empty() },
        ),
        CommandView::Activate => spec_message_with(
            "Activate"@,
            Some(device_id),
            ParamsView::empty(),
        ),
    }
}

/// Round trip: translating any command to a wire envelope and back yields an
/// equivalent command, addressed to the same device. A device-scoped command
/// needs a non-empty identifier to carry; `CreateDevice` carries none and
/// translates back with the empty identifier.
pub proof fn lemma_command_round_trip(c: CommandView, device_id: Seq<char>)
    requires
        !(c is CreateDevice) ==> device_id.len() > 0,
    ensures
        spec_translate(spec_to_message(c, device_id)) == Ok::<
            (Seq<char>, CommandView),
            ErrorView,
        >(
            (
                if c is CreateDevice {
                    Seq::<char>::empty()
                } else {
                    device_id
                },
                c,
            ),
        ),
{
    reveal_strlit("CreateDevice");
    reveal_strlit("Play");
    reveal_strlit("PlayPause");
    reveal_strlit("Pause");
    reveal_strlit("Prev");
    reveal_strlit("Next");
    reveal_strlit("VolumeUp");
    reveal_strlit("VolumeDown");
    reveal_strlit("Shutdown");
    reveal_strlit("Shuffle");
    reveal_strlit("Repeat");
    reveal_strlit("RepeatTrack");
    reveal_strlit("Disconnect");
    reveal_strlit("SetPosition");
    reveal_strlit("SetVolume");
    reveal_strlit("Activate");
    assert("CreateDevice"@.len() == 12);
    assert("Play"@.len() == 4);
    assert("PlayPause"@.len() == 9);
    assert("Pause"@.len() == 5);
    assert("Prev"@.len() == 4);
    assert("Next"@.len() == 4);
    assert("VolumeUp"@.len() == 8);
    assert("VolumeDown"@.len() == 10);
    assert("Shutdown"@.len() == 8);
    assert("Shuffle"@.len() == 7);
    assert("Repeat"@.len() == 6);
    assert("RepeatTrack"@.len() == 11);
    assert("Disconnect"@.len() == 10);
    assert("SetPosition"@.len() == 11);
    assert("SetVolume"@.len() == 9);
    assert("Activate"@.len() == 8);
    assert("Activate"@[0] == 'A');
    assert("Disconnect"@[0] == 'D');
    assert("Next"@[0] == 'N');
    assert("Play"@[0] == 'P');
    assert("Play"@[1] == 'l');
    assert("PlayPause"@[0] == 'P');
    assert("Prev"@[0] == 'P');
    assert("Prev"@[1] == 'r');
    assert("RepeatTrack"@[0] == 'R');
    assert("SetPosition"@[0] == 'S');
    assert("SetVolume"@[0] == 'S');
    assert("Shutdown"@[0] == 'S');
    assert("VolumeDown"@[0] == 'V');
    assert("VolumeUp"@[0] == 'V');
    assert("CreateDevice"@ != "Play"@);
    assert("CreateDevice"@ != "PlayPause"@);
    assert("CreateDevice"@ != "Pause"@);
    assert("CreateDevice"@ != "Prev"@);
    assert("CreateDevice"@ != "Next"@);
    assert("CreateDevice"@ != "VolumeUp"@);
    assert("CreateDevice"@ != "VolumeDown"@);
    assert("CreateDevice"@ != "Shutdown"@);
    assert("CreateDevice"@ != "Shuffle"@);
    assert("CreateDevice"@ != "Repeat"@);
    assert("CreateDevice"@ != "RepeatTrack"@);
    assert("CreateDevice"@ != "Disconnect"@);
    assert("CreateDevice"@ != "SetPosition"@);
    assert("CreateDevice"@ != "SetVolume"@);
    assert("CreateDevice"@ != "Activate"@);
    assert("Play"@ != "PlayPause"@);
    assert("Play"@ != "Pause"@);
    assert("Play"@ != "Prev"@);
    assert("Play"@ != "Next"@);
    assert("Play"@ != "VolumeUp"@);
    assert("Play"@ != "VolumeDown"@);
    assert("Play"@ != "Shutdown"@);
    assert("Play"@ != "Shuffle"@);
    assert("Play"@ != "Repeat"@);
    assert("Play"@ != "RepeatTrack"@);
    assert("Play"@ != "Disconnect"@);
    assert("Play"@ != "SetPosition"@);
    assert("Play"@ != "SetVolume"@);
    assert("Play"@ != "Activate"@);
    assert("PlayPause"@ != "Pause"@);
    assert("PlayPause"@ != "Prev"@);
    assert("PlayPause"@ != "Next"@);
    assert("PlayPause"@ != "VolumeUp"@);
    assert("PlayPause"@ != "VolumeDown"@);
    assert("PlayPause"@ != "Shutdown"@);
    assert("PlayPause"@ != "Shuffle"@);
    assert("PlayPause"@ != "Repeat"@);
    assert("PlayPause"@ != "RepeatTrack"@);
    assert("PlayPause"@ != "Disconnect"@);
    assert("PlayPause"@ != "SetPosition"@);
    assert("PlayPause"@ != "SetVolume"@);
    assert("PlayPause"@ != "Activate"@);
    assert("Pause"@ != "Prev"@);
    assert("Pause"@ != "Next"@);
    assert("Pause"@ != "VolumeUp"@);
    assert("Pause"@ != "VolumeDown"@);
    assert("Pause"@ != "Shutdown"@);
    assert("Pause"@ != "Shuffle"@);
    assert("Pause"@ != "Repeat"@);
    assert("Pause"@ != "RepeatTrack"@);
    assert("Pause"@ != "Disconnect"@);
    assert("Pause"@ != "SetPosition"@);
    assert("Pause"@ != "SetVolume"@);
    assert("Pause"@ != "Activate"@);
    assert("Prev"@ != "Next"@);
    assert("Prev"@ != "VolumeUp"@);
    assert("Prev"@ != "VolumeDown"@);
    assert("Prev"@ != "Shutdown"@);
    assert("Prev"@ != "Shuffle"@);
    assert("Prev"@ != "Repeat"@);
    assert("Prev"@ != "RepeatTrack"@);
    assert("Prev"@ != "Disconnect"@);
    assert("Prev"@ != "SetPosition"@);
    assert("Prev"@ != "SetVolume"@);
    assert("Prev"@ != "Activate"@);
    assert("Next"@ != "VolumeUp"@);
    assert("Next"@ != "VolumeDown"@);
    assert("Next"@ != "Shutdown"@);
    assert("Next"@ != "Shuffle"@);
    assert("Next"@ != "Repeat"@);
    assert("Next"@ != "RepeatTrack"@);
    assert("Next"@ != "Disconnect"@);
    assert("Next"@ != "SetPosition"@);
    assert("Next"@ != "SetVolume"@);
    assert("Next"@ != "Activate"@);
    assert("VolumeUp"@ != "VolumeDown"@);
    assert("VolumeUp"@ != "Shutdown"@);
    assert("VolumeUp"@ != "Shuffle"@);
    assert("VolumeUp"@ != "Repeat"@);
    assert("VolumeUp"@ != "RepeatTrack"@);
    assert("VolumeUp"@ != "Disconnect"@);
    assert("VolumeUp"@ != "SetPosition"@);
    assert("VolumeUp"@ != "SetVolume"@);
    assert("VolumeUp"@ != "Activate"@);
    assert("VolumeDown"@ != "Shutdown"@);
    assert("VolumeDown"@ != "Shuffle"@);
    assert("VolumeDown"@ != "Repeat"@);
    assert("VolumeDown"@ != "RepeatTrack"@);
    assert("VolumeDown"@ != "Disconnect"@);
    assert("VolumeDown"@ != "SetPosition"@);
    assert("VolumeDown"@ != "SetVolume"@);
    assert("VolumeDown"@ != "Activate"@);
    assert("Shutdown"@ != "Shuffle"@);
    assert("Shutdown"@ != "Repeat"@);
    assert("Shutdown"@ != "RepeatTrack"@);
    assert("Shutdown"@ != "Disconnect"@);
    assert("Shutdown"@ != "SetPosition"@);
    assert("Shutdown"@ != "SetVolume"@);
    assert("Shutdown"@ != "Activate"@);
    assert("Shuffle"@ != "Repeat"@);
    assert("Shuffle"@ != "RepeatTrack"@);
    assert("Shuffle"@ != "Disconnect"@);
    assert("Shuffle"@ != "SetPosition"@);
    assert("Shuffle"@ != "SetVolume"@);
    assert("Shuffle"@ != "Activate"@);
    assert("Repeat"@ != "RepeatTrack"@);
    assert("Repeat"@ != "Disconnect"@);
    assert("Repeat"@ != "SetPosition"@);
    assert("Repeat"@ != "SetVolume"@);
    assert("Repeat"@ != "Activate"@);
    assert("RepeatTrack"@ != "Disconnect"@);
    assert("RepeatTrack"@ != "SetPosition"@);
    assert("RepeatTrack"@ != "SetVolume"@);
    assert("RepeatTrack"@ != "Activate"@);
    assert("Disconnect"@ != "SetPosition"@);
    assert("Disconnect"@ != "SetVolume"@);
    assert("Disconnect"@ != "Activate"@);
    assert("SetPosition"@ != "SetVolume"@);
    assert("SetPosition"@ != "Activate"@);
    assert("SetVolume"@ != "Activate"@);
}

impl Command {
    /// Builds the wire envelope this command translates back out to, exactly
    /// as [`spec_to_message`] states.
    pub fn to_message(self, device_id: String) -> (m: CommandMessage)
        ensures
            m@ == spec_to_message(self@, device_id@),
    {
        match self {
            Command::CreateDevice { token, device_name } => CommandMessage {
                device_id: None,
                command_type: String::from_str("CreateDevice"),
                params: CommandParams {
                    token: Some(token),
                    device_name,
                    state: None,
                    pause: None,
                    position: None,
                    volume: None,
                },
            },
            Command::Play => CommandMessage {
                device_id: Some(device_id),
                command_type: String::from_str("Play"),
                params: CommandParams::empty(),
            },
            Command::PlayPause => CommandMessage {
                device_id: Some(device_id),
                command_type: String::from_str("PlayPause"),
                params: CommandParams::empty(),
            },
            Command::Pause => CommandMessage {
                device_id: Some(device_id),
                command_type: String::from_str("Pause"),
                params: CommandParams::empty(),
            },
            Command::Prev => CommandMessage {
                device_id: Some(device_id),
                command_type: String::from_str("Prev"),
                params: CommandParams::empty(),
            },
            Command::Next => CommandMessage {
                device_id: Some(device_id),
                command_type: String::from_str("Next"),
                params: CommandParams::empty(),
            },
            Command::VolumeUp => CommandMessage {
                device_id: Some(device_id),
                command_type: String::from_str("VolumeUp"),
                params: CommandParams::empty(),
            },
            Command::VolumeDown => CommandMessage {
                device_id: Some(device_id),
                command_type: String::from_str("VolumeDown"),
                params: CommandParams::empty(),
            },
            Command::Shutdown => CommandMessage {
                device_id: Some(device_id),
                command_type: String::from_str("Shutdown"),
                params: CommandParams::empty(),
            },
            Command::Shuffle(b) => CommandMessage {
                device_id: Some(device_id),
                command_type: String::from_str("Shuffle"),
                params: CommandParams {
                    state: Some(b),
                    token: None,
                    device_name: None,
                    pause: None,
                    position: None,
                    volume: None,
                },
            },
            Command::Repeat(b) => CommandMessage {
                device_id: Some(device_id),
                command_type: String::from_str("Repeat"),
                params: CommandParams {
                    state: Some(b),
                    token: None,
                    device_name: None,
                    pause: None,
                    position: None,
                    volume: None,
                },
            },
            Command::RepeatTrack(b) => CommandMessage {
                device_id: Some(device_id),
                command_type: String::from_str("RepeatTrack"),
                params: CommandParams {
                    state: Some(b),
                    token: None,
                    device_name: None,
                    pause: None,
                    position: None,
                    volume: None,
                },
            },
            Command::Disconnect { pause } => CommandMessage {
                device_id: Some(device_id),
                command_type: String::from_str("Disconnect"),
                params: CommandParams {
                    pause: Some(pause),
                    token: None,
                    device_name: None,
                    state: None,
                    position: None,
                    volume: None,
                },
            },
            Command::SetPosition(p) => CommandMessage {
                device_id: Some(device_id),
                command_type: String::from_str("SetPosition"),
                params: CommandParams {
                    position: Some(p as u64),
                    token: None,
                    device_name: None,
                    state: None,
                    pause: None,
                    volume: None,
                },
            },
            Command::SetVolume(v) => CommandMessage {
                device_id: Some(device_id),
                command_type: String::from_str("SetVolume"),
                params: CommandParams {
                    volume: Some(v as u64),
                    token: None,
                    device_name: None,
                    state: None,
                    pause: None,
                    position: None,
                },
            },
            Command::Activate => CommandMessage {
                device_id: Some(device_id),
                command_type: String::from_str("Activate"),
                params: CommandParams::empty(),
            },
        }
    }

    /// Translates a wire envelope into the device identifier it addresses and
    /// the validated command, exactly as [`spec_translate`] states: the
    /// identifier comes back empty for `CreateDevice` and non-empty for every
    /// other variant.
    pub fn from_message(msg: CommandMessage) -> (r: Result<(String, Command), ProtocolError>)
        ensures
            match (r, spec_translate(msg@)) {
                (Ok((id, c)), Ok((sid, sc))) => id@ == sid && c@ == sc,
                (Err(e), Err(se)) => e@ == se,
                _ => false,
            },
    {
        if type_is(&msg.command_type, "CreateDevice") {
            match msg.params.token {
                Some(token) => Ok(
                    (
                        String::new(),
                        Command::CreateDevice { token, device_name: msg.params.device_name },
                    ),
                ),
                None => Err(ProtocolError::MissingToken),
            }
        } else {
            match bare_command(&msg.command_type, &msg.params) {
                Ok(c) => match msg.device_id {
                    Some(id) => if !id.as_str().is_empty() {
                        Ok((id, c))
                    } else {
                        Err(ProtocolError::MissingDeviceId)
                    },
                    None => Err(ProtocolError::MissingDeviceId),
                },
                Err(e) => Err(e),
            }
        }
    }
}

} // verus!
