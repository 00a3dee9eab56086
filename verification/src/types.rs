//! The protocol's data model: request kinds, event kinds, and the typed
//! response shapes, with their wire discriminators and canonical names.
//!
//! Strings that travel inside payloads (workspace names, output names, the
//! event names of a subscription request) are held as plain byte vectors:
//! a payload is an opaque byte sequence at the wire level, and the registry
//! decodes it byte for byte.

use vstd::prelude::*;

verus! {

/// Why a reply failed to decode.
#[derive(Debug, Clone, Copy, PartialEq, Eq, Structural)]
pub enum DecodeError {
    /// The payload is not the JSON shape the kind implies.
    ShapeMismatch,
    /// A received kind value names no known request kind.
    UnknownKind,
}

/// A screen rectangle: position and size as non-negative integers.
#[derive(Debug, Clone, Copy, PartialEq, Eq, Structural)]
pub struct Rect {
    pub x: u64,
    pub y: u64,
    pub width: u64,
    pub height: u64,
}

/// One workspace descriptor from a workspace-query reply.
#[derive(Debug, Clone, PartialEq, Eq)]
pub struct WorkspaceResponse {
    pub num: u64,
    pub name: Vec<u8>,
    pub visible: bool,
    pub focused: bool,
    pub urgent: bool,
    pub rect: Rect,
    pub output: Vec<u8>,
}

/// The mathematical value of a workspace descriptor.
pub ghost struct WorkspaceView {
    pub num: u64,
    pub name: Seq<u8>,
    pub visible: bool,
    pub focused: bool,
    pub urgent: bool,
    pub rect: Rect,
    pub output: Seq<u8>,
}

impl View for WorkspaceResponse {
    type V = WorkspaceView;

    open spec fn view(&self) -> WorkspaceView {
        WorkspaceView {
            num: self.num,
            name: self.name@,
            visible: self.visible,
            focused: self.focused,
            urgent: self.urgent,
            rect: self.rect,
            output: self.output@,
        }
    }
}

/// The views of a sequence of workspace descriptors.
pub open spec fn workspace_views(s: Seq<WorkspaceResponse>) -> Seq<WorkspaceView> {
    s.map_values(|w: WorkspaceResponse| w@)
}

impl WorkspaceResponse {
    /// An all-empty descriptor: zero index and rectangle, empty names,
    /// every flag clear.
    pub fn new() -> (r: WorkspaceResponse)
        ensures
            r.num == 0,
            r.name@ == Seq::<u8>::empty(),
            !r.visible,
            !r.focused,
            !r.urgent,
            r.rect == (Rect { x: 0, y: 0, width: 0, height: 0 }),
            r.output@ == Seq::<u8>::empty(),
    {
        WorkspaceResponse {
            num: 0,
            name: Vec::new(),
            visible: false,
            focused: false,
            urgent: false,
            rect: Rect { x: 0, y: 0, width: 0, height: 0 },
            output: Vec::new(),
        }
    }
}

/// One entry of a command reply: whether the command succeeded, and
/// whether it failed to parse (absent on the wire means `false`).
#[derive(Debug, Clone, Copy, PartialEq, Eq, Structural)]
pub struct CommandResponse {
    pub success: bool,
    pub parse_error: bool,
}

/// The subscription acknowledgement.
#[derive(Debug, Clone, Copy, PartialEq, Eq, Structural)]
pub struct SubscribeResponse {
    pub success: bool,
}

/// A typed reply, one variant per request kind. Decoding with the wrong
/// kind fails; there is no silent default variant.
#[derive(Debug, Clone, PartialEq, Eq)]
pub enum Response {
    RunCommand(Vec<CommandResponse>),
    GetWorkspace(Vec<WorkspaceResponse>),
    Subscribe(SubscribeResponse),
}

/// The request kinds this client speaks.
#[derive(Debug, Clone, Copy, PartialEq, Eq, Structural)]
pub enum Message {
    RunCommand,
    GetWorkspace,
    Subscribe,
}

/// The wire value of each request kind.
pub open spec fn message_code(m: Message) -> u32 {
    match m {
        Message::RunCommand => 0,
        Message::GetWorkspace => 1,
        Message::Subscribe => 2,
    }
}

/// The request kind a wire value stands for, if any.
pub open spec fn spec_message_from_u32(value: u32) -> Option<Message> {
    if value == 0 {
        Some(Message::RunCommand)
    } else if value == 1 {
        Some(Message::GetWorkspace)
    } else if value == 2 {
        Some(Message::Subscribe)
    } else {
        None
    }
}

impl Message {
    /// The kind's wire value.
    pub fn to_u32(&self) -> (r: u32)
        ensures
            r == message_code(*self),
    {
        match self {
            Message::RunCommand => 0,
            Message::GetWorkspace => 1,
            Message::Subscribe => 2,
        }
    }

    /// Classify a wire value; an unrecognized value is reported as such,
    /// never reinterpreted as some known kind.
    pub fn from_u32(value: u32) -> (r: Result<Message, DecodeError>)
        ensures
            r == (match spec_message_from_u32(value) {
                Some(m) => Ok::<Message, DecodeError>(m),
                None => Err::<Message, DecodeError>(DecodeError::UnknownKind),
            }),
    {
        if value == 0 {
            Ok(Message::RunCommand)
        } else if value == 1 {
            Ok(Message::GetWorkspace)
        } else if value == 2 {
            Ok(Message::Subscribe)
        } else {
            Err(DecodeError::UnknownKind)
        }
    }
}

/// Each request kind's wire value classifies back to that kind.
pub proof fn lemma_message_code_round_trip(m: Message)
    ensures
        spec_message_from_u32(message_code(m)) == Some(m),
{
}

/// What happened to a workspace, as reported in a workspace event.
#[derive(Debug, Clone, Copy, PartialEq, Eq, Structural)]
pub enum WorkspaceChange {
    Focus,
    Init,
    Empty,
    Urgent,
    Reload,
    Rename,
    Restored,
    Move,
}

/// A workspace event: the change and the descriptors around it.
#[derive(Debug, Clone, PartialEq, Eq)]
pub struct WorkspaceEvent {
    pub change: WorkspaceChange,
    pub current: WorkspaceResponse,
    pub old: WorkspaceResponse,
}

/// The event kinds a client can subscribe to.
#[derive(Debug, Clone, Copy, PartialEq, Eq, Structural)]
pub enum Event {
    Workspace,
    Output,
    Mode,
    Window,
    BarConfigUpdate,
    Binding,
    Shutdown,
    Tick,
}

/// Each event kind's canonical lowercase name, as the bytes that go into
/// a subscription request payload.
pub open spec fn event_name(e: Event) -> Seq<u8> {
    match e {
        Event::Workspace => seq![119u8, 111u8, 114u8, 107u8, 115u8, 112u8, 97u8, 99u8, 101u8],
        Event::Output => seq![111u8, 117u8, 116u8, 112u8, 117u8, 116u8],
        Event::Mode => seq![109u8, 111u8, 100u8, 101u8],
        Event::Window => seq![119u8, 105u8, 110u8, 100u8, 111u8, 119u8],
        Event::BarConfigUpdate => seq![
            98u8, 97u8, 114u8, 99u8, 111u8, 110u8, 102u8, 105u8, 103u8, 117u8, 112u8, 100u8,
            97u8, 116u8, 101u8,
        ],
        Event::Binding => seq![98u8, 105u8, 110u8, 100u8, 105u8, 110u8, 103u8],
        Event::Shutdown => seq![115u8, 104u8, 117u8, 116u8, 100u8, 111u8, 119u8, 110u8],
        Event::Tick => seq![116u8, 105u8, 99u8, 107u8],
    }
}

/// Each event kind's canonical name as text.
pub open spec fn event_name_chars(e: Event) -> Seq<char> {
    match e {
        Event::Workspace => "workspace"@,
        Event::Output => "output"@,
        Event::Mode => "mode"@,
        Event::Window => "window"@,
        Event::BarConfigUpdate => "barconfigupdate"@,
        Event::Binding => "binding"@,
        Event::Shutdown => "shutdown"@,
        Event::Tick => "tick"@,
    }
}

impl Event {
    /// The event's canonical name as an owned string.
    pub fn as_str(&self) -> (r: String)
        ensures
            r@ == event_name_chars(*self),
    {
        match self {
            Event::Workspace => "workspace".to_owned(),
            Event::Output => "output".to_owned(),
            Event::Mode => "mode".to_owned(),
            Event::Window => "window".to_owned(),
            Event::BarConfigUpdate => "barconfigupdate".to_owned(),
            Event::Binding => "binding".to_owned(),
            Event::Shutdown => "shutdown".to_owned(),
            Event::Tick => "tick".to_owned(),
        }
    }

    /// The event's canonical name as payload bytes.
    pub fn name_bytes(&self) -> (r: Vec<u8>)
        ensures
            r@ == event_name(*self),
    {
        let r: Vec<u8> = match self {
            Event::Workspace => vec![119, 111, 114, 107, 115, 112, 97, 99, 101],
            Event::Output => vec![111, 117, 116, 112, 117, 116],
            Event::Mode => vec![109, 111, 100, 101],
            Event::Window => vec![119, 105, 110, 100, 111, 119],
            Event::BarConfigUpdate => vec![
                98, 97, 114, 99, 111, 110, 102, 105, 103, 117, 112, 100, 97, 116, 101,
            ],
            Event::Binding => vec![98, 105, 110, 100, 105, 110, 103],
            Event::Shutdown => vec![115, 104, 117, 116, 100, 111, 119, 110],
            Event::Tick => vec![116, 105, 99, 107],
        };
        proof {
            assert(r@ =~= event_name(*self));
        }
        r
    }
}

/// The payload bytes of an event name are exactly its text, byte for byte:
/// every canonical name is ASCII.
pub proof fn lemma_event_name_matches_text(e: Event)
    ensures
        event_name(e) =~= event_name_chars(e).map_values(|c: char| c as u8),
{
    reveal_strlit("workspace");
    reveal_strlit("output");
    reveal_strlit("mode");
    reveal_strlit("window");
    reveal_strlit("barconfigupdate");
    reveal_strlit("binding");
    reveal_strlit("shutdown");
    reveal_strlit("tick");
}

} // verus!
