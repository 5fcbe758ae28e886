//! The wire vocabulary: outbound commands, inbound responses, and the
//! meeting snapshots that responses carry.

use vstd::prelude::*;

use crate::text::{bool_text, int_text, push_bool, push_int};

verus! {

/// An action that the application is asked to perform in a meeting.
#[derive(Clone, Copy, Debug, PartialEq, Eq, Structural)]
pub enum MeetingAction {
    NoAction,
    QueryMeetingState,
    Mute,
    Unmute,
    ToggleMute,
    HideVideo,
    ShowVideo,
    ToggleVideo,
    UnblurBackground,
    BlurBackground,
    ToggleBlurBackground,
    LowerHand,
    RaiseHand,
    ToggleHand,
    LeaveCall,
    React,
    ToggleUI,
    StopSharing,
}

impl MeetingAction {
    /// The text tag of the action on the wire. `NoAction` has no tag of its own and is written `none`.
    pub open spec fn spec_tag(self) -> Seq<char> {
        match self {
            MeetingAction::NoAction => "none"@,
            MeetingAction::QueryMeetingState => "query-state"@,
            MeetingAction::Mute => "mute"@,
            MeetingAction::Unmute => "unmute"@,
            MeetingAction::ToggleMute => "toggle-mute"@,
            MeetingAction::HideVideo => "hide-video"@,
            MeetingAction::ShowVideo => "show-video"@,
            MeetingAction::ToggleVideo => "toggle-video"@,
            MeetingAction::UnblurBackground => "unblur-background"@,
            MeetingAction::BlurBackground => "blur-background"@,
            MeetingAction::ToggleBlurBackground => "toggle-background-blur"@,
            MeetingAction::LowerHand => "lower-hand"@,
            MeetingAction::RaiseHand => "raise-hand"@,
            MeetingAction::ToggleHand => "toggle-hand"@,
            MeetingAction::LeaveCall => "leave-call"@,
            MeetingAction::React => "send-reaction"@,
            MeetingAction::ToggleUI => "toggle-ui"@,
            MeetingAction::StopSharing => "stop-sharing"@,
        }
    }

    /// The numeric code of the historical binary form; it never appears on the wire.
    pub open spec fn spec_code(self) -> u16 {
        match self {
            MeetingAction::NoAction => 0x0000,
            MeetingAction::QueryMeetingState => 0x0100,
            MeetingAction::Mute => 0x0200,
            MeetingAction::Unmute => 0x0201,
            MeetingAction::ToggleMute => 0x0202,
            MeetingAction::HideVideo => 0x0300,
            MeetingAction::ShowVideo => 0x0301,
            MeetingAction::ToggleVideo => 0x0302,
            MeetingAction::UnblurBackground => 0x0400,
            MeetingAction::BlurBackground => 0x0401,
            MeetingAction::ToggleBlurBackground => 0x0402,
            MeetingAction::LowerHand => 0x0500,
            MeetingAction::RaiseHand => 0x0501,
            MeetingAction::ToggleHand => 0x0502,
            MeetingAction::LeaveCall => 0x0700,
            MeetingAction::React => 0x0800,
            MeetingAction::ToggleUI => 0x0900,
            MeetingAction::StopSharing => 0x0a00,
        }
    }

    /// The variant's name, as `Debug` writes it.
    pub open spec fn spec_name(self) -> Seq<char> {
        match self {
            MeetingAction::NoAction => "NoAction"@,
            MeetingAction::QueryMeetingState => "QueryMeetingState"@,
            MeetingAction::Mute => "Mute"@,
            MeetingAction::Unmute => "Unmute"@,
            MeetingAction::ToggleMute => "ToggleMute"@,
            MeetingAction::HideVideo => "HideVideo"@,
            MeetingAction::ShowVideo => "ShowVideo"@,
            MeetingAction::ToggleVideo => "ToggleVideo"@,
            MeetingAction::UnblurBackground => "UnblurBackground"@,
            MeetingAction::BlurBackground => "BlurBackground"@,
            MeetingAction::ToggleBlurBackground => "ToggleBlurBackground"@,
            MeetingAction::LowerHand => "LowerHand"@,
            MeetingAction::RaiseHand => "RaiseHand"@,
            MeetingAction::ToggleHand => "ToggleHand"@,
            MeetingAction::LeaveCall => "LeaveCall"@,
            MeetingAction::React => "React"@,
            MeetingAction::ToggleUI => "ToggleUI"@,
            MeetingAction::StopSharing => "StopSharing"@,
        }
    }

    /// The text tag that stands for this value on the wire.
    pub fn tag(&self) -> (r: &'static str)
        ensures
            r@ == self.spec_tag(),
    {
        match self {
            MeetingAction::NoAction => "none",
            MeetingAction::QueryMeetingState => "query-state",
            MeetingAction::Mute => "mute",
            MeetingAction::Unmute => "unmute",
            MeetingAction::ToggleMute => "toggle-mute",
            MeetingAction::HideVideo => "hide-video",
            MeetingAction::ShowVideo => "show-video",
            MeetingAction::ToggleVideo => "toggle-video",
            MeetingAction::UnblurBackground => "unblur-background",
            MeetingAction::BlurBackground => "blur-background",
            MeetingAction::ToggleBlurBackground => "toggle-background-blur",
            MeetingAction::LowerHand => "lower-hand",
            MeetingAction::RaiseHand => "raise-hand",
            MeetingAction::ToggleHand => "toggle-hand",
            MeetingAction::LeaveCall => "leave-call",
            MeetingAction::React => "send-reaction",
            MeetingAction::ToggleUI => "toggle-ui",
            MeetingAction::StopSharing => "stop-sharing",
        }
    }

    /// The numeric code of the historical binary form.
    pub fn code(&self) -> (r: u16)
        ensures
            r == self.spec_code(),
    {
        match self {
            MeetingAction::NoAction => 0x0000,
            MeetingAction::QueryMeetingState => 0x0100,
            MeetingAction::Mute => 0x0200,
            MeetingAction::Unmute => 0x0201,
            MeetingAction::ToggleMute => 0x0202,
            MeetingAction::HideVideo => 0x0300,
            MeetingAction::ShowVideo => 0x0301,
            MeetingAction::ToggleVideo => 0x0302,
            MeetingAction::UnblurBackground => 0x0400,
            MeetingAction::BlurBackground => 0x0401,
            MeetingAction::ToggleBlurBackground => 0x0402,
            MeetingAction::LowerHand => 0x0500,
            MeetingAction::RaiseHand => 0x0501,
            MeetingAction::ToggleHand => 0x0502,
            MeetingAction::LeaveCall => 0x0700,
            MeetingAction::React => 0x0800,
            MeetingAction::ToggleUI => 0x0900,
            MeetingAction::StopSharing => 0x0a00,
        }
    }

    /// The variant's name, as `Debug` writes it.
    pub fn name(&self) -> (r: &'static str)
        ensures
            r@ == self.spec_name(),
    {
        match self {
            MeetingAction::NoAction => "NoAction",
            MeetingAction::QueryMeetingState => "QueryMeetingState",
            MeetingAction::Mute => "Mute",
            MeetingAction::Unmute => "Unmute",
            MeetingAction::ToggleMute => "ToggleMute",
            MeetingAction::HideVideo => "HideVideo",
            MeetingAction::ShowVideo => "ShowVideo",
            MeetingAction::ToggleVideo => "ToggleVideo",
            MeetingAction::UnblurBackground => "UnblurBackground",
            MeetingAction::BlurBackground => "BlurBackground",
            MeetingAction::ToggleBlurBackground => "ToggleBlurBackground",
            MeetingAction::LowerHand => "LowerHand",
            MeetingAction::RaiseHand => "RaiseHand",
            MeetingAction::ToggleHand => "ToggleHand",
            MeetingAction::LeaveCall => "LeaveCall",
            MeetingAction::React => "React",
            MeetingAction::ToggleUI => "ToggleUI",
            MeetingAction::StopSharing => "StopSharing",
        }
    }
}

/// The argument of a reaction or of a toggle of the user interface.
#[derive(Clone, Copy, Debug, PartialEq, Eq, Structural)]
pub enum ClientMessageParameterType {
    ReactApplause,
    ReactLaugh,
    ReactLike,
    ReactLove,
    ReactWow,
    ToggleUiChat,
    ToggleUiSharing,
}

impl ClientMessageParameterType {
    /// The text tag of the parameter on the wire.
    pub open spec fn spec_tag(self) -> Seq<char> {
        match self {
            ClientMessageParameterType::ReactApplause => "applause"@,
            ClientMessageParameterType::ReactLaugh => "laugh"@,
            ClientMessageParameterType::ReactLike => "like"@,
            ClientMessageParameterType::ReactLove => "love"@,
            ClientMessageParameterType::ReactWow => "wow"@,
            ClientMessageParameterType::ToggleUiChat => "chat"@,
            ClientMessageParameterType::ToggleUiSharing => "sharing-tray"@,
        }
    }

    /// The numeric code of the historical binary form; it never appears on the wire.
    pub open spec fn spec_code(self) -> u16 {
        match self {
            ClientMessageParameterType::ReactApplause => 0x0710,
            ClientMessageParameterType::ReactLaugh => 0x0711,
            ClientMessageParameterType::ReactLike => 0x0712,
            ClientMessageParameterType::ReactLove => 0x0713,
            ClientMessageParameterType::ReactWow => 0x0714,
            ClientMessageParameterType::ToggleUiChat => 0x0901,
            ClientMessageParameterType::ToggleUiSharing => 0x0902,
        }
    }

    /// The variant's name, as `Debug` writes it.
    pub open spec fn spec_name(self) -> Seq<char> {
        match self {
            ClientMessageParameterType::ReactApplause => "ReactApplause"@,
            ClientMessageParameterType::ReactLaugh => "ReactLaugh"@,
            ClientMessageParameterType::ReactLike => "ReactLike"@,
            ClientMessageParameterType::ReactLove => "ReactLove"@,
            ClientMessageParameterType::ReactWow => "ReactWow"@,
            ClientMessageParameterType::ToggleUiChat => "ToggleUiChat"@,
            ClientMessageParameterType::ToggleUiSharing => "ToggleUiSharing"@,
        }
    }

    /// The text tag that stands for this value on the wire.
    pub fn tag(&self) -> (r: &'static str)
        ensures
            r@ == self.spec_tag(),
    {
        match self {
            ClientMessageParameterType::ReactApplause => "applause",
            ClientMessageParameterType::ReactLaugh => "laugh",
            ClientMessageParameterType::ReactLike => "like",
            ClientMessageParameterType::ReactLove => "love",
            ClientMessageParameterType::ReactWow => "wow",
            ClientMessageParameterType::ToggleUiChat => "chat",
            ClientMessageParameterType::ToggleUiSharing => "sharing-tray",
        }
    }

    /// The numeric code of the historical binary form.
    pub fn code(&self) -> (r: u16)
        ensures
            r == self.spec_code(),
    {
        match self {
            ClientMessageParameterType::ReactApplause => 0x0710,
            ClientMessageParameterType::ReactLaugh => 0x0711,
            ClientMessageParameterType::ReactLike => 0x0712,
            ClientMessageParameterType::ReactLove => 0x0713,
            ClientMessageParameterType::ReactWow => 0x0714,
            ClientMessageParameterType::ToggleUiChat => 0x0901,
            ClientMessageParameterType::ToggleUiSharing => 0x0902,
        }
    }

    /// The variant's name, as `Debug` writes it.
    pub fn name(&self) -> (r: &'static str)
        ensures
            r@ == self.spec_name(),
    {
        match self {
            ClientMessageParameterType::ReactApplause => "ReactApplause",
            ClientMessageParameterType::ReactLaugh => "ReactLaugh",
            ClientMessageParameterType::ReactLike => "ReactLike",
            ClientMessageParameterType::ReactLove => "ReactLove",
            ClientMessageParameterType::ReactWow => "ReactWow",
            ClientMessageParameterType::ToggleUiChat => "ToggleUiChat",
            ClientMessageParameterType::ToggleUiSharing => "ToggleUiSharing",
        }
    }
}

/// The parameter block of a command.
#[derive(Clone, Copy, Debug, PartialEq, Eq, Structural)]
pub struct ClientMessageParameter {
    pub type_: ClientMessageParameterType,
}

impl ClientMessageParameter {
    pub fn new(type_: ClientMessageParameterType) -> (r: Self)
        ensures
            r.type_ == type_,
    {
        Self { type_ }
    }
}

/// A command sent to the application.
///
/// `request_id` is filled in by [`crate::TeamsWebsocket::send`], which
/// overwrites whatever the caller put there.
#[derive(Clone, Copy, Debug, PartialEq, Eq, Structural)]
pub struct ClientMessage {
    pub action: MeetingAction,
    pub parameters: Option<ClientMessageParameter>,
    pub request_id: Option<i32>,
}

/// The JSON text of a parameter block, or `null`.
pub open spec fn parameters_json(p: Option<ClientMessageParameter>) -> Seq<char> {
    match p {
        Some(p) => "{\"type\":\""@ + p.type_.spec_tag() + "\"}"@,
        None => "null"@,
    }
}

/// The JSON text of an optional integer, or `null`.
pub open spec fn optional_int_json(n: Option<i32>) -> Seq<char> {
    match n {
        Some(n) => int_text(n as int),
        None => "null"@,
    }
}

/// The JSON text of a command: an object with the keys `action`,
/// `parameters` and `requestId`, in that order, with no whitespace.
pub open spec fn command_json(m: ClientMessage) -> Seq<char> {
    "{\"action\":\""@ + m.action.spec_tag() + "\",\"parameters\":"@ + parameters_json(m.parameters)
        + ",\"requestId\":"@ + optional_int_json(m.request_id) + "}"@
}

/// The text that `Debug` writes for an optional parameter block.
pub open spec fn parameters_debug(p: Option<ClientMessageParameter>) -> Seq<char> {
    match p {
        Some(p) => "Some(ClientMessageParameter { type_: "@ + p.type_.spec_name() + " })"@,
        None => "None"@,
    }
}

/// The one-line description of a command; an unset request identifier reads 0.
pub open spec fn command_text(m: ClientMessage) -> Seq<char> {
    "ClientMessage { action: "@ + m.action.spec_name() + ", parameters: "@ + parameters_debug(
        m.parameters,
    ) + ", request_id: "@ + int_text(
        match m.request_id {
            Some(n) => n as int,
            None => 0,
        },
    ) + " }"@
}

impl ClientMessage {
    /// A command with no request identifier yet.
    pub fn new(action: MeetingAction, parameters: Option<ClientMessageParameter>) -> (r: Self)
        ensures
            r.action == action,
            r.parameters == parameters,
            r.request_id is None,
    {
        Self { action, parameters, request_id: None }
    }

    /// The JSON text of the command, as it goes on the wire.
    pub fn to_json(&self) -> (r: String)
        ensures
            r@ == command_json(*self),
    {
        let mut out = String::new();
        out.append("{\"action\":\"");
        out.append(self.action.tag());
        out.append("\",\"parameters\":");
        match self.parameters {
            Some(p) => {
                out.append("{\"type\":\"");
                out.append(p.type_.tag());
                out.append("\"}");
            },
            None => {
                out.append("null");
            },
        }
        out.append(",\"requestId\":");
        match self.request_id {
            Some(n) => {
                push_int(&mut out, n);
            },
            None => {
                out.append("null");
            },
        }
        out.append("}");
        assert(out@ =~= command_json(*self));
        out
    }

    /// A one-line description of the command.
    pub fn to_string(&self) -> (r: String)
        ensures
            r@ == command_text(*self),
    {
        let mut out = String::new();
        out.append("ClientMessage { action: ");
        out.append(self.action.name());
        out.append(", parameters: ");
        match self.parameters {
            Some(p) => {
                out.append("Some(ClientMessageParameter { type_: ");
                out.append(p.type_.name());
                out.append(" })");
            },
            None => {
                out.append("None");
            },
        }
        out.append(", request_id: ");
        let id: i32 = match self.request_id {
            Some(n) => n,
            None => 0,
        };
        push_int(&mut out, id);
        out.append(" }");
        assert(out@ =~= command_text(*self));
        out
    }
}


/// What the user may do in the current meeting.
#[derive(Clone, Copy, Debug, PartialEq, Eq, Structural)]
pub struct MeetingPermissions {
    pub can_toggle_mute: bool,
    pub can_toggle_video: bool,
    pub can_toggle_hand: bool,
    pub can_toggle_blur: bool,
    pub can_leave: bool,
    pub can_react: bool,
    pub can_toggle_share_tray: bool,
    pub can_toggle_chat: bool,
    pub can_stop_sharing: bool,
    pub can_pair: bool,
}

/// The one-line description of the snapshot, which is also what `Debug` writes.
pub open spec fn permissions_text(x: MeetingPermissions) -> Seq<char> {
    "MeetingPermissions { can_toggle_mute: "@ + bool_text(x.can_toggle_mute)
        + ", can_toggle_video: "@ + bool_text(x.can_toggle_video)
        + ", can_toggle_hand: "@ + bool_text(x.can_toggle_hand)
        + ", can_toggle_blur: "@ + bool_text(x.can_toggle_blur)
        + ", can_leave: "@ + bool_text(x.can_leave)
        + ", can_react: "@ + bool_text(x.can_react)
        + ", can_toggle_share_tray: "@ + bool_text(x.can_toggle_share_tray)
        + ", can_toggle_chat: "@ + bool_text(x.can_toggle_chat)
        + ", can_stop_sharing: "@ + bool_text(x.can_stop_sharing)
        + ", can_pair: "@ + bool_text(x.can_pair)
        + " }"@
}

impl MeetingPermissions {
    /// Every capability flag is false.
    pub open spec fn grants_nothing(self) -> bool {
        &&& !self.can_toggle_mute
        &&& !self.can_toggle_video
        &&& !self.can_toggle_hand
        &&& !self.can_toggle_blur
        &&& !self.can_leave
        &&& !self.can_react
        &&& !self.can_toggle_share_tray
        &&& !self.can_toggle_chat
        &&& !self.can_stop_sharing
        &&& !self.can_pair
    }

    /// A snapshot with every flag false.
    pub fn new() -> (r: Self)
        ensures
            r.grants_nothing(),
    {
        Self {
            can_toggle_mute: false,
            can_toggle_video: false,
            can_toggle_hand: false,
            can_toggle_blur: false,
            can_leave: false,
            can_react: false,
            can_toggle_share_tray: false,
            can_toggle_chat: false,
            can_stop_sharing: false,
            can_pair: false,
        }
    }

    /// A one-line description of the snapshot.
    pub fn to_string(&self) -> (r: String)
        ensures
            r@ == permissions_text(*self),
    {
        let mut out = String::new();
        out.append("MeetingPermissions { can_toggle_mute: ");
        push_bool(&mut out, self.can_toggle_mute);
        out.append(", can_toggle_video: ");
        push_bool(&mut out, self.can_toggle_video);
        out.append(", can_toggle_hand: ");
        push_bool(&mut out, self.can_toggle_hand);
        out.append(", can_toggle_blur: ");
        push_bool(&mut out, self.can_toggle_blur);
        out.append(", can_leave: ");
        push_bool(&mut out, self.can_leave);
        out.append(", can_react: ");
        push_bool(&mut out, self.can_react);
        out.append(", can_toggle_share_tray: ");
        push_bool(&mut out, self.can_toggle_share_tray);
        out.append(", can_toggle_chat: ");
        push_bool(&mut out, self.can_toggle_chat);
        out.append(", can_stop_sharing: ");
        push_bool(&mut out, self.can_stop_sharing);
        out.append(", can_pair: ");
        push_bool(&mut out, self.can_pair);
        out.append(" }");
        assert(out@ =~= permissions_text(*self));
        out
    }
}

impl Default for MeetingPermissions {
    fn default() -> (r: Self)
        ensures
            r.grants_nothing(),
    {
        Self::new()
    }
}

/// The user's current status in the meeting.
#[derive(Clone, Copy, Debug, PartialEq, Eq, Structural)]
pub struct MeetingState {
    pub is_muted: bool,
    pub is_hand_raised: bool,
    pub is_in_meeting: bool,
    pub is_recording_on: bool,
    pub is_background_blurred: bool,
    pub is_sharing: bool,
    pub has_unread_messages: bool,
    pub is_video_on: bool,
}

/// The one-line description of the snapshot, which is also what `Debug` writes.
pub open spec fn state_text(x: MeetingState) -> Seq<char> {
    "MeetingState { is_muted: "@ + bool_text(x.is_muted)
        + ", is_hand_raised: "@ + bool_text(x.is_hand_raised)
        + ", is_in_meeting: "@ + bool_text(x.is_in_meeting)
        + ", is_recording_on: "@ + bool_text(x.is_recording_on)
        + ", is_background_blurred: "@ + bool_text(x.is_background_blurred)
        + ", is_sharing: "@ + bool_text(x.is_sharing)
        + ", has_unread_messages: "@ + bool_text(x.has_unread_messages)
        + ", is_video_on: "@ + bool_text(x.is_video_on)
        + " }"@
}

impl MeetingState {
    /// Every status flag is false.
    pub open spec fn all_clear(self) -> bool {
        &&& !self.is_muted
        &&& !self.is_hand_raised
        &&& !self.is_in_meeting
        &&& !self.is_recording_on
        &&& !self.is_background_blurred
        &&& !self.is_sharing
        &&& !self.has_unread_messages
        &&& !self.is_video_on
    }

    /// A snapshot with every flag false.
    pub fn new() -> (r: Self)
        ensures
            r.all_clear(),
    {
        Self {
            is_muted: false,
            is_hand_raised: false,
            is_in_meeting: false,
            is_recording_on: false,
            is_background_blurred: false,
            is_sharing: false,
            has_unread_messages: false,
            is_video_on: false,
        }
    }

    /// A one-line description of the snapshot.
    pub fn to_string(&self) -> (r: String)
        ensures
            r@ == state_text(*self),
    {
        let mut out = String::new();
        out.append("MeetingState { is_muted: ");
        push_bool(&mut out, self.is_muted);
        out.append(", is_hand_raised: ");
        push_bool(&mut out, self.is_hand_raised);
        out.append(", is_in_meeting: ");
        push_bool(&mut out, self.is_in_meeting);
        out.append(", is_recording_on: ");
        push_bool(&mut out, self.is_recording_on);
        out.append(", is_background_blurred: ");
        push_bool(&mut out, self.is_background_blurred);
        out.append(", is_sharing: ");
        push_bool(&mut out, self.is_sharing);
        out.append(", has_unread_messages: ");
        push_bool(&mut out, self.has_unread_messages);
        out.append(", is_video_on: ");
        push_bool(&mut out, self.is_video_on);
        out.append(" }");
        assert(out@ =~= state_text(*self));
        out
    }
}

impl Default for MeetingState {
    fn default() -> (r: Self)
        ensures
            r.all_clear(),
    {
        Self::new()
    }
}

/// The quoted and escaped form of a text, as `Debug` writes a `str`.
pub uninterp spec fn debug_quoted(s: Seq<char>) -> Seq<char>;

/// Relies on `<str as Debug>::fmt`, through `format!`: the quoted form of a
/// text, which depends on its characters alone.
#[verifier::external_body]
fn debug_str(s: &str) -> (r: String)
    ensures
        r@ == debug_quoted(s@),
{
    format!("{:?}", s)
}

/// The text that `Debug` writes for an optional text.
pub open spec fn optional_text_debug(o: Option<String>) -> Seq<char> {
    match o {
        Some(s) => "Some("@ + debug_quoted(s@) + ")"@,
        None => "None"@,
    }
}

/// The text that `Debug` writes for an optional integer.
pub open spec fn optional_int_debug(o: Option<i32>) -> Seq<char> {
    match o {
        Some(n) => "Some("@ + int_text(n as int) + ")"@,
        None => "None"@,
    }
}

fn push_optional_text(out: &mut String, o: &Option<String>)
    ensures
        final(out)@ == old(out)@ + optional_text_debug(*o),
{
    match o {
        Some(s) => {
            out.append("Some(");
            let quoted = debug_str(s.as_str());
            out.append(quoted.as_str());
            out.append(")");
        },
        None => {
            out.append("None");
        },
    }
}

/// The permissions and the state that the application reports.
#[derive(Clone, Copy, Debug, PartialEq, Eq, Structural)]
pub struct MeetingUpdate {
    pub meeting_permissions: Option<MeetingPermissions>,
    pub meeting_state: Option<MeetingState>,
}

/// The one-line description of an update, which is also what `Debug` writes.
pub open spec fn update_text(u: MeetingUpdate) -> Seq<char> {
    "MeetingUpdate { meeting_permissions: "@ + match u.meeting_permissions {
        Some(p) => "Some("@ + permissions_text(p) + ")"@,
        None => "None"@,
    } + ", meeting_state: "@ + match u.meeting_state {
        Some(s) => "Some("@ + state_text(s) + ")"@,
        None => "None"@,
    } + " }"@
}

impl MeetingUpdate {
    /// A one-line description of the update.
    pub fn to_string(&self) -> (r: String)
        ensures
            r@ == update_text(*self),
    {
        let mut out = String::new();
        out.append("MeetingUpdate { meeting_permissions: ");
        match self.meeting_permissions {
            Some(p) => {
                out.append("Some(");
                let t = p.to_string();
                out.append(t.as_str());
                out.append(")");
            },
            None => {
                out.append("None");
            },
        }
        out.append(", meeting_state: ");
        match self.meeting_state {
            Some(s) => {
                out.append("Some(");
                let t = s.to_string();
                out.append(t.as_str());
                out.append(")");
            },
            None => {
                out.append("None");
            },
        }
        out.append(" }");
        assert(out@ =~= update_text(*self));
        out
    }
}

/// A message from the application: a reply to a command, or a state push.
#[derive(Clone, Debug, PartialEq, Eq)]
pub struct ServerMessage {
    pub request_id: Option<i32>,
    pub response: Option<String>,
    pub error_msg: Option<String>,
    pub token_refresh: Option<String>,
    pub meeting_update: Option<MeetingUpdate>,
}

/// The one-line description of a response.
pub open spec fn response_text(m: ServerMessage) -> Seq<char> {
    "ServerMessage { request_id: "@ + optional_int_debug(m.request_id) + ", response: "@
        + optional_text_debug(m.response) + ", error_msg: "@ + optional_text_debug(m.error_msg)
        + ", token_refresh: "@ + optional_text_debug(m.token_refresh) + ", meeting_update: "@
        + match m.meeting_update {
        Some(u) => "Some("@ + update_text(u) + ")"@,
        None => "None"@,
    } + " }"@
}

impl ServerMessage {
    /// A one-line description of the response.
    pub fn to_string(&self) -> (r: String)
        ensures
            r@ == response_text(*self),
    {
        let mut out = String::new();
        out.append("ServerMessage { request_id: ");
        match self.request_id {
            Some(n) => {
                out.append("Some(");
                push_int(&mut out, n);
                out.append(")");
            },
            None => {
                out.append("None");
            },
        }
        out.append(", response: ");
        push_optional_text(&mut out, &self.response);
        out.append(", error_msg: ");
        push_optional_text(&mut out, &self.error_msg);
        out.append(", token_refresh: ");
        push_optional_text(&mut out, &self.token_refresh);
        out.append(", meeting_update: ");
        match self.meeting_update {
            Some(u) => {
                out.append("Some(");
                let t = u.to_string();
                out.append(t.as_str());
                out.append(")");
            },
            None => {
                out.append("None");
            },
        }
        out.append(" }");
        assert(out@ =~= response_text(*self));
        out
    }
}

} // verus!
