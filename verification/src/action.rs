//! Mapping from an activated tile to the remote command it stands for.
//!
//! A tile carries an action identifier and a properties payload; the
//! identifier selects the payload's shape, and the payload selects the
//! command. An unknown identifier, a payload with its sub-action missing, or
//! a malformed scene identifier all select nothing: the tile press is
//! silently ignored rather than surfaced as an error.

use vstd::prelude::*;

use crate::text::str_eq;

verus! {

/// The sub-action of a recording tile.
#[derive(Debug, Clone, Copy, PartialEq, Eq, Structural)]
pub enum RecordingAction {
    StartStop,
    Start,
    Stop,
    PauseResume,
    Pause,
    Resume,
}

/// The sub-action of a streaming tile.
#[derive(Debug, Clone, Copy, PartialEq, Eq, Structural)]
pub enum StreamAction {
    StartStop,
    Start,
    Stop,
}

/// The sub-action of a virtual-camera tile.
#[derive(Debug, Clone, Copy, PartialEq, Eq, Structural)]
pub enum VirtualCameraAction {
    StartStop,
    Start,
    Stop,
}

/// Properties of a recording tile; the sub-action may be unset.
pub struct RecordingActionProperties {
    pub action: Option<RecordingAction>,
}

/// Properties of a streaming tile; the sub-action may be unset.
pub struct StreamActionProperties {
    pub action: Option<StreamAction>,
}

/// Properties of a virtual-camera tile; the sub-action may be unset.
pub struct VirtualCameraActionProperties {
    pub action: Option<VirtualCameraAction>,
}

/// Properties of a scene-switching tile; the scene identifier may be unset.
pub struct SwitchSceneProperties {
    pub scene: Option<String>,
}

/// Properties of a profile-switching tile; the profile name may be unset.
pub struct SwitchProfileProperties {
    pub profile: Option<String>,
}

/// A tile activation, decoded: which kind of tile, with its properties.
pub enum Action {
    Recording(RecordingActionProperties),
    Streaming(StreamActionProperties),
    VirtualCamera(VirtualCameraActionProperties),
    SwitchScene(SwitchSceneProperties),
    SwitchProfile(SwitchProfileProperties),
}

/// The kinds of tile the plugin knows, keyed by the action identifier.
#[derive(Debug, Clone, Copy, PartialEq, Eq, Structural)]
pub enum ActionKind {
    Recording,
    Streaming,
    VirtualCamera,
    SwitchScene,
    SwitchProfile,
}

impl ActionKind {
    /// The fixed table from action identifier to tile kind; every other
    /// identifier is unknown and the activation is ignored.
    pub fn from_action_id(action_id: &str) -> (r: Option<ActionKind>)
        ensures
            (r == Some(ActionKind::Recording)) <==> action_id@ == "recording"@,
            (r == Some(ActionKind::Streaming)) <==> action_id@ == "streaming"@,
            (r == Some(ActionKind::VirtualCamera)) <==> action_id@ == "virtual_camera"@,
            (r == Some(ActionKind::SwitchScene)) <==> action_id@ == "switch_scene"@,
            (r == Some(ActionKind::SwitchProfile)) <==> action_id@ == "switch_profile"@,
    {
        proof {
            reveal_strlit("recording");
            reveal_strlit("streaming");
            reveal_strlit("virtual_camera");
            reveal_strlit("switch_scene");
            reveal_strlit("switch_profile");
            // the five identifiers are pairwise distinct: by length, or by
            // their first character where the lengths agree
            assert("recording"@.len() == 9);
            assert("streaming"@.len() == 9);
            assert("virtual_camera"@.len() == 14);
            assert("switch_scene"@.len() == 12);
            assert("switch_profile"@.len() == 14);
            assert("recording"@[0] == 'r');
            assert("streaming"@[0] == 's');
            assert("virtual_camera"@[0] == 'v');
            assert("switch_profile"@[0] == 's');
        }
        if str_eq(action_id, "recording") {
            Some(ActionKind::Recording)
        } else if str_eq(action_id, "streaming") {
            Some(ActionKind::Streaming)
        } else if str_eq(action_id, "virtual_camera") {
            Some(ActionKind::VirtualCamera)
        } else if str_eq(action_id, "switch_scene") {
            Some(ActionKind::SwitchScene)
        } else if str_eq(action_id, "switch_profile") {
            Some(ActionKind::SwitchProfile)
        } else {
            None
        }
    }
}

/// The 128-bit value of a well-formed textual UUID, or nothing: a function
/// of the characters alone.
pub uninterp spec fn uuid_of(s: Seq<char>) -> Option<u128>;

/// Relies on `uuid::Uuid::from_str` and `Uuid::as_u128`: whether a string
/// parses as a UUID, and which value it denotes, depend on the characters
/// alone.
#[verifier::external_body]
fn parse_uuid(s: &str) -> (r: Option<u128>)
    ensures
        r == uuid_of(s@),
{
    match <uuid::Uuid as core::str::FromStr>::from_str(s) {
        Ok(u) => Some(u.as_u128()),
        Err(_) => None,
    }
}

/// A command against the live connection, ready for the transport to carry
/// out.
#[derive(Debug)]
pub enum RemoteCommand {
    ToggleRecording,
    StartRecording,
    StopRecording,
    ToggleRecordingPause,
    PauseRecording,
    ResumeRecording,
    ToggleStreaming,
    StartStreaming,
    StopStreaming,
    ToggleVirtualCamera,
    StartVirtualCamera,
    StopVirtualCamera,
    SetCurrentScene(u128),
    SetCurrentProfile(String),
}

/// The command a decoded tile activation selects, if any.
pub open spec fn command_matches(a: Action, r: Option<RemoteCommand>) -> bool {
    match a {
        Action::Recording(p) => match p.action {
            None => r is None,
            Some(RecordingAction::StartStop) => r == Some(RemoteCommand::ToggleRecording),
            Some(RecordingAction::Start) => r == Some(RemoteCommand::StartRecording),
            Some(RecordingAction::Stop) => r == Some(RemoteCommand::StopRecording),
            Some(RecordingAction::PauseResume) => r == Some(RemoteCommand::ToggleRecordingPause),
            Some(RecordingAction::Pause) => r == Some(RemoteCommand::PauseRecording),
            Some(RecordingAction::Resume) => r == Some(RemoteCommand::ResumeRecording),
        },
        Action::Streaming(p) => match p.action {
            None => r is None,
            Some(StreamAction::StartStop) => r == Some(RemoteCommand::ToggleStreaming),
            Some(StreamAction::Start) => r == Some(RemoteCommand::StartStreaming),
            Some(StreamAction::Stop) => r == Some(RemoteCommand::StopStreaming),
        },
        Action::VirtualCamera(p) => match p.action {
            None => r is None,
            Some(VirtualCameraAction::StartStop) => r == Some(RemoteCommand::ToggleVirtualCamera),
            Some(VirtualCameraAction::Start) => r == Some(RemoteCommand::StartVirtualCamera),
            Some(VirtualCameraAction::Stop) => r == Some(RemoteCommand::StopVirtualCamera),
        },
        Action::SwitchScene(p) => match p.scene {
            None => r is None,
            Some(s) => match uuid_of(s@) {
                None => r is None,
                Some(u) => r == Some(RemoteCommand::SetCurrentScene(u)),
            },
        },
        Action::SwitchProfile(p) => match p.profile {
            None => r is None,
            Some(q) => r matches Some(RemoteCommand::SetCurrentProfile(name)) && name@ == q@,
        },
    }
}

/// The remote command a decoded tile activation stands for: nothing when the
/// needed property is unset, or the scene identifier is not a well-formed
/// UUID; the activation is then silently dropped.
pub fn command_for_action(action: &Action) -> (r: Option<RemoteCommand>)
    ensures
        command_matches(*action, r),
{
    match action {
        Action::Recording(p) => match p.action {
            None => None,
            Some(RecordingAction::StartStop) => Some(RemoteCommand::ToggleRecording),
            Some(RecordingAction::Start) => Some(RemoteCommand::StartRecording),
            Some(RecordingAction::Stop) => Some(RemoteCommand::StopRecording),
            Some(RecordingAction::PauseResume) => Some(RemoteCommand::ToggleRecordingPause),
            Some(RecordingAction::Pause) => Some(RemoteCommand::PauseRecording),
            Some(RecordingAction::Resume) => Some(RemoteCommand::ResumeRecording),
        },
        Action::Streaming(p) => match p.action {
            None => None,
            Some(StreamAction::StartStop) => Some(RemoteCommand::ToggleStreaming),
            Some(StreamAction::Start) => Some(RemoteCommand::StartStreaming),
            Some(StreamAction::Stop) => Some(RemoteCommand::StopStreaming),
        },
        Action::VirtualCamera(p) => match p.action {
            None => None,
            Some(VirtualCameraAction::StartStop) => Some(RemoteCommand::ToggleVirtualCamera),
            Some(VirtualCameraAction::Start) => Some(RemoteCommand::StartVirtualCamera),
            Some(VirtualCameraAction::Stop) => Some(RemoteCommand::StopVirtualCamera),
        },
        Action::SwitchScene(p) => match &p.scene {
            None => None,
            Some(s) => match parse_uuid(s.as_str()) {
                None => None,
                Some(u) => Some(RemoteCommand::SetCurrentScene(u)),
            },
        },
        Action::SwitchProfile(p) => match &p.profile {
            None => None,
            Some(q) => Some(RemoteCommand::SetCurrentProfile(q.clone())),
        },
    }
}

} // verus!
