//! Messages exchanged with the inspector (the observing UI), and the
//! decisions behind each inbound one.

use vstd::prelude::*;
use vstd::pervasive::unreached;

use crate::state::{
    begun_matches, configure_attempts, configure_model, is_busy, ClientState, ConfigureAction,
    ConnectBegun, State,
};

verus! {

/// Option for a select dropdown menu.
pub struct SelectOption {
    pub label: String,
    pub value: String,
}

/// A scene as the remote service lists it: its name and the textual form of
/// its identifier.
pub struct SceneEntry {
    pub name: String,
    pub uuid: String,
}

/// Messages from the inspector.
pub enum InspectorMessageIn {
    GetClientState,
    GetProfiles,
    GetScenes,
    Connect { auth: crate::state::Auth },
}

/// Messages to the inspector.
pub enum InspectorMessageOut {
    ClientState { state: ClientState },
    Profiles { profiles: Vec<SelectOption> },
    Scenes { scenes: Vec<SelectOption> },
}

/// What the host must do with an inbound inspector message.
pub enum InspectorAction {
    /// Send this straight back to the inspector.
    Reply(InspectorMessageOut),
    /// A connect was requested while one is in flight or done: drop it.
    Busy,
    /// Perform this connect attempt; on success, persist the credentials.
    Attempt(ConnectBegun),
    /// Query the connection for its profiles and reply with the options.
    FetchProfiles,
    /// Query the connection for its scenes and reply with the options.
    FetchScenes,
}

impl<C> State<C> {
    /// Decide what an inbound inspector message asks of the session. Only a
    /// `Connect` request touches the session, with the same idempotency rule
    /// as `configure`.
    pub fn handle_inspector_message(&mut self, message: InspectorMessageIn) -> (r: InspectorAction)
        requires
            old(self).wf(),
        ensures
            final(self).wf(),
            message is GetClientState ==> (r matches InspectorAction::Reply(
                InspectorMessageOut::ClientState { state },
            ) && state == old(self)@.state && *final(self) == *old(self)),
            message is GetProfiles ==> (r is FetchProfiles && *final(self) == *old(self)),
            message is GetScenes ==> (r is FetchScenes && *final(self) == *old(self)),
            message matches InspectorMessageIn::Connect { auth } ==> (final(self)@
                == configure_model(old(self)@, Some(auth@)) && (r is Attempt)
                == configure_attempts(old(self)@, Some(auth@)) && (is_busy(old(self)@) ==> (r
                is Busy && *final(self) == *old(self))) && (!is_busy(old(self)@) ==> (r
                matches InspectorAction::Attempt(b) && begun_matches(
                b,
                old(self)@,
                auth@,
                true,
                false,
            )))),
    {
        match message {
            InspectorMessageIn::GetClientState => InspectorAction::Reply(
                InspectorMessageOut::ClientState { state: self.get_state() },
            ),
            InspectorMessageIn::GetProfiles => InspectorAction::FetchProfiles,
            InspectorMessageIn::GetScenes => InspectorAction::FetchScenes,
            InspectorMessageIn::Connect { auth } => match self.request_reconnect(auth) {
                ConfigureAction::Busy => InspectorAction::Busy,
                ConfigureAction::Attempt(b) => InspectorAction::Attempt(b),
                ConfigureAction::Cleared(_) => unreached(),
            },
        }
    }
}

/// The published name of each lifecycle state, as the observer receives it.
pub open spec fn state_name_spec(state: ClientState) -> Seq<char> {
    match state {
        ClientState::Initial => "INITIAL"@,
        ClientState::NotConnected => "NOT_CONNECTED"@,
        ClientState::Connecting => "CONNECTING"@,
        ClientState::RetryConnecting => "RETRY_CONNECTING"@,
        ClientState::Connected => "CONNECTED"@,
        ClientState::ConnectError => "CONNECT_ERROR"@,
        ClientState::InvalidAuth => "INVALID_AUTH"@,
    }
}

/// The published name of a lifecycle state.
pub fn state_name(state: ClientState) -> (r: &'static str)
    ensures
        r@ == state_name_spec(state),
{
    match state {
        ClientState::Initial => "INITIAL",
        ClientState::NotConnected => "NOT_CONNECTED",
        ClientState::Connecting => "CONNECTING",
        ClientState::RetryConnecting => "RETRY_CONNECTING",
        ClientState::Connected => "CONNECTED",
        ClientState::ConnectError => "CONNECT_ERROR",
        ClientState::InvalidAuth => "INVALID_AUTH",
    }
}

/// The selection options for a list of profile names: each profile appears
/// once, labelled by itself.
pub fn profile_options(profiles: &Vec<String>) -> (r: Vec<SelectOption>)
    ensures
        r@.len() == profiles@.len(),
        forall|i: int|
            0 <= i < r@.len() ==> (#[trigger] r@[i]).label@ == profiles@[i]@ && r@[i].value@
                == profiles@[i]@,
{
    let mut r: Vec<SelectOption> = Vec::new();
    let mut i: usize = 0;
    while i < profiles.len()
        invariant
            i <= profiles@.len(),
            r@.len() == i,
            forall|j: int|
                0 <= j < i ==> (#[trigger] r@[j]).label@ == profiles@[j]@ && r@[j].value@
                    == profiles@[j]@,
        decreases profiles@.len() - i,
    {
        let p = &profiles[i];
        r.push(SelectOption { label: p.clone(), value: p.clone() });
        i += 1;
    }
    r
}

/// The selection options for a list of scenes: labelled by name, valued by
/// the scene's identifier.
pub fn scene_options(scenes: &Vec<SceneEntry>) -> (r: Vec<SelectOption>)
    ensures
        r@.len() == scenes@.len(),
        forall|i: int|
            0 <= i < r@.len() ==> (#[trigger] r@[i]).label@ == scenes@[i].name@ && r@[i].value@
                == scenes@[i].uuid@,
{
    let mut r: Vec<SelectOption> = Vec::new();
    let mut i: usize = 0;
    while i < scenes.len()
        invariant
            i <= scenes@.len(),
            r@.len() == i,
            forall|j: int|
                0 <= j < i ==> (#[trigger] r@[j]).label@ == scenes@[j].name@ && r@[j].value@
                    == scenes@[j].uuid@,
        decreases scenes@.len() - i,
    {
        let s = &scenes[i];
        r.push(SelectOption { label: s.name.clone(), value: s.uuid.clone() });
        i += 1;
    }
    r
}

} // verus!
