use obs_session::action::{
    Action, ActionKind, RecordingAction, RecordingActionProperties, RemoteCommand, StreamAction,
    StreamActionProperties, SwitchProfileProperties, SwitchSceneProperties, VirtualCameraAction,
    VirtualCameraActionProperties, command_for_action,
};
use obs_session::messages::{
    profile_options, scene_options, state_name, InspectorAction, InspectorMessageIn,
    InspectorMessageOut, SceneEntry,
};
use obs_session::state::{Auth, ClientState, Properties, State};

type Session = State<u8>;

#[test]
fn action_identifiers_dispatch() {
    assert_eq!(ActionKind::from_action_id("recording"), Some(ActionKind::Recording));
    assert_eq!(ActionKind::from_action_id("streaming"), Some(ActionKind::Streaming));
    assert_eq!(ActionKind::from_action_id("virtual_camera"), Some(ActionKind::VirtualCamera));
    assert_eq!(ActionKind::from_action_id("switch_scene"), Some(ActionKind::SwitchScene));
    assert_eq!(ActionKind::from_action_id("switch_profile"), Some(ActionKind::SwitchProfile));
    // an unknown tile is silently ignored
    assert_eq!(ActionKind::from_action_id("screenshot"), None);
    assert_eq!(ActionKind::from_action_id(""), None);
    assert_eq!(ActionKind::from_action_id("Recording"), None);
}

#[test]
fn recording_actions_map_to_commands() {
    let cases = [
        (RecordingAction::StartStop, "ToggleRecording"),
        (RecordingAction::Start, "StartRecording"),
        (RecordingAction::Stop, "StopRecording"),
        (RecordingAction::PauseResume, "ToggleRecordingPause"),
        (RecordingAction::Pause, "PauseRecording"),
        (RecordingAction::Resume, "ResumeRecording"),
    ];
    for (action, expected) in cases {
        let a = Action::Recording(RecordingActionProperties { action: Some(action) });
        let c = command_for_action(&a).expect("a set sub-action selects a command");
        assert_eq!(format!("{:?}", c), expected);
    }
    let unset = Action::Recording(RecordingActionProperties { action: None });
    assert!(command_for_action(&unset).is_none());
}

#[test]
fn streaming_and_virtual_camera_map_to_commands() {
    let a = Action::Streaming(StreamActionProperties { action: Some(StreamAction::StartStop) });
    assert!(matches!(command_for_action(&a), Some(RemoteCommand::ToggleStreaming)));
    let a = Action::Streaming(StreamActionProperties { action: Some(StreamAction::Start) });
    assert!(matches!(command_for_action(&a), Some(RemoteCommand::StartStreaming)));
    let a = Action::Streaming(StreamActionProperties { action: Some(StreamAction::Stop) });
    assert!(matches!(command_for_action(&a), Some(RemoteCommand::StopStreaming)));
    let a = Action::Streaming(StreamActionProperties { action: None });
    assert!(command_for_action(&a).is_none());

    let a = Action::VirtualCamera(VirtualCameraActionProperties {
        action: Some(VirtualCameraAction::StartStop),
    });
    assert!(matches!(command_for_action(&a), Some(RemoteCommand::ToggleVirtualCamera)));
    let a = Action::VirtualCamera(VirtualCameraActionProperties {
        action: Some(VirtualCameraAction::Start),
    });
    assert!(matches!(command_for_action(&a), Some(RemoteCommand::StartVirtualCamera)));
    let a = Action::VirtualCamera(VirtualCameraActionProperties {
        action: Some(VirtualCameraAction::Stop),
    });
    assert!(matches!(command_for_action(&a), Some(RemoteCommand::StopVirtualCamera)));
    let a = Action::VirtualCamera(VirtualCameraActionProperties { action: None });
    assert!(command_for_action(&a).is_none());
}

#[test]
fn switch_scene_requires_a_well_formed_uuid() {
    let a = Action::SwitchScene(SwitchSceneProperties {
        scene: Some("00000000-0000-0000-0000-000000000001".to_string()),
    });
    match command_for_action(&a) {
        Some(RemoteCommand::SetCurrentScene(u)) => assert_eq!(u, 1),
        other => panic!("a well-formed scene identifier selects the scene: {:?}", other),
    }

    let s = "9f86d081-884c-4d63-a1ba-3f2f52b3d2a4";
    let a = Action::SwitchScene(SwitchSceneProperties { scene: Some(s.to_string()) });
    match command_for_action(&a) {
        Some(RemoteCommand::SetCurrentScene(u)) => {
            assert_eq!(u, uuid::Uuid::parse_str(s).unwrap().as_u128());
        }
        other => panic!("a well-formed scene identifier selects the scene: {:?}", other),
    }

    let a = Action::SwitchScene(SwitchSceneProperties { scene: Some("kitchen".to_string()) });
    assert!(command_for_action(&a).is_none());
    let a = Action::SwitchScene(SwitchSceneProperties { scene: None });
    assert!(command_for_action(&a).is_none());
}

#[test]
fn switch_profile_carries_the_name() {
    let a = Action::SwitchProfile(SwitchProfileProperties {
        profile: Some("Streaming".to_string()),
    });
    match command_for_action(&a) {
        Some(RemoteCommand::SetCurrentProfile(name)) => assert_eq!(name, "Streaming"),
        other => panic!("a set profile selects the switch: {:?}", other),
    }
    let a = Action::SwitchProfile(SwitchProfileProperties { profile: None });
    assert!(command_for_action(&a).is_none());
}

#[test]
fn scenario_tile_while_disconnected_is_a_no_op() {
    let mut s = Session::new();
    s.configure(Properties { auth: None });
    assert_eq!(s.get_state(), ClientState::NotConnected);

    // the tile decodes to a command ...
    let a = Action::Recording(RecordingActionProperties { action: Some(RecordingAction::Start) });
    assert!(command_for_action(&a).is_some());
    // ... but with no handle held, no remote call is made and no error surfaces
    assert!(s.client_ref().is_none());
}

#[test]
fn state_names_for_the_observer() {
    assert_eq!(state_name(ClientState::Initial), "INITIAL");
    assert_eq!(state_name(ClientState::NotConnected), "NOT_CONNECTED");
    assert_eq!(state_name(ClientState::Connecting), "CONNECTING");
    assert_eq!(state_name(ClientState::RetryConnecting), "RETRY_CONNECTING");
    assert_eq!(state_name(ClientState::Connected), "CONNECTED");
    assert_eq!(state_name(ClientState::ConnectError), "CONNECT_ERROR");
    assert_eq!(state_name(ClientState::InvalidAuth), "INVALID_AUTH");
}

#[test]
fn profile_and_scene_options() {
    let profiles = vec!["Default".to_string(), "Streaming".to_string()];
    let opts = profile_options(&profiles);
    assert_eq!(opts.len(), 2);
    assert_eq!(opts[0].label, "Default");
    assert_eq!(opts[0].value, "Default");
    assert_eq!(opts[1].label, "Streaming");
    assert_eq!(opts[1].value, "Streaming");

    let scenes = vec![SceneEntry {
        name: "Main".to_string(),
        uuid: "9f86d081-884c-4d63-a1ba-3f2f52b3d2a4".to_string(),
    }];
    let opts = scene_options(&scenes);
    assert_eq!(opts.len(), 1);
    assert_eq!(opts[0].label, "Main");
    assert_eq!(opts[0].value, "9f86d081-884c-4d63-a1ba-3f2f52b3d2a4");

    assert_eq!(profile_options(&Vec::new()).len(), 0);
}

#[test]
fn inspector_messages_decide() {
    let mut s = Session::new();
    match s.handle_inspector_message(InspectorMessageIn::GetClientState) {
        InspectorAction::Reply(InspectorMessageOut::ClientState { state }) => {
            assert_eq!(state, ClientState::Initial);
        }
        _ => panic!("the state query is answered directly"),
    }
    assert!(matches!(
        s.handle_inspector_message(InspectorMessageIn::GetProfiles),
        InspectorAction::FetchProfiles
    ));
    assert!(matches!(
        s.handle_inspector_message(InspectorMessageIn::GetScenes),
        InspectorAction::FetchScenes
    ));

    let auth = Auth { host: "h".to_string(), port: 1, password: "p".to_string() };
    let begun = match s.handle_inspector_message(InspectorMessageIn::Connect { auth: auth.clone() })
    {
        InspectorAction::Attempt(b) => b,
        _ => panic!("an idle session begins the requested attempt"),
    };
    assert!(begun.persist_on_success);
    assert_eq!(s.get_state(), ClientState::Connecting);

    // while the attempt is in flight a second request is dropped
    assert!(matches!(
        s.handle_inspector_message(InspectorMessageIn::Connect { auth }),
        InspectorAction::Busy
    ));
}
