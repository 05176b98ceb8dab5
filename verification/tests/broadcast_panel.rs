use bili_live_tool::bili_api::{Area, Error, LiveStatus, RoomInfo, StartLiveOutcome, StreamProtocol, SubArea};
use bili_live_tool::broadcast_panel::{
    BroadcastPanel, BroadcastState, ProtocolSet, StartDecision, StartReport, StopDecision,
    StopReport,
};
use bili_live_tool::qr::encode_qr;
use bili_live_tool::room_editor::{EditorError, RoomEditor};

fn protocol(addr: &str, code: &str) -> StreamProtocol {
    StreamProtocol {
        name: String::from("RTMP"),
        addr: String::from(addr),
        code: String::from(code),
    }
}

#[test]
fn protocol_set_rejects_missing_credentials() {
    assert!(ProtocolSet::new(Vec::new()).is_none());
    assert!(ProtocolSet::new(vec![protocol("", "code")]).is_none());
    assert!(ProtocolSet::new(vec![protocol("addr", "")]).is_none());
}

#[test]
fn protocol_selection_never_moves_out_of_bounds() {
    let mut protocols =
        ProtocolSet::new(vec![protocol("first", "one"), protocol("second", "two")]).unwrap();
    protocols.select(1);
    assert_eq!(protocols.active().addr, "second");
    protocols.select(10);
    assert_eq!(protocols.active().addr, "second");
}

#[test]
fn protocol_set_starts_on_the_first_endpoint() {
    let protocols =
        ProtocolSet::new(vec![protocol("first", "one"), protocol("second", "two")]).unwrap();
    assert_eq!(protocols.active_row(), 0);
    assert_eq!(protocols.active().code, "one");
    assert_eq!(protocols.items().len(), 2);
}

fn ready_editor() -> RoomEditor {
    let mut editor = RoomEditor::new();
    editor.install_areas(vec![Area {
        id: 2,
        name: String::from("网游"),
        list: vec![SubArea { id: 86, name: String::from("英雄联盟") }],
    }]);
    let info = RoomInfo {
        title: String::from("标题"),
        area_id: 86,
        parent_area_id: 2,
        live_status: LiveStatus::Preparing,
    };
    editor.room_loaded(5440, &info);
    editor
}

fn title() -> String {
    String::from("标题")
}

fn started(endpoints: Vec<StreamProtocol>) -> Result<StartLiveOutcome, Error> {
    Ok(StartLiveOutcome::Started(endpoints))
}

#[test]
fn start_goes_live_with_the_endpoints() {
    let mut panel = BroadcastPanel::new(42);
    let mut editor = ready_editor();
    assert_eq!(panel.user_id(), 42);
    assert!(matches!(
        panel.begin_start(&mut editor, title()),
        StartDecision::Launch(r) if r.room_id == 5440 && r.area_id == 86 && r.title == "标题"
    ));
    assert!(matches!(panel.state(), BroadcastState::Starting));
    assert!(editor.is_broadcast_locked());
    // a second start while starting is ignored
    assert!(matches!(panel.begin_start(&mut editor, title()), StartDecision::Ignored));
    let report = panel.finish_start(&mut editor, started(vec![protocol("addr", "key")]));
    assert!(!editor.is_broadcast_locked());
    assert!(matches!(report, StartReport::Started));
    match panel.state() {
        BroadcastState::Living(set) => assert_eq!(set.active().addr, "addr"),
        _ => panic!("not living"),
    }
}

#[test]
fn start_refused_by_the_editor_changes_nothing() {
    let mut panel = BroadcastPanel::new(42);
    let mut editor = RoomEditor::new();
    assert!(matches!(
        panel.begin_start(&mut editor, title()),
        StartDecision::Rejected(EditorError::RoomNotReady)
    ));
    assert!(matches!(panel.state(), BroadcastState::Offline));
    assert!(!editor.is_broadcast_locked());
}

#[test]
fn start_without_usable_endpoints_goes_back_offline() {
    let mut panel = BroadcastPanel::new(42);
    let mut editor = ready_editor();
    panel.begin_start(&mut editor, title());
    let report = panel.finish_start(&mut editor, started(vec![protocol("addr", "")]));
    assert!(matches!(report, StartReport::NoUsableProtocols));
    assert!(matches!(panel.state(), BroadcastState::Offline));
}

#[test]
fn failed_start_goes_back_offline() {
    let mut panel = BroadcastPanel::new(42);
    let mut editor = ready_editor();
    panel.begin_start(&mut editor, title());
    let report = panel.finish_start(&mut editor, Err(Error::EmptyPayload));
    assert!(matches!(report, StartReport::Failed(Error::EmptyPayload)));
    assert!(matches!(panel.state(), BroadcastState::Offline));
}

#[test]
fn face_verification_waits_with_a_qr_image_and_can_start_again() {
    let mut panel = BroadcastPanel::new(42);
    let mut editor = ready_editor();
    panel.begin_start(&mut editor, title());
    let url = "https://www.bilibili.com/h5/face-verify";
    let report = panel.finish_start(
        &mut editor,
        Ok(StartLiveOutcome::FaceVerification(String::from(url))),
    );
    assert!(matches!(report, StartReport::AwaitingFaceVerification));
    assert!(!editor.is_broadcast_locked());
    match panel.state() {
        BroadcastState::AwaitingFaceVerification { qr } => {
            assert_eq!(&qr[1..4], b"PNG");
            assert_eq!(qr, &encode_qr(url).unwrap());
        }
        _ => panic!("not waiting for verification"),
    }
    assert!(matches!(panel.begin_start(&mut editor, title()), StartDecision::Launch(_)));
    assert!(editor.is_broadcast_locked());
}

#[test]
fn failed_stop_restores_the_broadcast() {
    let mut panel = BroadcastPanel::new(42);
    let mut editor = ready_editor();
    panel.begin_start(&mut editor, title());
    panel.finish_start(&mut editor, started(vec![protocol("a", "1"), protocol("b", "2")]));
    panel.select_protocol(1);
    assert!(matches!(panel.begin_stop(Ok(5440)), StopDecision::Launch(5440)));
    match panel.state() {
        BroadcastState::Stopping { protocols: Some(set) } => assert_eq!(set.active().addr, "b"),
        _ => panic!("not stopping"),
    }
    let report = panel.finish_stop(Err(Error::EmptyPayload));
    assert!(matches!(report, StopReport::Failed(_)));
    match panel.state() {
        BroadcastState::Living(set) => {
            assert_eq!(set.active().addr, "b");
            assert_eq!(set.items().len(), 2);
        }
        _ => panic!("not living"),
    }
    assert!(matches!(panel.begin_stop(Ok(5440)), StopDecision::Launch(5440)));
    assert!(matches!(panel.finish_stop(Ok(())), StopReport::Stopped));
    assert!(matches!(panel.state(), BroadcastState::Offline));
}

#[test]
fn restored_live_room_is_shown_without_keys_and_can_stop() {
    let mut panel = BroadcastPanel::new(42);
    assert!(panel.live_restored());
    assert!(matches!(panel.state(), BroadcastState::LiveWithoutCredentials));
    assert!(!panel.live_restored());
    assert!(matches!(panel.begin_stop(Ok(7)), StopDecision::Launch(7)));
    assert!(matches!(panel.state(), BroadcastState::Stopping { protocols: None }));
    panel.finish_stop(Err(Error::EmptyPayload));
    assert!(matches!(panel.state(), BroadcastState::LiveWithoutCredentials));
}

#[test]
fn stop_is_ignored_when_offline_and_refused_without_room() {
    let mut panel = BroadcastPanel::new(42);
    assert!(matches!(panel.begin_stop(Ok(7)), StopDecision::Ignored));
    assert!(matches!(
        panel.begin_stop(Err(EditorError::RoomNotReady)),
        StopDecision::Rejected(EditorError::RoomNotReady)
    ));
    assert!(matches!(panel.state(), BroadcastState::Offline));
}

#[test]
fn too_long_verification_url_turns_the_panel_off() {
    let mut panel = BroadcastPanel::new(42);
    let mut editor = ready_editor();
    panel.begin_start(&mut editor, title());
    let report = panel.finish_start(
        &mut editor,
        Ok(StartLiveOutcome::FaceVerification("x".repeat(5000))),
    );
    assert!(matches!(report, StartReport::QrFailed(_)));
    assert!(matches!(panel.state(), BroadcastState::Offline));
    assert!(!editor.is_broadcast_locked());
}

#[test]
fn editor_is_locked_exactly_while_starting() {
    let mut panel = BroadcastPanel::new(42);
    let mut editor = ready_editor();
    let agrees = |panel: &BroadcastPanel, editor: &RoomEditor| {
        editor.is_broadcast_locked() == matches!(panel.state(), BroadcastState::Starting)
    };
    assert!(agrees(&panel, &editor));
    panel.begin_start(&mut editor, title());
    assert!(agrees(&panel, &editor));
    panel.select_protocol(0);
    assert!(agrees(&panel, &editor));
    assert!(matches!(panel.begin_stop(Ok(5440)), StopDecision::Ignored));
    assert!(agrees(&panel, &editor));
    panel.finish_start(&mut editor, started(vec![protocol("a", "1")]));
    assert!(agrees(&panel, &editor));
    panel.begin_stop(Ok(5440));
    assert!(agrees(&panel, &editor));
    panel.finish_stop(Ok(()));
    assert!(agrees(&panel, &editor));
    panel.live_restored();
    assert!(agrees(&panel, &editor));
}

#[test]
fn busy_editor_refuses_the_start() {
    let mut panel = BroadcastPanel::new(42);
    let mut editor = ready_editor();
    editor.begin_update(true, false, title());
    assert!(matches!(
        panel.begin_start(&mut editor, title()),
        StartDecision::Rejected(EditorError::Busy)
    ));
    assert!(matches!(panel.state(), BroadcastState::Offline));
    assert!(!editor.is_broadcast_locked());
}
