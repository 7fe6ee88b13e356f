use std::path::PathBuf;
use xpans_plugins::ui::{FromEditorMessage, State, ToEditorMessage, UiAction, UiMessage};

#[test]
fn export_button_toggles_arming() {
    let mut s = State::new(PathBuf::from("a.xsr"), false);
    let a = s.update(UiMessage::ExportScene);
    assert!(matches!(a, UiAction::Send(FromEditorMessage::ExportArm)));
    assert!(s.exporting);
    let a = s.update(UiMessage::ExportScene);
    assert!(matches!(a, UiAction::Send(FromEditorMessage::ExportUnarm)));
    assert!(!s.exporting);
}

#[test]
fn other_buttons() {
    let mut s = State::new(PathBuf::from("a.xsr"), true);
    assert!(matches!(s.update(UiMessage::SetExportPath), UiAction::PickTarget));
    assert!(matches!(s.update(UiMessage::SetSceneStart), UiAction::Send(FromEditorMessage::SetSceneStart)));
    assert!(matches!(s.update(UiMessage::SetSceneEnd), UiAction::Send(FromEditorMessage::SetSceneEnd)));
    assert!(matches!(s.update(UiMessage::Poll), UiAction::DrainMessages));
    assert!(s.exporting);
    assert_eq!(s.export_path, PathBuf::from("a.xsr"));
}

#[test]
fn plugin_messages_update_state() {
    let mut s = State::new(PathBuf::from("a.xsr"), true);
    s.update_with_messages(vec![
        ToEditorMessage::SetExportPath(PathBuf::from("b.xsr")),
        ToEditorMessage::ExportUnarm,
        ToEditorMessage::SetExportPath(PathBuf::from("c.xsr")),
    ]);
    assert!(!s.exporting);
    assert_eq!(s.export_path, PathBuf::from("c.xsr"));
    s.update_with_messages(vec![]);
    assert_eq!(s.export_path, PathBuf::from("c.xsr"));
}
