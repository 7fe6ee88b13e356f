use std::path::PathBuf;
use xpans_plugins::events::SpeBundle;
use xpans_plugins::exporter::{ExporterAction, SceneExporter};
use xpans_plugins::spe::{AxisCombo, Message};
use xpans_plugins::ui::FromEditorMessage;

fn pos(id: u16, x: f32) -> SpeBundle<f32> {
    SpeBundle::new(id, Message::position(&AxisCombo::X, [x, 0.0, 0.0]))
}

fn exporter() -> SceneExporter<f32> {
    let mut e = SceneExporter::new(PathBuf::from("scene.xsr"));
    e.initialize(100, 200);
    e
}

#[test]
fn follows_current_state_without_recording() {
    let mut e = exporter();
    let actions = e.process(48000, 0, true, vec![], &vec![(0, pos(1, 0.5)), (3, pos(2, 0.25))]);
    assert!(actions.is_empty());
    assert_eq!(e.current.get(&1).unwrap().pos_x, Some(0.5));
    assert_eq!(e.current.get(&2).unwrap().pos_x, Some(0.25));
    assert!(e.record_map.is_empty());
    assert_eq!(e.sample_rate, 48000);
}

#[test]
fn records_inside_range_and_finishes_at_end() {
    let mut e = exporter();
    let _ = e.process(48000, 0, true, vec![FromEditorMessage::ExportArm], &vec![(0, pos(1, 0.5))]);
    assert!(e.exporting);
    assert!(e.record_map.is_empty());
    // entering the range copies the current state to the scene start
    let a = e.process(48000, 150, true, vec![], &vec![(2, pos(1, 0.75)), (2, pos(3, 0.1))]);
    assert!(a.is_empty());
    assert_eq!(e.record_map.get(&100).unwrap().get(&1).unwrap().pos_x, Some(0.5));
    assert_eq!(e.record_map.get(&152).unwrap().get(&1).unwrap().pos_x, Some(0.75));
    assert_eq!(e.record_map.get(&152).unwrap().get(&3).unwrap().pos_x, Some(0.1));
    let samples = e.record_samples();
    assert_eq!(samples.iter().map(|s| s.sample).collect::<Vec<_>>(), vec![100, 152]);
    assert_eq!(samples[1].events.iter().map(|ev| ev.id).collect::<Vec<_>>(), vec![1, 3]);
    // reaching the scene end disarms and asks for the record to be written
    let a = e.process(48000, 200, true, vec![], &vec![]);
    assert_eq!(a.len(), 2);
    assert!(matches!(a[0], ExporterAction::ExportUnarmed));
    assert!(matches!(a[1], ExporterAction::WriteRecord));
    assert!(!e.exporting);
    e.clear_record();
    assert!(e.record_map.is_empty());
}

#[test]
fn editor_messages_move_scene_and_path() {
    let mut e = exporter();
    let a = e.process(
        44100,
        42,
        false,
        vec![
            FromEditorMessage::SetSceneStart,
            FromEditorMessage::SetExportPath(PathBuf::from("other.xsr")),
            FromEditorMessage::SetSceneEnd,
        ],
        &vec![],
    );
    assert_eq!(e.scene_start, 42);
    assert_eq!(e.scene_end, 42);
    assert_eq!(e.export_path, PathBuf::from("other.xsr"));
    assert_eq!(a.len(), 3);
    assert!(matches!(a[0], ExporterAction::SceneStartSet(42)));
    assert!(matches!(&a[1], ExporterAction::ExportPathSet(p) if *p == PathBuf::from("other.xsr")));
    assert!(matches!(a[2], ExporterAction::SceneEndSet(42)));
    assert!(e.was_in_export_range);
}

#[test]
fn starting_playback_drops_everything() {
    let mut e = exporter();
    let _ = e.process(48000, 0, false, vec![], &vec![(0, pos(1, 0.5))]);
    assert!(!e.current.is_empty());
    let _ = e.process(48000, 0, true, vec![], &vec![]);
    assert!(e.current.is_empty());
}

#[test]
fn unarmed_export_records_nothing() {
    let mut e = exporter();
    let _ = e.process(48000, 100, true, vec![], &vec![(1, pos(1, 0.5))]);
    // the range was entered, so the (empty) current state was copied to the start
    assert_eq!(e.record_map.len(), 1);
    assert!(e.record_map.get(&100).unwrap().is_empty());
    let _ = e.process(48000, 110, true, vec![], &vec![(1, pos(1, 0.6))]);
    assert_eq!(e.record_map.len(), 1);
}
