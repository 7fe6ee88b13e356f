use xpans_plugins::events::{bundle_to_event, msg_to_event, spe_editor_passthru, sysex, NoteEvent, SpeBundle};
use xpans_plugins::spe::{AxisCombo, Message};

fn bundle(id: u16) -> SpeBundle<f32> {
    SpeBundle::new(id, Message::position(&AxisCombo::X, [id as f32, 0.0, 0.0]))
}

fn ids(events: &[NoteEvent<SpeBundle<f32>>]) -> Vec<(u32, u16)> {
    events
        .iter()
        .map(|e| match e {
            NoteEvent::MidiSysEx { timing, message } => (*timing, message.id),
            NoteEvent::Other { timing } => (*timing, u16::MAX),
        })
        .collect()
}

#[test]
fn msg_to_event_wraps_bundle() {
    let e = msg_to_event(7, 3, Message::extent(&AxisCombo::Z, [0.0f32, 0.0, 2.0]));
    match e {
        NoteEvent::MidiSysEx { timing, message } => {
            assert_eq!(timing, 7);
            assert_eq!(message.id, 3);
            assert_eq!(message.msg.values[0], 2.0);
        }
        NoteEvent::Other { .. } => panic!("expected a SysEx event"),
    }
    match bundle_to_event(9, bundle(4)) {
        NoteEvent::MidiSysEx { timing, message } => assert_eq!((timing, message.id), (9, 4)),
        NoteEvent::Other { .. } => panic!("expected a SysEx event"),
    }
}

#[test]
fn sysex_keeps_only_sysex_in_order() {
    let events = vec![
        NoteEvent::Other { timing: 0 },
        bundle_to_event(2, bundle(1)),
        NoteEvent::Other { timing: 3 },
        bundle_to_event(1, bundle(2)),
    ];
    let got: Vec<(u32, u16)> = sysex(&events).iter().map(|(t, b)| (*t, b.id)).collect();
    assert_eq!(got, vec![(2, 1), (1, 2)]);
}

#[test]
fn passthru_drops_edited_sources_and_other_events() {
    let events = vec![
        bundle_to_event(0, bundle(1)),
        NoteEvent::Other { timing: 1 },
        bundle_to_event(2, bundle(5)),
        bundle_to_event(3, bundle(2)),
        bundle_to_event(4, bundle(5)),
    ];
    let out = spe_editor_passthru(&events, &[5]);
    assert_eq!(ids(&out), vec![(0, 1), (3, 2)]);
    let out = spe_editor_passthru(&events, &[]);
    assert_eq!(ids(&out), vec![(0, 1), (2, 5), (3, 2), (4, 5)]);
    let out = spe_editor_passthru(&events, &[1, 2, 5]);
    assert!(out.is_empty());
}

#[test]
fn passthru_twice_is_passthru_once() {
    let events = vec![
        bundle_to_event(0, bundle(1)),
        bundle_to_event(1, bundle(3)),
        NoteEvent::Other { timing: 1 },
    ];
    let once = spe_editor_passthru(&events, &[3]);
    let twice = spe_editor_passthru(&once, &[3]);
    assert_eq!(ids(&once), ids(&twice));
}
