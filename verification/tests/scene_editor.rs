use xpans_plugins::editor::{cartestian_changes_msg, changes, Record, SceneEditor};
use xpans_plugins::events::{bundle_to_event, NoteEvent, SpeBundle};
use xpans_plugins::source::Source;
use xpans_plugins::spe::{AxisCombo, Message, Property};

#[test]
fn changes_flags_differing_axes() {
    assert_eq!(changes([1.0f32, 2.0, 3.0], [1.0, 2.5, 3.0]), [false, true, false]);
    assert_eq!(changes([1u32, 2, 3], [1, 2, 3]), [false, false, false]);
    assert_eq!(changes([f32::NAN, 0.0, 0.0], [f32::NAN, 0.0, 0.0]), [true, false, false]);
}

#[test]
fn no_change_no_message() {
    let r = cartestian_changes_msg([0.1f32, 0.2, 0.3], [0.1, 0.2, 0.3], Message::position);
    assert!(r.is_none());
}

#[test]
fn diff_message_names_changed_axes() {
    let r = cartestian_changes_msg([0.1f32, 0.2, 0.3], [0.1, 0.5, 0.9], Message::position).unwrap();
    assert_eq!(r.property, Property::Position(AxisCombo::YZ));
    assert_eq!(&r.values[..2], &[0.5, 0.9]);
    let r = cartestian_changes_msg([0.0f32, 0.0, 0.0], [2.0, 0.0, 0.0], Message::extent).unwrap();
    assert_eq!(r.property, Property::Extent(AxisCombo::X));
    assert_eq!(r.values[0], 2.0);
}

#[test]
fn diff_brings_receiver_to_new_position() {
    let old = [1u32, 2, 3];
    let new = [1u32, 7, 9];
    let mut receiver = Source { pos_x: 1u32, pos_y: 2, pos_z: 3, ext_x: 4, ext_y: 5, ext_z: 6 };
    let m = cartestian_changes_msg(old, new, Message::position).unwrap();
    receiver.apply_message(m);
    assert_eq!(receiver.pos(), new);
    assert_eq!([receiver.ext_x, receiver.ext_y, receiver.ext_z], [4, 5, 6]);
}

fn ids(events: &[NoteEvent<SpeBundle<f32>>]) -> Vec<(u16, Property)> {
    events
        .iter()
        .map(|e| match e {
            NoteEvent::MidiSysEx { message, .. } => (message.id, message.msg.property),
            NoteEvent::Other { .. } => panic!("only SysEx events are sent"),
        })
        .collect()
}

fn editor() -> SceneEditor<f32> {
    SceneEditor { was_stopped: true, record: Record { pos: [0.0; 3], ext: [0.0; 3] } }
}

#[test]
fn editor_announces_when_playback_begins() {
    let mut e = editor();
    let incoming = vec![
        bundle_to_event(0, SpeBundle::new(4, Message::position(&AxisCombo::X, [0.5f32, 0.0, 0.0]))),
        bundle_to_event(1, SpeBundle::new(2, Message::position(&AxisCombo::X, [0.5f32, 0.0, 0.0]))),
    ];
    let out = e.process(true, 4, [0.0, 0.5, 0.0], [0.0, 0.0, 0.0], &incoming);
    assert_eq!(
        ids(&out),
        vec![
            (4, Property::Position(AxisCombo::XYZ)),
            (4, Property::Extent(AxisCombo::XYZ)),
            (2, Property::Position(AxisCombo::X)),
            (4, Property::Position(AxisCombo::Y)),
        ]
    );
    assert!(!e.was_stopped);
    assert_eq!(e.record.pos, [0.0, 0.5, 0.0]);
}

#[test]
fn editor_quiet_when_nothing_changes() {
    let mut e = editor();
    let _ = e.process(true, 1, [0.1, 0.2, 0.3], [1.0, 1.0, 1.0], &vec![]);
    let out = e.process(true, 1, [0.1, 0.2, 0.3], [1.0, 1.0, 1.0], &vec![]);
    assert!(out.is_empty());
    let out = e.process(true, 1, [0.1, 0.2, 0.3], [1.0, 2.0, 1.0], &vec![]);
    assert_eq!(ids(&out), vec![(1, Property::Extent(AxisCombo::Y))]);
}

#[test]
fn editor_stopped_does_not_announce() {
    let mut e = editor();
    let out = e.process(false, 1, [0.0, 0.0, 0.0], [0.0, 0.0, 0.0], &vec![]);
    assert!(out.is_empty());
    assert!(e.was_stopped);
    assert!(e.just_began_playing(true));
    assert!(!e.just_began_playing(false));
}

#[test]
fn all_property_messages() {
    let [p, x] = SceneEditor::<f32>::all_property_msgs([1.0, 2.0, 3.0], [4.0, 5.0, 6.0]);
    assert_eq!(p.property, Property::Position(AxisCombo::XYZ));
    assert_eq!(&p.values[..3], &[1.0, 2.0, 3.0]);
    assert_eq!(x.property, Property::Extent(AxisCombo::XYZ));
    assert_eq!(&x.values[..3], &[4.0, 5.0, 6.0]);
}

#[test]
fn changes_of_any_length() {
    assert_eq!(changes([1, 2, 3], [1, 5, 3]), [false, true, false]);
    assert_eq!(changes([7u8; 4], [7u8; 4]), [false; 4]);
    assert_eq!(changes([1u8, 2, 3, 4, 5], [1, 0, 3, 0, 5]), [false, true, false, true, false]);
}

#[test]
fn repeated_block_with_same_parameters_is_quiet() {
    let mut e = editor();
    let incoming = vec![bundle_to_event(0, SpeBundle::new(2, Message::position(&AxisCombo::X, [0.5f32, 0.0, 0.0])))];
    let _ = e.process(true, 3, [0.2, -0.4, 0.6], [0.1, 0.0, 0.0], &incoming);
    let (was_stopped, pos, ext) = (e.was_stopped, e.record.pos, e.record.ext);
    let out = e.process(true, 3, [0.2, -0.4, 0.6], [0.1, 0.0, 0.0], &vec![]);
    assert!(out.is_empty());
    assert_eq!((e.was_stopped, e.record.pos, e.record.ext), (was_stopped, pos, ext));
}

#[test]
fn announce_messages_are_whole() {
    let [p, x] = SceneEditor::<f32>::all_property_msgs([1.0, 2.0, 3.0], [4.0, 5.0, 6.0]);
    assert_eq!(p.values, [1.0, 2.0, 3.0, 0.0]);
    assert_eq!(x.values, [4.0, 5.0, 6.0, 0.0]);
    assert_eq!(SceneEditor::<u8>::all_pos([7, 8, 9]).values, [7, 8, 9, 0]);
    assert_eq!(SceneEditor::<u8>::all_ext([7, 8, 9]).values, [7, 8, 9, 0]);
}
