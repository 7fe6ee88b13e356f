use xpans_plugins::events::SpeBundle;
use xpans_plugins::input::buffered_sample_index;
use xpans_plugins::output::PluginOutput;
use xpans_plugins::render::RenderHandler;
use xpans_plugins::source::Source;
use xpans_plugins::sources::{SourcesMutator, SourcesViewer};
use xpans_plugins::spe::{AxisCombo, Message};

#[test]
fn output_is_interleaved() {
    let mut out: PluginOutput<f32> = PluginOutput::new(2, 4);
    assert_eq!(out.channel_count(), 2);
    assert_eq!(out.frames_available(), Some(4));
    assert_eq!(out.index(3, 1), 7);
    assert_eq!(out.index(0, 0), 0);
    assert_eq!(out.get_sample(3, 1), 0.0);
    out.store_sample(1, 2, 0.5);
    assert_eq!(out.get_sample(2, 1), 0.5);
    assert_eq!(out.get_sample(2, 0), 0.0);
    out.advance(4);
    assert_eq!(out.get_sample(2, 1), 0.5);
    out.clear();
    assert_eq!(out.get_sample(2, 1), 0.0);
}

#[test]
fn distinct_frame_channel_pairs_use_distinct_slots() {
    let out: PluginOutput<u8> = PluginOutput::new(3, 5);
    let mut seen = std::collections::BTreeSet::new();
    for f in 0..5 {
        for c in 0..3 {
            assert!(seen.insert(out.index(f, c)));
        }
    }
    assert_eq!(seen.len(), 15);
}

fn start() -> Source<f32> {
    Source { pos_x: 0.0, pos_y: 1.0, pos_z: 0.0, ext_x: 0.0, ext_y: 0.0, ext_z: 0.0 }
}

#[test]
fn mutator_writes_sources_into_frame_slots() {
    let mut m = SourcesMutator::new(start(), 3);
    assert_eq!(m.source_count(), 3);
    m.apply_msg(2, Message::position(&AxisCombo::X, [0.5, 0.0, 0.0]));
    let w = m.write_current_sources(4);
    assert_eq!(w.iter().map(|(i, _)| *i).collect::<Vec<_>>(), vec![12, 13, 14]);
    assert_eq!(w[2].1.pos_x, 0.5);
    assert_eq!(w[0].1.pos_y, 1.0);
    assert_eq!(m.move_write_position(5), 15);
}

#[test]
fn viewer_slots_and_frames() {
    let v = SourcesViewer::new(4);
    assert_eq!(v.source(1, 2), 9);
    assert_eq!(v.frames_available(17), Some(4));
    assert_eq!(v.advance(3), 12);
    assert_eq!(v.source_count(), 4);
}

#[test]
fn render_applies_bundles_at_their_frames() {
    let mut h = RenderHandler::new(SourcesMutator::new(start(), 2));
    let events = vec![
        (2u32, SpeBundle::new(1, Message::position(&AxisCombo::X, [0.25f32, 0.0, 0.0]))),
        (0u32, SpeBundle::new(0, Message::position(&AxisCombo::X, [0.5f32, 0.0, 0.0]))),
        (2u32, SpeBundle::new(1, Message::position(&AxisCombo::X, [0.75f32, 0.0, 0.0]))),
        (9u32, SpeBundle::new(0, Message::position(&AxisCombo::X, [0.9f32, 0.0, 0.0]))),
    ];
    let writes = h.render_sources(&events, 4);
    assert_eq!(writes.len(), 4);
    let xs: Vec<[f32; 2]> = writes.iter().map(|w| [w[0].1.pos_x, w[1].1.pos_x]).collect();
    assert_eq!(xs, vec![[0.5, 0.0], [0.5, 0.0], [0.5, 0.75], [0.5, 0.75]]);
    assert_eq!(writes[3].iter().map(|(i, _)| *i).collect::<Vec<_>>(), vec![6, 7]);
    assert!(h.timing_map.is_empty());
}

#[test]
fn buffered_index_counts_back_from_frame() {
    assert_eq!(buffered_sample_index(10, 3), 7);
    assert_eq!(buffered_sample_index(0, 2), -2);
    assert_eq!(buffered_sample_index(0, usize::MAX), isize::MIN);
}

#[test]
fn clear_resets_to_zero_and_twice_is_once() {
    let mut out: PluginOutput<f32> = PluginOutput::new(2, 2);
    for f in 0..2 {
        for c in 0..2 {
            assert_eq!(out.get_sample(f, c), 0.0);
        }
    }
    out.store_sample(0, 1, 3.0);
    out.store_sample(1, 0, -1.5);
    out.clear();
    for f in 0..2 {
        for c in 0..2 {
            assert_eq!(out.get_sample(f, c), 0.0);
        }
    }
    out.clear();
    assert_eq!(out.channel_count(), 2);
    assert_eq!(out.frames_available(), Some(2));
    assert_eq!(out.get_sample(1, 1), 0.0);
}

#[test]
fn writer_slots_are_viewer_slots() {
    let mut m = SourcesMutator::new(start(), 3);
    let v = SourcesViewer::new(3);
    m.apply_msg(1, Message::position(&AxisCombo::Z, [0.0, 0.0, 0.25]));
    for f in 0..4 {
        let w = m.write_current_sources(f);
        for i in 0..3 {
            assert_eq!(w[i].0, v.source(i, f));
        }
        assert_eq!(w[1].1.pos_z, 0.25);
    }
}

#[test]
fn message_unused_slots_hold_default() {
    let m = Message::position(&AxisCombo::XZ, [1u8, 2, 3]);
    assert_eq!(m.values, [1, 3, 0, 0]);
    let m = Message::extent(&AxisCombo::Y, [1.5f32, 2.5, 3.5]);
    assert_eq!(m.values, [2.5, 0.0, 0.0, 0.0]);
}
