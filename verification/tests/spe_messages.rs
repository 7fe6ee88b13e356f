use xpans_plugins::source::Source;
use xpans_plugins::spe::{AxisCombo, Message, Property};

#[test]
fn axis_combo_change_conversion() {
    for i in 1u8..8 {
        let mut changes = [false; 3];
        for bit in 0..3 {
            changes[bit] = ((i >> bit as u8) & 1) != 0;
        }
        let axis = AxisCombo::from_changes(changes).unwrap();
        assert_eq!(Some(axis), AxisCombo::try_from_byte(i - 1));
    }
}

#[test]
fn no_change_gives_no_axis() {
    assert_eq!(AxisCombo::from_changes([false, false, false]), None);
}

#[test]
fn changes_map_to_expected_axes() {
    assert_eq!(AxisCombo::from_changes([true, false, false]), Some(AxisCombo::X));
    assert_eq!(AxisCombo::from_changes([false, true, false]), Some(AxisCombo::Y));
    assert_eq!(AxisCombo::from_changes([true, true, false]), Some(AxisCombo::XY));
    assert_eq!(AxisCombo::from_changes([false, false, true]), Some(AxisCombo::Z));
    assert_eq!(AxisCombo::from_changes([true, false, true]), Some(AxisCombo::XZ));
    assert_eq!(AxisCombo::from_changes([false, true, true]), Some(AxisCombo::YZ));
    assert_eq!(AxisCombo::from_changes([true, true, true]), Some(AxisCombo::XYZ));
}

#[test]
fn byte_above_six_is_no_axis() {
    assert_eq!(AxisCombo::try_from_byte(6), Some(AxisCombo::XYZ));
    assert_eq!(AxisCombo::try_from_byte(7), None);
    assert_eq!(AxisCombo::try_from_byte(255), None);
}

#[test]
fn value_counts() {
    assert_eq!(AxisCombo::X.value_count(), 1);
    assert_eq!(AxisCombo::YZ.value_count(), 2);
    assert_eq!(AxisCombo::XYZ.value_count(), 3);
    assert_eq!(Property::Extent(AxisCombo::XZ).value_count(), 2);
}

#[test]
fn position_message_moves_included_values_first() {
    let m = Message::position(&AxisCombo::Y, [1u32, 2, 3]);
    assert_eq!(m.property, Property::Position(AxisCombo::Y));
    assert_eq!(m.values, [2, 0, 0, 0]);
    let m = Message::position(&AxisCombo::YZ, [1u32, 2, 3]);
    assert_eq!(m.values, [2, 3, 0, 0]);
    let m = Message::extent(&AxisCombo::Z, [1u32, 2, 3]);
    assert_eq!(m.property, Property::Extent(AxisCombo::Z));
    assert_eq!(m.values, [3, 0, 0, 0]);
    let m = Message::extent(&AxisCombo::XZ, [1u32, 2, 3]);
    assert_eq!(m.values, [1, 3, 0, 0]);
    let m = Message::position(&AxisCombo::XYZ, [0.5f32, -1.0, 0.25]);
    assert_eq!(m.values, [0.5, -1.0, 0.25, 0.0]);
}

fn source() -> Source<f32> {
    Source { pos_x: 0.0, pos_y: 1.0, pos_z: 0.0, ext_x: 0.0, ext_y: 0.0, ext_z: 0.0 }
}

#[test]
fn applying_position_sets_only_named_axes() {
    let mut s = source();
    s.apply_message(Message::position(&AxisCombo::XZ, [0.3, 0.9, -0.7]));
    assert_eq!(s.pos(), [0.3, 1.0, -0.7]);
    assert_eq!([s.ext_x(), s.ext_y(), s.ext_z()], [0.0, 0.0, 0.0]);
}

#[test]
fn applying_extent_sets_only_named_axes() {
    let mut s = source();
    s.apply_message(Message::extent(&AxisCombo::Y, [5.0, 2.0, 7.0]));
    assert_eq!(s.pos(), [0.0, 1.0, 0.0]);
    assert_eq!([s.ext_x(), s.ext_y(), s.ext_z()], [0.0, 2.0, 0.0]);
}

#[test]
fn applying_twice_is_applying_once() {
    let msg = Message::extent(&AxisCombo::XYZ, [1.0f32, 2.0, 3.0]);
    let mut once = source();
    once.apply_message(msg);
    let mut twice = source();
    twice.apply_message(msg);
    twice.apply_message(msg);
    assert_eq!(once.pos(), twice.pos());
    assert_eq!([once.ext_x, once.ext_y, once.ext_z], [twice.ext_x, twice.ext_y, twice.ext_z]);
}

#[test]
fn setters_and_getters() {
    let mut s = source();
    s.set_pos_x(1.5);
    s.set_pos_y(2.5);
    s.set_pos_z(3.5);
    s.set_ext_x(4.5);
    s.set_ext_y(5.5);
    s.set_ext_z(6.5);
    assert_eq!([s.pos_x(), s.pos_y(), s.pos_z()], [1.5, 2.5, 3.5]);
    assert_eq!([s.ext_x(), s.ext_y(), s.ext_z()], [4.5, 5.5, 6.5]);
    assert_eq!(s.pos(), [1.5, 2.5, 3.5]);
}
