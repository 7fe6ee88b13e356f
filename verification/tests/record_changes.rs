use xpans_plugins::changes::Changes;
use xpans_plugins::spe::{AxisCombo, Message};

#[test]
fn changes_record_named_axes() {
    let mut c: Changes<f32> = Changes::default();
    assert_eq!(c.pos_x, None);
    c.apply_message(Message::position(&AxisCombo::XY, [1.0, 2.0, 3.0]));
    assert_eq!((c.pos_x, c.pos_y, c.pos_z), (Some(1.0), Some(2.0), None));
    c.apply_message(Message::extent(&AxisCombo::Z, [0.0, 0.0, 9.0]));
    assert_eq!((c.ext_x, c.ext_y, c.ext_z), (None, None, Some(9.0)));
    c.apply_message(Message::position(&AxisCombo::X, [4.0, 0.0, 0.0]));
    assert_eq!((c.pos_x, c.pos_y, c.pos_z), (Some(4.0), Some(2.0), None));
}
