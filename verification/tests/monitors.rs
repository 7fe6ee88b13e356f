use xpans_plugins::monitor::{
    delay_len, id_from_param, DistanceCurveOption, HeadphoneMonitor, PanLawOption, StereoModeOption,
    StereoMonitor,
};

#[test]
fn defaults() {
    assert_eq!(PanLawOption::default(), PanLawOption::Sine);
    assert_eq!(DistanceCurveOption::default(), DistanceCurveOption::Exponential);
    assert_eq!(StereoModeOption::default(), StereoModeOption::Directional);
}

#[test]
fn headphone_settings_switch_once() {
    let mut m = HeadphoneMonitor::new();
    assert!(!m.handle_pan_law_change(PanLawOption::Sine));
    assert!(m.handle_pan_law_change(PanLawOption::Linear));
    assert!(!m.handle_pan_law_change(PanLawOption::Linear));
    assert!(m.handle_distance_curve_change(DistanceCurveOption::Linear));
    assert!(!m.handle_distance_curve_change(DistanceCurveOption::Linear));
    assert_eq!(m.previous_pan_law, PanLawOption::Linear);
}

#[test]
fn stereo_settings_switch_once() {
    let mut m = StereoMonitor::new();
    assert!(m.handle_stereo_mode_change(StereoModeOption::Positional));
    assert!(!m.handle_stereo_mode_change(StereoModeOption::Positional));
    assert!(m.handle_pan_law_change(PanLawOption::SquareRoot));
    assert_eq!(m.previous_stereo_mode, StereoModeOption::Positional);
}

#[test]
fn delay_and_ids() {
    assert_eq!(delay_len(48000), 49);
    assert_eq!(delay_len(44100), 45);
    assert_eq!(delay_len(999), 1);
    assert_eq!(id_from_param(16384), 16384);
    assert_eq!(id_from_param(70000), 4464);
}
