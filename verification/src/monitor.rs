//! The monitor plugins' settings: which pan law, distance curve and stereo mode
//! the renderer uses, and when a changed setting has to be handed to it.
use vstd::prelude::*;

verus! {

/// The pan law a monitor renders with.
#[derive(Debug, Clone, Copy, PartialEq, Eq, Structural)]
pub enum PanLawOption {
    Linear,
    Sine,
    SquareRoot,
}

impl Default for PanLawOption {
    /// The sine pan law.
    fn default() -> (p: Self)
        ensures
            p == PanLawOption::Sine,
    {
        PanLawOption::Sine
    }
}

/// The distance attenuation curve of the headphone monitor.
#[derive(Debug, Clone, Copy, PartialEq, Eq, Structural)]
pub enum DistanceCurveOption {
    Linear,
    Exponential,
}

impl Default for DistanceCurveOption {
    /// The exponential curve.
    fn default() -> (c: Self)
        ensures
            c == DistanceCurveOption::Exponential,
    {
        DistanceCurveOption::Exponential
    }
}

/// How the stereo monitor interprets source positions.
#[derive(Debug, Clone, Copy, PartialEq, Eq, Structural)]
pub enum StereoModeOption {
    Directional,
    Positional,
}

impl Default for StereoModeOption {
    /// Directional interpretation.
    fn default() -> (m: Self)
        ensures
            m == StereoModeOption::Directional,
    {
        StereoModeOption::Directional
    }
}

/// The settings the headphone monitor last handed to its renderer.
#[derive(Debug, Clone, Copy, PartialEq, Eq, Structural)]
pub struct HeadphoneMonitor {
    pub previous_distance_curve: DistanceCurveOption,
    pub previous_pan_law: PanLawOption,
}

impl HeadphoneMonitor {
    /// Nothing handed over yet: the default curve and pan law.
    pub fn new() -> (m: Self)
        ensures
            m.previous_distance_curve == DistanceCurveOption::Exponential,
            m.previous_pan_law == PanLawOption::Sine,
    {
        HeadphoneMonitor {
            previous_distance_curve: DistanceCurveOption::default(),
            previous_pan_law: PanLawOption::default(),
        }
    }

    /// Takes the current distance curve setting; returns whether it differs from the
    /// last one, in which case the renderer has to switch to it.
    pub fn handle_distance_curve_change(&mut self, new_curve: DistanceCurveOption) -> (changed: bool)
        ensures
            changed == (new_curve != old(self).previous_distance_curve),
            final(self).previous_distance_curve == new_curve,
            final(self).previous_pan_law == old(self).previous_pan_law,
    {
        let changed = new_curve != self.previous_distance_curve;
        self.previous_distance_curve = new_curve;
        changed
    }

    /// Takes the current pan law setting; returns whether it differs from the last
    /// one, in which case the renderer has to switch to it.
    pub fn handle_pan_law_change(&mut self, new_pan_law: PanLawOption) -> (changed: bool)
        ensures
            changed == (new_pan_law != old(self).previous_pan_law),
            final(self).previous_pan_law == new_pan_law,
            final(self).previous_distance_curve == old(self).previous_distance_curve,
    {
        let changed = new_pan_law != self.previous_pan_law;
        self.previous_pan_law = new_pan_law;
        changed
    }
}

/// The settings the stereo monitor last handed to its renderer.
#[derive(Debug, Clone, Copy, PartialEq, Eq, Structural)]
pub struct StereoMonitor {
    pub previous_pan_law: PanLawOption,
    pub previous_stereo_mode: StereoModeOption,
}

impl StereoMonitor {
    /// Nothing handed over yet: the default pan law and stereo mode.
    pub fn new() -> (m: Self)
        ensures
            m.previous_pan_law == PanLawOption::Sine,
            m.previous_stereo_mode == StereoModeOption::Directional,
    {
        StereoMonitor {
            previous_pan_law: PanLawOption::default(),
            previous_stereo_mode: StereoModeOption::default(),
        }
    }

    /// Takes the current pan law setting; returns whether the renderer has to switch.
    pub fn handle_pan_law_change(&mut self, new_pan_law: PanLawOption) -> (changed: bool)
        ensures
            changed == (new_pan_law != old(self).previous_pan_law),
            final(self).previous_pan_law == new_pan_law,
            final(self).previous_stereo_mode == old(self).previous_stereo_mode,
    {
        let changed = new_pan_law != self.previous_pan_law;
        self.previous_pan_law = new_pan_law;
        changed
    }

    /// Takes the current stereo mode setting; returns whether the renderer has to
    /// switch to another source interpreter.
    pub fn handle_stereo_mode_change(&mut self, new_stereo_mode: StereoModeOption) -> (changed: bool)
        ensures
            changed == (new_stereo_mode != old(self).previous_stereo_mode),
            final(self).previous_stereo_mode == new_stereo_mode,
            final(self).previous_pan_law == old(self).previous_pan_law,
    {
        let changed = new_stereo_mode != self.previous_stereo_mode;
        self.previous_stereo_mode = new_stereo_mode;
        changed
    }
}

/// The length, in frames, of the audio history the headphone monitor keeps for
/// interaural delays: one millisecond at the sample rate, plus one frame.
pub fn delay_len(sample_rate: u32) -> (n: usize)
    ensures
        n == sample_rate / 1000 + 1,
{
    (sample_rate as usize / 1000) + 1
}

/// The source ID an editor's ID parameter stands for: its value cut to sixteen bits.
pub fn id_from_param(value: i32) -> (id: u16)
    ensures
        id == value as u16,
        0 <= value <= u16::MAX ==> id == value,
{
    value as u16
}

} // verus!
