//! The volume mapper: a pure function from an OS volume sample (linear level
//! plus mute flag) to the pair of console parameter values (gain in dB, mute
//! flag). All values are fixed-point integers in ten-thousandths.

use vstd::prelude::*;

verus! {

/// One unit of level or gain is `1 / LEVEL_SCALE`; a level of `1.0` is
/// `LEVEL_SCALE`.
pub const LEVEL_SCALE: u32 = 10000;

/// Gain written to the strip for level `0.0`, in ten-thousandths of a dB.
pub const MIN_GAIN: i32 = -300000;

/// Gain written to the strip for level `1.0`, in ten-thousandths of a dB.
pub const MAX_GAIN: i32 = 120000;

/// The console's mute parameter value meaning "muted" (`1.0`).
pub const MUTE_ON: i32 = 10000;

/// The console's mute parameter value meaning "unmuted" (`0.0`).
pub const MUTE_OFF: i32 = 0;

/// A volume reading delivered by the OS: a linear level in `[0, LEVEL_SCALE]`
/// and the device's mute flag.
#[derive(Clone, Copy, Debug, PartialEq, Eq, Structural)]
pub struct VolumeSample {
    pub level: u32,
    pub muted: bool,
}

impl VolumeSample {
    /// The OS contract: the level scalar lies in `[0.0, 1.0]`.
    pub open spec fn wf(self) -> bool {
        self.level <= LEVEL_SCALE
    }
}

/// The pair of parameter values to write to the console strip.
#[derive(Clone, Copy, Debug, PartialEq, Eq, Structural)]
pub struct Target {
    pub gain: i32,
    pub mute: i32,
}

/// The gain for a level: linear interpolation from `MIN_GAIN` at level `0.0`
/// to `MAX_GAIN` at level `1.0`. In fixed point the interpolation collapses
/// to `MIN_GAIN + 42 * level`, exactly.
pub open spec fn spec_gain(level: u32) -> int {
    MIN_GAIN + 42 * level
}

/// The mute parameter: muted whenever the device is muted or the level is
/// exactly zero.
pub open spec fn spec_mute(level: u32, muted: bool) -> int {
    if level == 0 || muted {
        MUTE_ON as int
    } else {
        MUTE_OFF as int
    }
}

/// The volume mapper. Pure, total on well-formed samples, no failure mode.
pub fn map(sample: &VolumeSample) -> (t: Target)
    requires
        sample.wf(),
    ensures
        t.gain == spec_gain(sample.level),
        t.mute == spec_mute(sample.level, sample.muted),
{
    let gain: i32 = MIN_GAIN + 42 * (sample.level as i32);
    let mute: i32 = if sample.level == 0 || sample.muted {
        MUTE_ON
    } else {
        MUTE_OFF
    };
    Target { gain, mute }
}

/// The gain is monotonically non-decreasing in the level.
pub proof fn lemma_gain_monotone(a: u32, b: u32)
    requires
        a <= b,
    ensures
        spec_gain(a) <= spec_gain(b),
{
}

/// On well-formed samples the gain stays inside `[MIN_GAIN, MAX_GAIN]`.
pub proof fn lemma_gain_in_range(level: u32)
    requires
        level <= LEVEL_SCALE,
    ensures
        MIN_GAIN <= spec_gain(level) <= MAX_GAIN,
{
}

} // verus!
