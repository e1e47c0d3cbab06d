//! The four waveforms, as exact functions of a phase within one cycle.

use vstd::prelude::*;
use crate::ratio::Ratio;

verus! {

/// The waveform of a voice.
#[derive(Clone, Copy, Debug, PartialEq, Eq, Structural)]
pub enum Oscillator {
    Sine,
    Square,
    Sawtooth,
    Triangle,
}

/// One waveform value. The three piecewise-linear waveforms have a
/// rational value; that of the sine is named by the angle it is taken of.
#[derive(Clone, Copy, Debug, PartialEq, Eq, Structural)]
pub enum Sample {
    /// The value itself.
    Exact(Ratio),
    /// The sine of `turns` full turns, where `turns` lies in [0, 1).
    SineOf(Ratio),
}

impl Oscillator {
    /// The waveform at `phase / period` of a cycle.
    pub open spec fn spec_sample(self, phase: u64, period: u64) -> Sample {
        let p = phase as int;
        let d = period as int;
        match self {
            Oscillator::Sine => Sample::SineOf(Ratio { num: p as i128, den: d as i128 }),
            Oscillator::Square => Sample::Exact(
                Ratio { num: if 2 * p < d { 1i128 } else { -1i128 }, den: 1 },
            ),
            Oscillator::Sawtooth => Sample::Exact(
                Ratio { num: (2 * p - d) as i128, den: d as i128 },
            ),
            Oscillator::Triangle => Sample::Exact(
                Ratio {
                    num: (if 2 * p < d { 4 * p - d } else { 3 * d - 4 * p }) as i128,
                    den: d as i128,
                },
            ),
        }
    }

    /// The waveform at `x = phase / period` of a cycle: sine `sin(2π·x)`,
    /// square 1 below half a cycle and -1 from there on, sawtooth `2x - 1`,
    /// triangle `4x - 1` below half a cycle and `3 - 4x` from there on. Within
    /// the cycle the value lies between -1 and 1.
    pub fn sample(self, phase: u64, period: u64) -> (s: Sample)
        requires
            period > 0,
        ensures
            s == self.spec_sample(phase, period),
            phase < period ==> (s matches Sample::Exact(r) ==> r.is_bipolar()),
            phase < period ==> (s matches Sample::SineOf(t) ==> t.den > 0 && 0 <= t.num < t.den),
    {
        let p: i128 = phase as i128;
        let d: i128 = period as i128;
        match self {
            Oscillator::Sine => Sample::SineOf(Ratio { num: p, den: d }),
            Oscillator::Square => {
                if 2 * p < d {
                    Sample::Exact(Ratio { num: 1, den: 1 })
                } else {
                    Sample::Exact(Ratio { num: -1, den: 1 })
                }
            },
            Oscillator::Sawtooth => Sample::Exact(Ratio { num: 2 * p - d, den: d }),
            Oscillator::Triangle => {
                if 2 * p < d {
                    Sample::Exact(Ratio { num: 4 * p - d, den: d })
                } else {
                    Sample::Exact(Ratio { num: 3 * d - 4 * p, den: d })
                }
            },
        }
    }
}

/// Every waveform value at a phase within the cycle lies between -1 and 1,
/// and a sine is taken of an angle of less than one turn.
pub proof fn law_sample_bounded(osc: Oscillator, phase: u64, period: u64)
    requires
        phase < period,
    ensures
        osc.spec_sample(phase, period) matches Sample::Exact(r) ==> r.is_bipolar(),
        osc.spec_sample(phase, period) matches Sample::SineOf(t) ==> t.den > 0 && 0 <= t.num
            < t.den,
{
}

/// At the start of a cycle the square is 1, the sawtooth and the triangle
/// are -1, and the sine is taken of the angle 0.
pub proof fn law_sample_at_zero(osc: Oscillator, period: u64)
    requires
        period > 0,
    ensures
        osc == Oscillator::Square ==> osc.spec_sample(0, period) == Sample::Exact(
            Ratio::spec_one(),
        ),
        osc == Oscillator::Sawtooth || osc == Oscillator::Triangle ==> (osc.spec_sample(
            0,
            period,
        ) matches Sample::Exact(r) && r.is_int(-1)),
        osc == Oscillator::Sine ==> (osc.spec_sample(0, period) matches Sample::SineOf(t)
            && t.is_int(0)),
{
}

} // verus!
