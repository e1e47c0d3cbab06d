//! Voices, one per sounding key, and the manager that owns them.

use vstd::prelude::*;
use crate::envelope::{Envelope, EnvelopePhase};
use crate::keys::Key;
use crate::oscillator::{Oscillator, Sample};
use crate::ratio::Ratio;

verus! {

/// Attack time of every voice, in milliseconds.
pub const ATTACK_TIME: u32 = 10;

/// Decay time of every voice, in milliseconds.
pub const DECAY_TIME: u32 = 100;

/// Sustain level of every voice, in thousandths of the peak.
pub const SUSTAIN_LEVEL: u32 = 700;

/// Release time of every voice, in milliseconds.
pub const RELEASE_TIME: u32 = 200;

/// The fixed gain of a voice in the mix is 1 / `GAIN_DIVISOR`.
pub const GAIN_DIVISOR: i128 = 5;

/// The sounding state of one key. The frequency is in hundredths of a
/// hertz; the phase counts the same unit per sample, so that a cycle is
/// `period(sample_rate)` long.
#[derive(Clone, Copy, Debug, PartialEq, Eq, Structural)]
pub struct Voice {
    pub key: Key,
    pub frequency: u32,
    pub oscillator: Oscillator,
    pub phase: u64,
    pub envelope: Envelope,
}

/// What one voice adds to one output sample: `sample` times `gain`.
#[derive(Clone, Copy, Debug, PartialEq, Eq, Structural)]
pub struct VoiceFrame {
    pub sample: Sample,
    pub gain: Ratio,
}

/// The length of one cycle in phase units: a phase of `period` is one full
/// turn.
pub open spec fn period(sample_rate: u32) -> int {
    100 * sample_rate
}

/// The phase one sample later: advanced by the frequency and wrapped into
/// the cycle.
pub open spec fn next_phase(phase: u64, frequency: u32, sample_rate: u32) -> u64 {
    ((phase + frequency) % period(sample_rate)) as u64
}

/// The phase `n` samples later.
pub open spec fn phase_after(phase: u64, frequency: u32, sample_rate: u32, n: nat) -> u64
    decreases n,
{
    if n == 0 {
        phase
    } else {
        next_phase(phase_after(phase, frequency, sample_rate, (n - 1) as nat), frequency, sample_rate)
    }
}

/// The envelope's gain times the fixed gain of a voice.
pub open spec fn scaled(level: Ratio) -> Ratio {
    Ratio { num: level.num, den: (level.den * GAIN_DIVISOR) as i128 }
}

impl Voice {
    /// The phase lies within the cycle and the envelope is well formed.
    pub open spec fn wf(self, sample_rate: u32) -> bool {
        &&& sample_rate > 0
        &&& self.phase < period(sample_rate)
        &&& self.envelope.wf()
    }

    /// A silent voice at the start of its cycle, with an idle envelope.
    pub open spec fn spec_new(key: Key, frequency: u32, oscillator: Oscillator, sample_rate: u32)
        -> Voice {
        Voice {
            key,
            frequency,
            oscillator,
            phase: 0,
            envelope: Envelope {
                attack_time: ATTACK_TIME,
                decay_time: DECAY_TIME,
                sustain_level: SUSTAIN_LEVEL,
                release_time: RELEASE_TIME,
                current_level: Ratio::spec_zero(),
                phase: EnvelopePhase::Idle,
                sample_rate,
                samples_processed: 0,
            },
        }
    }

    /// The voice with its envelope triggered; the phase is kept.
    pub open spec fn retriggered(self) -> Voice {
        Voice { envelope: self.envelope.triggered(), ..self }
    }

    /// The voice with its envelope released; the phase is kept.
    pub open spec fn let_go(self) -> Voice {
        Voice { envelope: self.envelope.released(), ..self }
    }

    /// What the voice adds to the next output sample.
    pub open spec fn frame(self, sample_rate: u32) -> VoiceFrame {
        VoiceFrame {
            sample: self.oscillator.spec_sample(self.phase, period(sample_rate) as u64),
            gain: scaled(self.envelope.output()),
        }
    }

    /// The voice one sample later.
    pub open spec fn advanced(self, sample_rate: u32) -> Voice {
        Voice {
            phase: next_phase(self.phase, self.frequency, sample_rate),
            envelope: self.envelope.step(),
            ..self
        }
    }

    /// A silent voice for `key` at the start of its cycle, with the fixed
    /// envelope settings and an idle envelope.
    pub fn new(key: Key, frequency: u32, oscillator: Oscillator, sample_rate: u32) -> (voice:
        Voice)
        requires
            sample_rate > 0,
        ensures
            voice == Voice::spec_new(key, frequency, oscillator, sample_rate),
            voice.wf(sample_rate),
    {
        Voice {
            key,
            frequency,
            oscillator,
            phase: 0,
            envelope: Envelope::new(
                ATTACK_TIME,
                DECAY_TIME,
                SUSTAIN_LEVEL,
                RELEASE_TIME,
                sample_rate,
            ),
        }
    }

    /// Renders one sample of the voice: ticks the envelope, takes the
    /// waveform at the current phase with the envelope's gain times the
    /// fixed gain, then advances and wraps the phase.
    pub fn generate_sample(&mut self, sample_rate: u32) -> (frame: VoiceFrame)
        requires
            old(self).wf(sample_rate),
        ensures
            frame == old(self).frame(sample_rate),
            *final(self) == old(self).advanced(sample_rate),
            final(self).wf(sample_rate),
            frame.gain.is_unit(),
            frame.sample matches Sample::Exact(r) ==> r.is_bipolar(),
    {
        let cycle: u64 = 100 * (sample_rate as u64);
        let level = self.envelope.process();
        let sample = self.oscillator.sample(self.phase, cycle);
        self.phase = (self.phase + self.frequency as u64) % cycle;
        VoiceFrame { sample, gain: Ratio { num: level.num, den: level.den * GAIN_DIVISOR } }
    }
}

/// The phase accumulator is exact: after `n` samples the phase is the
/// start phase plus `n` times the frequency, wrapped into the cycle.
pub proof fn law_phase_accumulates(phase: u64, frequency: u32, sample_rate: u32, n: nat)
    requires
        sample_rate > 0,
        phase < period(sample_rate),
    ensures
        phase_after(phase, frequency, sample_rate, n) == (phase + n * frequency) % period(
            sample_rate,
        ),
    decreases n,
{
    let p = period(sample_rate);
    if n == 0 {
        vstd::arithmetic::div_mod::lemma_small_mod(phase as nat, p as nat);
    } else {
        law_phase_accumulates(phase, frequency, sample_rate, (n - 1) as nat);
        let before = phase + (n - 1) * frequency;
        let earlier = phase_after(phase, frequency, sample_rate, (n - 1) as nat);
        assert(earlier == before % p);
        assert(before + frequency == phase + n * frequency) by (nonlinear_arith)
            requires
                before == phase + (n - 1) * frequency,
        ;
        vstd::arithmetic::div_mod::lemma_add_mod_noop_right(frequency as int, before, p);
        assert((frequency + before % p) % p == (frequency + before) % p);
        vstd::arithmetic::div_mod::lemma_mod_bound(earlier + frequency, p);
        assert(phase_after(phase, frequency, sample_rate, n) == next_phase(
            earlier,
            frequency,
            sample_rate,
        ));
    }
}

} // verus!
