//! The attack-decay-sustain-release gain envelope of a voice.

use vstd::prelude::*;
use crate::ratio::Ratio;

verus! {

/// The stage that an envelope is in.
#[derive(Clone, Copy, Debug, PartialEq, Eq, Structural)]
pub enum EnvelopePhase {
    Idle,
    Attack,
    Decay,
    Sustain,
    Release,
}

/// A gain envelope. Times are in milliseconds, the sustain level in
/// thousandths of the peak, the sample rate in hertz.
#[derive(Clone, Copy, Debug, PartialEq, Eq, Structural)]
pub struct Envelope {
    pub attack_time: u32,
    pub decay_time: u32,
    pub sustain_level: u32,
    pub release_time: u32,
    pub current_level: Ratio,
    pub phase: EnvelopePhase,
    pub sample_rate: u32,
    pub samples_processed: u64,
}

/// The number of whole samples in `time` milliseconds at `sample_rate`.
pub open spec fn stage_samples(time: u32, sample_rate: u32) -> int {
    (time as int * sample_rate as int) / 1000
}

/// The number of whole samples in `time` milliseconds at `sample_rate`.
pub fn stage_length(time: u32, sample_rate: u32) -> (n: u64)
    ensures
        n == stage_samples(time, sample_rate),
        n <= 0xffff_ffff_ffff_ffffu64 / 1000,
{
    assert(time as int * sample_rate as int <= 0xffff_ffff * 0xffff_ffff) by (nonlinear_arith)
        requires
            time <= 0xffff_ffff,
            sample_rate <= 0xffff_ffff,
    ;
    (time as u64 * sample_rate as u64) / 1000
}

impl Envelope {
    /// The length of the attack in samples.
    pub open spec fn attack_samples(self) -> int {
        stage_samples(self.attack_time, self.sample_rate)
    }

    /// The length of the decay in samples.
    pub open spec fn decay_samples(self) -> int {
        stage_samples(self.decay_time, self.sample_rate)
    }

    /// The length of the release in samples.
    pub open spec fn release_samples(self) -> int {
        stage_samples(self.release_time, self.sample_rate)
    }

    /// The sustain level is at most the peak, the stored level lies in
    /// [0, 1], and the sample counter has not run past the end of a ramp.
    pub open spec fn wf(self) -> bool {
        &&& self.sustain_level <= 1000
        &&& self.current_level.is_unit()
        &&& match self.phase {
            EnvelopePhase::Attack => self.samples_processed <= self.attack_samples(),
            EnvelopePhase::Decay => self.samples_processed <= self.decay_samples()
                || self.samples_processed <= 1,
            EnvelopePhase::Release => self.samples_processed <= self.release_samples(),
            _ => true,
        }
    }

    /// The sustain level as a fraction.
    pub open spec fn sustain(self) -> Ratio {
        Ratio { num: self.sustain_level as i128, den: 1000 }
    }

    /// The gain that the next tick emits.
    pub open spec fn output(self) -> Ratio {
        let c = self.samples_processed as int;
        let s = self.sustain_level as int;
        match self.phase {
            EnvelopePhase::Idle => Ratio::spec_zero(),
            EnvelopePhase::Attack => {
                let a = self.attack_samples();
                if a == 0 {
                    Ratio::spec_one()
                } else {
                    Ratio { num: c as i128, den: a as i128 }
                }
            },
            EnvelopePhase::Decay => {
                let d = self.decay_samples();
                if d == 0 {
                    self.sustain()
                } else {
                    Ratio { num: (1000 * d - (1000 - s) * c) as i128, den: (1000 * d) as i128 }
                }
            },
            EnvelopePhase::Sustain => self.sustain(),
            EnvelopePhase::Release => {
                let r = self.release_samples();
                if r == 0 || c >= r {
                    Ratio::spec_zero()
                } else {
                    Ratio { num: (s * (r - c)) as i128, den: (1000 * r) as i128 }
                }
            },
        }
    }

    /// The envelope after one tick.
    pub open spec fn step(self) -> Envelope {
        let c = self.samples_processed;
        let next = (c + 1) as u64;
        match self.phase {
            EnvelopePhase::Idle => self,
            EnvelopePhase::Sustain => self,
            EnvelopePhase::Attack => if c >= self.attack_samples() {
                Envelope {
                    current_level: self.output(),
                    phase: EnvelopePhase::Decay,
                    samples_processed: 1,
                    ..self
                }
            } else {
                Envelope { current_level: self.output(), samples_processed: next, ..self }
            },
            EnvelopePhase::Decay => if self.decay_samples() == 0 || c >= self.decay_samples() {
                Envelope {
                    current_level: self.output(),
                    phase: EnvelopePhase::Sustain,
                    samples_processed: next,
                    ..self
                }
            } else {
                Envelope { current_level: self.output(), samples_processed: next, ..self }
            },
            EnvelopePhase::Release => if c >= self.release_samples() {
                Envelope {
                    current_level: self.output(),
                    phase: EnvelopePhase::Idle,
                    samples_processed: next,
                    ..self
                }
            } else {
                Envelope { current_level: self.output(), samples_processed: next, ..self }
            },
        }
    }

    /// The envelope after `n` ticks.
    pub open spec fn after(self, n: nat) -> Envelope
        decreases n,
    {
        if n == 0 {
            self
        } else {
            self.after((n - 1) as nat).step()
        }
    }

    /// The envelope forced into the attack stage.
    pub open spec fn triggered(self) -> Envelope {
        Envelope { phase: EnvelopePhase::Attack, samples_processed: 0, ..self }
    }

    /// The envelope forced into the release stage.
    pub open spec fn released(self) -> Envelope {
        Envelope { phase: EnvelopePhase::Release, samples_processed: 0, ..self }
    }

    /// A silent, idle envelope with the given stage times (milliseconds),
    /// sustain level (thousandths) and sample rate (hertz).
    pub fn new(
        attack_time: u32,
        decay_time: u32,
        sustain_level: u32,
        release_time: u32,
        sample_rate: u32,
    ) -> (env: Envelope)
        requires
            sustain_level <= 1000,
        ensures
            env == (Envelope {
                attack_time,
                decay_time,
                sustain_level,
                release_time,
                current_level: Ratio::spec_zero(),
                phase: EnvelopePhase::Idle,
                sample_rate,
                samples_processed: 0,
            }),
            env.wf(),
    {
        Envelope {
            attack_time,
            decay_time,
            sustain_level,
            release_time,
            current_level: Ratio::zero(),
            phase: EnvelopePhase::Idle,
            sample_rate,
            samples_processed: 0,
        }
    }

    /// Starts the attack, from whatever stage the envelope is in.
    pub fn trigger(&mut self)
        requires
            old(self).wf(),
        ensures
            *final(self) == old(self).triggered(),
            final(self).wf(),
    {
        self.phase = EnvelopePhase::Attack;
        self.samples_processed = 0;
    }

    /// Starts the release, from whatever stage the envelope is in.
    pub fn release(&mut self)
        requires
            old(self).wf(),
        ensures
            *final(self) == old(self).released(),
            final(self).wf(),
    {
        self.phase = EnvelopePhase::Release;
        self.samples_processed = 0;
    }

    /// Advances the envelope by one sample and returns the gain of that
    /// sample, a fraction in [0, 1].
    pub fn process(&mut self) -> (level: Ratio)
        requires
            old(self).wf(),
        ensures
            level == old(self).output(),
            *final(self) == old(self).step(),
            final(self).wf(),
            level.is_unit(),
            level.den <= 1000 * (0xffff_ffff * 0xffff_ffff),
    {
        proof {
            lemma_output_unit(*self);
        }
        let c: u64 = self.samples_processed;
        let s: i128 = self.sustain_level as i128;
        match self.phase {
            EnvelopePhase::Idle => Ratio::zero(),
            EnvelopePhase::Attack => {
                let attack_samples: u64 = stage_length(self.attack_time, self.sample_rate);
                if attack_samples == 0 {
                    self.current_level = Ratio::one();
                    self.phase = EnvelopePhase::Decay;
                    self.samples_processed = 0;
                } else {
                    self.current_level = Ratio { num: c as i128, den: attack_samples as i128 };
                    if c >= attack_samples {
                        self.phase = EnvelopePhase::Decay;
                        self.samples_processed = 0;
                    }
                }
                self.samples_processed += 1;
                self.current_level
            },
            EnvelopePhase::Decay => {
                let decay_samples: u64 = stage_length(self.decay_time, self.sample_rate);
                if decay_samples == 0 {
                    self.current_level = Ratio { num: s, den: 1000 };
                    self.phase = EnvelopePhase::Sustain;
                } else {
                    let d: i128 = decay_samples as i128;
                    assert(0 <= (1000 - s) * (c as i128) <= 1000 * d) by (nonlinear_arith)
                        requires
                            0 <= s <= 1000,
                            0 <= c as i128 <= d,
                    ;
                    self.current_level = Ratio {
                        num: 1000 * d - (1000 - s) * (c as i128),
                        den: 1000 * d,
                    };
                    if c >= decay_samples {
                        self.phase = EnvelopePhase::Sustain;
                    }
                }
                self.samples_processed += 1;
                self.current_level
            },
            EnvelopePhase::Sustain => Ratio { num: s, den: 1000 },
            EnvelopePhase::Release => {
                let release_samples: u64 = stage_length(self.release_time, self.sample_rate);
                if release_samples == 0 {
                    self.current_level = Ratio::zero();
                    self.phase = EnvelopePhase::Idle;
                } else {
                    let r: i128 = release_samples as i128;
                    if c >= release_samples {
                        self.current_level = Ratio::zero();
                        self.phase = EnvelopePhase::Idle;
                    } else {
                        assert(0 <= s * (r - c as i128) <= 1000 * r) by (nonlinear_arith)
                            requires
                                0 <= s <= 1000,
                                0 <= c as i128 <= r,
                        ;
                        self.current_level = Ratio { num: s * (r - c as i128), den: 1000 * r };
                    }
                }
                self.samples_processed += 1;
                self.current_level
            },
        }
    }
}

/// A stage has fewer than 2^64 samples.
pub proof fn lemma_stage_bound(time: u32, sample_rate: u32)
    ensures
        0 <= stage_samples(time, sample_rate) <= 0xffff_ffff * 0xffff_ffff,
{
    assert(0 <= (time as int * sample_rate as int) / 1000 <= 0xffff_ffff * 0xffff_ffff)
        by (nonlinear_arith)
        requires
            0 <= time <= 0xffff_ffff,
            0 <= sample_rate <= 0xffff_ffff,
    ;
}

/// The gain of a well-formed envelope lies in [0, 1] with a denominator of
/// less than 2^74, and one tick keeps the envelope well formed.
pub proof fn lemma_output_unit(env: Envelope)
    requires
        env.wf(),
    ensures
        env.output().is_unit(),
        env.output().den <= 1000 * (0xffff_ffff * 0xffff_ffff),
        env.step().wf(),
{
    let c = env.samples_processed as int;
    let s = env.sustain_level as int;
    let a = env.attack_samples();
    let d = env.decay_samples();
    let r = env.release_samples();
    lemma_stage_bound(env.attack_time, env.sample_rate);
    lemma_stage_bound(env.decay_time, env.sample_rate);
    lemma_stage_bound(env.release_time, env.sample_rate);
    if env.phase == EnvelopePhase::Decay && d > 0 {
        assert(0 <= (1000 - s) * c <= 1000 * d) by (nonlinear_arith)
            requires
                0 <= s <= 1000,
                0 <= c <= d,
        ;
    }
    if env.phase == EnvelopePhase::Release && r > 0 && c < r {
        assert(0 <= s * (r - c) <= 1000 * r) by (nonlinear_arith)
            requires
                0 <= s <= 1000,
                0 <= c <= r,
        ;
    }
}

} // verus!
