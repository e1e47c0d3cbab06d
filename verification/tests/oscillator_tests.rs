use polysynth::keys::{create_key_frequency_map, key_frequency, Key};
use polysynth::oscillator::{Oscillator, Sample};
use polysynth::ratio::Ratio;
use polysynth::voice::{Voice, VoiceFrame};

fn to_float(sample: Sample) -> f64 {
    match sample {
        Sample::Exact(r) => r.num as f64 / r.den as f64,
        Sample::SineOf(t) => (2.0 * std::f64::consts::PI * (t.num as f64 / t.den as f64)).sin(),
    }
}

#[test]
fn samples_at_phase_zero() {
    assert_eq!(to_float(Oscillator::Sine.sample(0, 4_410_000)), 0.0);
    assert_eq!(to_float(Oscillator::Square.sample(0, 4_410_000)), 1.0);
    assert_eq!(to_float(Oscillator::Sawtooth.sample(0, 4_410_000)), -1.0);
    assert_eq!(to_float(Oscillator::Triangle.sample(0, 4_410_000)), -1.0);
    assert_eq!(Oscillator::Square.sample(0, 8), Sample::Exact(Ratio { num: 1, den: 1 }));
    assert_eq!(Oscillator::Sawtooth.sample(0, 8), Sample::Exact(Ratio { num: -8, den: 8 }));
    assert_eq!(Oscillator::Triangle.sample(0, 8), Sample::Exact(Ratio { num: -8, den: 8 }));
    assert_eq!(Oscillator::Sine.sample(0, 8), Sample::SineOf(Ratio { num: 0, den: 8 }));
}

#[test]
fn square_switches_at_half_cycle() {
    assert_eq!(Oscillator::Square.sample(3, 8), Sample::Exact(Ratio { num: 1, den: 1 }));
    assert_eq!(Oscillator::Square.sample(4, 8), Sample::Exact(Ratio { num: -1, den: 1 }));
    assert_eq!(Oscillator::Square.sample(7, 8), Sample::Exact(Ratio { num: -1, den: 1 }));
    assert_eq!(Oscillator::Square.sample(3, 7), Sample::Exact(Ratio { num: 1, den: 1 }));
}

#[test]
fn sawtooth_is_two_phase_minus_one() {
    assert_eq!(Oscillator::Sawtooth.sample(2, 8), Sample::Exact(Ratio { num: -4, den: 8 }));
    assert_eq!(Oscillator::Sawtooth.sample(4, 8), Sample::Exact(Ratio { num: 0, den: 8 }));
    assert_eq!(Oscillator::Sawtooth.sample(7, 8), Sample::Exact(Ratio { num: 6, den: 8 }));
}

#[test]
fn triangle_rises_then_falls() {
    assert_eq!(Oscillator::Triangle.sample(1, 8), Sample::Exact(Ratio { num: -4, den: 8 }));
    assert_eq!(Oscillator::Triangle.sample(2, 8), Sample::Exact(Ratio { num: 0, den: 8 }));
    assert_eq!(Oscillator::Triangle.sample(4, 8), Sample::Exact(Ratio { num: 8, den: 8 }));
    assert_eq!(Oscillator::Triangle.sample(6, 8), Sample::Exact(Ratio { num: 0, den: 8 }));
    assert_eq!(Oscillator::Triangle.sample(7, 8), Sample::Exact(Ratio { num: -4, den: 8 }));
}

#[test]
fn sine_names_its_angle() {
    assert_eq!(Oscillator::Sine.sample(2, 8), Sample::SineOf(Ratio { num: 2, den: 8 }));
    assert!((to_float(Oscillator::Sine.sample(2, 8)) - 1.0).abs() < 1e-12);
    assert!((to_float(Oscillator::Sine.sample(6, 8)) + 1.0).abs() < 1e-12);
}

#[test]
fn every_sample_is_bounded() {
    let period: u64 = 1000;
    for osc in [Oscillator::Sine, Oscillator::Square, Oscillator::Sawtooth, Oscillator::Triangle] {
        for phase in 0..period {
            let x = to_float(osc.sample(phase, period));
            assert!(-1.0 <= x && x <= 1.0);
        }
    }
}

#[test]
fn frequency_table_has_thirteen_notes() {
    let rows = create_key_frequency_map();
    assert_eq!(rows.len(), 13);
    assert_eq!(rows[0], (Key::Z, 26163));
    assert_eq!(rows[9], (Key::N, 44000));
    assert_eq!(rows[12], (Key::Comma, 52325));
    for row in rows {
        assert_eq!(key_frequency(row.0), Some(row.1));
    }
}

#[test]
fn key_frequency_of_each_key() {
    assert_eq!(key_frequency(Key::Z), Some(26163));
    assert_eq!(key_frequency(Key::S), Some(27718));
    assert_eq!(key_frequency(Key::X), Some(29366));
    assert_eq!(key_frequency(Key::D), Some(31113));
    assert_eq!(key_frequency(Key::C), Some(32963));
    assert_eq!(key_frequency(Key::V), Some(34923));
    assert_eq!(key_frequency(Key::G), Some(36999));
    assert_eq!(key_frequency(Key::B), Some(39299));
    assert_eq!(key_frequency(Key::H), Some(41530));
    assert_eq!(key_frequency(Key::N), Some(44000));
    assert_eq!(key_frequency(Key::J), Some(46616));
    assert_eq!(key_frequency(Key::M), Some(49388));
    assert_eq!(key_frequency(Key::Comma), Some(52325));
    assert_eq!(key_frequency(Key::Escape), None);
    assert_eq!(key_frequency(Key::Other(0)), None);
    assert_eq!(key_frequency(Key::Other(77)), None);
}

#[test]
fn phase_accumulates_modulo_one_cycle() {
    let rate: u32 = 44100;
    let period: u64 = 4_410_000;
    let mut voice = Voice::new(Key::N, 44000, Oscillator::Sawtooth, rate);
    assert_eq!(voice.phase, 0);
    for n in 1..=1000u64 {
        voice.generate_sample(rate);
        assert_eq!(voice.phase, (n * 44000) % period);
        assert!(voice.phase < period);
    }
}

#[test]
fn phase_wraps_when_frequency_exceeds_rate() {
    let mut voice = Voice::new(Key::N, 44000, Oscillator::Square, 100);
    voice.generate_sample(100);
    assert_eq!(voice.phase, 4000);
    voice.generate_sample(100);
    assert_eq!(voice.phase, 8000);
    voice.generate_sample(100);
    assert_eq!(voice.phase, 2000);
}

#[test]
fn generate_sample_takes_waveform_before_advancing() {
    let mut voice = Voice::new(Key::Z, 26163, Oscillator::Sawtooth, 1000);
    voice.envelope.trigger();
    let first: VoiceFrame = voice.generate_sample(1000);
    assert_eq!(first.sample, Sample::Exact(Ratio { num: -100_000, den: 100_000 }));
    assert_eq!(first.gain, Ratio { num: 0, den: 50 });
    let second = voice.generate_sample(1000);
    assert_eq!(
        second.sample,
        Sample::Exact(Ratio { num: 2 * 26163 - 100_000, den: 100_000 })
    );
    assert_eq!(second.gain, Ratio { num: 1, den: 50 });
}

#[test]
fn idle_voice_has_zero_gain() {
    let mut voice = Voice::new(Key::Z, 26163, Oscillator::Sine, 44100);
    let frame = voice.generate_sample(44100);
    assert_eq!(frame.gain, Ratio { num: 0, den: 5 });
}

#[test]
fn zero_and_one_fractions() {
    assert_eq!(Ratio::zero(), Ratio { num: 0, den: 1 });
    assert_eq!(Ratio::one(), Ratio { num: 1, den: 1 });
}

#[test]
fn sample_outside_the_cycle_follows_the_formula() {
    assert_eq!(Oscillator::Sawtooth.sample(12, 8), Sample::Exact(Ratio { num: 16, den: 8 }));
    assert_eq!(Oscillator::Square.sample(12, 8), Sample::Exact(Ratio { num: -1, den: 1 }));
    assert_eq!(Oscillator::Triangle.sample(12, 8), Sample::Exact(Ratio { num: -24, den: 8 }));
}
