use polysynth::envelope::{stage_length, Envelope, EnvelopePhase};
use polysynth::ratio::Ratio;

fn value(r: Ratio) -> f64 {
    r.num as f64 / r.den as f64
}

#[test]
fn stage_length_truncates() {
    assert_eq!(stage_length(10, 44100), 441);
    assert_eq!(stage_length(100, 44100), 4410);
    assert_eq!(stage_length(200, 44100), 8820);
    assert_eq!(stage_length(1, 999), 0);
    assert_eq!(stage_length(3, 500), 1);
    assert_eq!(stage_length(u32::MAX, u32::MAX), 18446744065119617);
}

#[test]
fn new_envelope_is_idle_and_silent() {
    let mut env = Envelope::new(10, 100, 700, 200, 1000);
    assert_eq!(env.phase, EnvelopePhase::Idle);
    assert_eq!(env.samples_processed, 0);
    assert_eq!(env.process(), Ratio { num: 0, den: 1 });
    assert_eq!(env.process(), Ratio { num: 0, den: 1 });
    assert_eq!(env.phase, EnvelopePhase::Idle);
    assert_eq!(env.samples_processed, 0);
}

#[test]
fn attack_ramps_linearly_to_peak() {
    let mut env = Envelope::new(10, 100, 700, 200, 1000);
    env.trigger();
    assert_eq!(env.phase, EnvelopePhase::Attack);
    for k in 0..10 {
        let level = env.process();
        assert_eq!(level, Ratio { num: k, den: 10 });
        assert_eq!(env.phase, EnvelopePhase::Attack);
    }
    let peak = env.process();
    assert_eq!(peak, Ratio { num: 10, den: 10 });
    assert_eq!(env.phase, EnvelopePhase::Decay);
    assert_eq!(env.samples_processed, 1);
}

#[test]
fn decay_ramps_to_sustain_and_holds() {
    let mut env = Envelope::new(10, 100, 700, 200, 1000);
    env.trigger();
    for _ in 0..11 {
        env.process();
    }
    assert_eq!(env.phase, EnvelopePhase::Decay);
    let first = env.process();
    assert_eq!(first, Ratio { num: 100_000 - 300, den: 100_000 });
    for k in 2..100 {
        let level = env.process();
        assert_eq!(level, Ratio { num: 100_000 - 300 * k, den: 100_000 });
        assert_eq!(env.phase, EnvelopePhase::Decay);
    }
    let last = env.process();
    assert_eq!(last, Ratio { num: 70_000, den: 100_000 });
    assert_eq!(env.phase, EnvelopePhase::Sustain);
    for _ in 0..1000 {
        assert_eq!(env.process(), Ratio { num: 700, den: 1000 });
        assert_eq!(env.phase, EnvelopePhase::Sustain);
    }
}

#[test]
fn release_ramps_to_silence_and_idles() {
    let mut env = Envelope::new(10, 100, 700, 200, 1000);
    env.trigger();
    for _ in 0..200 {
        env.process();
    }
    assert_eq!(env.phase, EnvelopePhase::Sustain);
    env.release();
    assert_eq!(env.phase, EnvelopePhase::Release);
    assert_eq!(env.samples_processed, 0);
    for k in 0..200 {
        let level = env.process();
        assert_eq!(level, Ratio { num: 700 * (200 - k), den: 200_000 });
        assert_eq!(env.phase, EnvelopePhase::Release);
    }
    assert_eq!(env.process(), Ratio { num: 0, den: 1 });
    assert_eq!(env.phase, EnvelopePhase::Idle);
    for _ in 0..10 {
        assert_eq!(env.process(), Ratio { num: 0, den: 1 });
        assert_eq!(env.phase, EnvelopePhase::Idle);
    }
}

#[test]
fn release_halfway_is_half_of_sustain() {
    let mut env = Envelope::new(0, 0, 700, 200, 1000);
    env.trigger();
    env.release();
    for _ in 0..100 {
        env.process();
    }
    let level = env.process();
    assert!((value(level) - 0.35).abs() < 1e-12);
}

#[test]
fn zero_attack_jumps_to_decay() {
    let mut env = Envelope::new(0, 100, 700, 200, 44100);
    env.trigger();
    assert_eq!(env.process(), Ratio { num: 1, den: 1 });
    assert_eq!(env.phase, EnvelopePhase::Decay);
    assert_eq!(env.samples_processed, 1);
}

#[test]
fn zero_decay_jumps_to_sustain() {
    let mut env = Envelope::new(0, 0, 250, 200, 44100);
    env.trigger();
    env.process();
    assert_eq!(env.process(), Ratio { num: 250, den: 1000 });
    assert_eq!(env.phase, EnvelopePhase::Sustain);
}

#[test]
fn zero_release_snaps_to_silence() {
    let mut env = Envelope::new(10, 100, 700, 0, 44100);
    env.trigger();
    env.process();
    env.release();
    assert_eq!(env.process(), Ratio { num: 0, den: 1 });
    assert_eq!(env.phase, EnvelopePhase::Idle);
}

#[test]
fn trigger_restarts_from_any_stage() {
    let mut env = Envelope::new(10, 100, 700, 200, 1000);
    env.trigger();
    for _ in 0..50 {
        env.process();
    }
    env.release();
    for _ in 0..5 {
        env.process();
    }
    env.trigger();
    assert_eq!(env.phase, EnvelopePhase::Attack);
    assert_eq!(env.samples_processed, 0);
    assert_eq!(env.process(), Ratio { num: 0, den: 10 });
    assert_eq!(env.process(), Ratio { num: 1, den: 10 });
}

#[test]
fn levels_stay_in_unit_interval() {
    let mut env = Envelope::new(7, 13, 333, 29, 48000);
    env.trigger();
    for i in 0..5000 {
        if i == 2500 {
            env.release();
        }
        let level = env.process();
        assert!(level.den > 0);
        assert!(0 <= level.num && level.num <= level.den);
    }
    assert_eq!(env.phase, EnvelopePhase::Idle);
}
