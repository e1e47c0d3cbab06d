//! What holds of an envelope over whole stages: the ramps are linear in
//! the sample count and end at the peak, the sustain level and silence.

use vstd::prelude::*;
use crate::envelope::{Envelope, EnvelopePhase};
use crate::ratio::Ratio;

verus! {

/// Both envelopes have the same stage times, sustain level and sample rate.
pub open spec fn same_settings(a: Envelope, b: Envelope) -> bool {
    &&& a.attack_time == b.attack_time
    &&& a.decay_time == b.decay_time
    &&& a.sustain_level == b.sustain_level
    &&& a.release_time == b.release_time
    &&& a.sample_rate == b.sample_rate
}

/// The sample count at which the current ramp ends; 0 outside a ramp.
pub open spec fn stage_end(env: Envelope) -> int {
    match env.phase {
        EnvelopePhase::Attack => env.attack_samples(),
        EnvelopePhase::Decay => env.decay_samples(),
        EnvelopePhase::Release => env.release_samples(),
        _ => 0,
    }
}

/// Ticks add up: `m + n` ticks are `m` ticks followed by `n` ticks.
pub proof fn lemma_after_add(env: Envelope, m: nat, n: nat)
    ensures
        env.after(m + n) == env.after(m).after(n),
    decreases n,
{
    if n > 0 {
        lemma_after_add(env, m, (n - 1) as nat);
        assert(env.after(m + n) == env.after((m + n - 1) as nat).step());
    }
}

/// Ticks keep an envelope well formed and never change its settings.
pub proof fn lemma_after_wf(env: Envelope, n: nat)
    requires
        env.wf(),
    ensures
        env.after(n).wf(),
        same_settings(env.after(n), env),
    decreases n,
{
    if n > 0 {
        lemma_after_wf(env, (n - 1) as nat);
        crate::envelope::lemma_output_unit(env.after((n - 1) as nat));
    }
}

/// Within a ramp each tick only counts one sample: as long as the ramp's
/// end is not passed, `j` ticks leave the stage unchanged and the counter
/// `j` higher.
pub proof fn lemma_ramp(env: Envelope, j: nat)
    requires
        env.wf(),
        env.phase == EnvelopePhase::Attack || env.phase == EnvelopePhase::Decay || env.phase
            == EnvelopePhase::Release,
        env.samples_processed + j <= stage_end(env),
    ensures
        env.after(j).phase == env.phase,
        env.after(j).samples_processed == env.samples_processed + j,
        same_settings(env.after(j), env),
        env.after(j).wf(),
    decreases j,
{
    if j > 0 {
        lemma_ramp(env, (j - 1) as nat);
        crate::envelope::lemma_stage_bound(env.attack_time, env.sample_rate);
        crate::envelope::lemma_stage_bound(env.decay_time, env.sample_rate);
        crate::envelope::lemma_stage_bound(env.release_time, env.sample_rate);
        crate::envelope::lemma_output_unit(env.after((j - 1) as nat));
    }
}

/// The attack is a linear ramp: the tick with index `k` after a trigger,
/// counted from 0, emits `k / attack_samples`.
pub proof fn law_attack_ramp(env: Envelope, k: nat)
    requires
        env.wf(),
        env.attack_samples() > 0,
        k <= env.attack_samples(),
    ensures
        env.triggered().after(k).phase == EnvelopePhase::Attack,
        env.triggered().after(k).output() == (Ratio {
            num: k as i128,
            den: env.attack_samples() as i128,
        }),
{
    lemma_ramp(env.triggered(), k);
}

/// The attack ends at the peak: after a trigger the tick with index
/// `attack_samples` emits 1, and leaves the envelope at the start of the
/// decay with the level 1 stored.
pub proof fn law_attack_peak(env: Envelope)
    requires
        env.wf(),
    ensures
        env.triggered().after(env.attack_samples() as nat).output().is_int(1),
        env.triggered().after((env.attack_samples() + 1) as nat).phase == EnvelopePhase::Decay,
        env.triggered().after((env.attack_samples() + 1) as nat).samples_processed == 1,
        env.triggered().after((env.attack_samples() + 1) as nat).current_level.is_int(1),
        same_settings(env.triggered().after((env.attack_samples() + 1) as nat), env),
{
    let a = env.attack_samples() as nat;
    lemma_ramp(env.triggered(), a);
    assert(env.triggered().after(a + 1) == env.triggered().after(a).step());
}

/// An attack of no samples collapses: the first tick after a trigger emits
/// 1 and leaves the envelope in the decay.
pub proof fn law_zero_attack(env: Envelope)
    requires
        env.wf(),
        env.attack_samples() == 0,
    ensures
        env.triggered().output() == Ratio::spec_one(),
        env.triggered().step().phase == EnvelopePhase::Decay,
{
}

/// The number of ticks that a decay takes once the attack has left it:
/// `decay_samples`, and one tick where that is 0.
pub open spec fn decay_ticks(env: Envelope) -> nat {
    if env.decay_samples() == 0 {
        1
    } else {
        env.decay_samples() as nat
    }
}

/// The decay is a linear ramp down from the peak: with `k` samples counted,
/// the tick emits `1 - (1 - sustain) · k / decay_samples`.
pub proof fn law_decay_ramp(env: Envelope, k: nat)
    requires
        env.wf(),
        env.phase == EnvelopePhase::Decay,
        env.samples_processed == 1,
        1 <= k <= env.decay_samples(),
    ensures
        env.after((k - 1) as nat).phase == EnvelopePhase::Decay,
        env.after((k - 1) as nat).output() == (Ratio {
            num: (1000 * env.decay_samples() - (1000 - env.sustain_level) * k) as i128,
            den: (1000 * env.decay_samples()) as i128,
        }),
{
    lemma_ramp(env, (k - 1) as nat);
}

/// The decay ends at the sustain level: from where the attack leaves the
/// envelope, the last tick of the decay emits the sustain level, and the
/// envelope is in the sustain stage from then on.
pub proof fn law_decay_end(env: Envelope)
    requires
        env.wf(),
        env.phase == EnvelopePhase::Decay,
        env.samples_processed == 1,
    ensures
        env.after((decay_ticks(env) - 1) as nat).output().same_value(env.sustain()),
        env.after(decay_ticks(env)).phase == EnvelopePhase::Sustain,
        env.after(decay_ticks(env)).current_level.same_value(env.sustain()),
        same_settings(env.after(decay_ticks(env)), env),
{
    let d = env.decay_samples();
    let n = decay_ticks(env);
    if d == 0 {
        assert(env.after(1) == env.after(0).step());
    } else {
        lemma_ramp(env, (d - 1) as nat);
        let last = env.after((d - 1) as nat);
        assert(env.after(n) == last.step());
        let s = env.sustain_level as int;
        assert((1000 * d - (1000 - s) * d) * 1000 == s * (1000 * d)) by (nonlinear_arith);
        crate::envelope::lemma_output_unit(last);
    }
}

/// The sustain stage holds: any number of ticks leaves the envelope as it
/// is, and each emits the sustain level.
pub proof fn law_sustain_holds(env: Envelope, n: nat)
    requires
        env.phase == EnvelopePhase::Sustain,
    ensures
        env.after(n) == env,
        env.after(n).output() == env.sustain(),
    decreases n,
{
    if n > 0 {
        law_sustain_holds(env, (n - 1) as nat);
    }
}

/// The release is a linear ramp from the sustain level down to silence:
/// the tick with index `k` after a release emits
/// `sustain · (1 - k / release_samples)`.
pub proof fn law_release_ramp(env: Envelope, k: nat)
    requires
        env.wf(),
        k < env.release_samples(),
    ensures
        env.released().after(k).phase == EnvelopePhase::Release,
        env.released().after(k).output() == (Ratio {
            num: (env.sustain_level * (env.release_samples() - k)) as i128,
            den: (1000 * env.release_samples()) as i128,
        }),
{
    lemma_ramp(env.released(), k);
}

/// The release ends in silence: the tick with index `release_samples`
/// after a release emits 0 and leaves the envelope idle with the level 0
/// stored.
pub proof fn law_release_end(env: Envelope)
    requires
        env.wf(),
    ensures
        env.released().after(env.release_samples() as nat).output() == Ratio::spec_zero(),
        env.released().after((env.release_samples() + 1) as nat).phase == EnvelopePhase::Idle,
        env.released().after((env.release_samples() + 1) as nat).current_level
            == Ratio::spec_zero(),
{
    let r = env.release_samples() as nat;
    lemma_ramp(env.released(), r);
    assert(env.released().after(r + 1) == env.released().after(r).step());
}

/// An idle envelope stays idle: any number of ticks leaves it as it is,
/// and each emits 0.
pub proof fn law_idle_holds(env: Envelope, n: nat)
    requires
        env.phase == EnvelopePhase::Idle,
    ensures
        env.after(n) == env,
        env.after(n).output() == Ratio::spec_zero(),
    decreases n,
{
    if n > 0 {
        law_idle_holds(env, (n - 1) as nat);
    }
}

/// From a trigger to the sustain stage: after the attack's
/// `attack_samples + 1` ticks and the decay's ticks the envelope is in the
/// sustain stage, and every later tick emits the sustain level.
pub proof fn law_trigger_reaches_sustain(env: Envelope, n: nat)
    requires
        env.wf(),
    ensures
        ({
            let at_decay = env.triggered().after((env.attack_samples() + 1) as nat);
            let ticks = (env.attack_samples() + 1) as nat + decay_ticks(at_decay);
            &&& env.triggered().after(ticks).phase == EnvelopePhase::Sustain
            &&& env.triggered().after(ticks + n).output() == env.sustain()
        }),
{
    let a1 = (env.attack_samples() + 1) as nat;
    let at_decay = env.triggered().after(a1);
    law_attack_peak(env);
    lemma_after_wf(env.triggered(), a1);
    law_decay_end(at_decay);
    let dt = decay_ticks(at_decay);
    lemma_after_add(env.triggered(), a1, dt);
    let held = env.triggered().after(a1 + dt);
    law_sustain_holds(held, n);
    lemma_after_add(env.triggered(), a1 + dt, n);
}

/// From a release to silence: after `release_samples + 1` ticks the
/// envelope is idle, and every later tick emits 0 and leaves it idle.
pub proof fn law_release_reaches_idle(env: Envelope, n: nat)
    requires
        env.wf(),
    ensures
        env.released().after((env.release_samples() + 1 + n) as nat).phase
            == EnvelopePhase::Idle,
        env.released().after((env.release_samples() + 1 + n) as nat).output()
            == Ratio::spec_zero(),
{
    let r1 = (env.release_samples() + 1) as nat;
    law_release_end(env);
    law_idle_holds(env.released().after(r1), n);
    lemma_after_add(env.released(), r1, n);
}

} // verus!
