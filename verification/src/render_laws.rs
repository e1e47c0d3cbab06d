//! What holds of voices over many samples: the phase accumulates, the
//! envelope runs its stages, and a held note settles at the sustain gain.

use vstd::prelude::*;
use crate::envelope_laws::{decay_ticks, law_release_reaches_idle, law_trigger_reaches_sustain};
use crate::keys::{frequency_of, Key};
use crate::manager::{frames_of, has_voice, live, pressed};
use crate::oscillator::Oscillator;
use crate::ratio::Ratio;
use crate::renderer::advanced_by;
use crate::voice::{phase_after, Voice, GAIN_DIVISOR, SUSTAIN_LEVEL};

verus! {

/// The voice `n` samples later.
pub open spec fn voice_after(voice: Voice, sample_rate: u32, n: nat) -> Voice
    decreases n,
{
    if n == 0 {
        voice
    } else {
        voice_after(voice, sample_rate, (n - 1) as nat).advanced(sample_rate)
    }
}

/// Over `n` samples a voice keeps its key, frequency and waveform; its
/// phase accumulates and its envelope ticks `n` times.
pub proof fn law_voice_after(voice: Voice, sample_rate: u32, n: nat)
    ensures
        voice_after(voice, sample_rate, n) == (Voice {
            phase: phase_after(voice.phase, voice.frequency, sample_rate, n),
            envelope: voice.envelope.after(n),
            ..voice
        }),
    decreases n,
{
    if n > 0 {
        law_voice_after(voice, sample_rate, (n - 1) as nat);
    }
}

/// Rendering `n` samples advances every voice by `n` samples and neither
/// adds, removes nor reorders voices.
pub proof fn law_advanced_by(voices: Seq<Voice>, sample_rate: u32, n: nat)
    ensures
        advanced_by(voices, sample_rate, n).len() == voices.len(),
        forall|i: int|
            0 <= i < voices.len() ==> #[trigger] advanced_by(voices, sample_rate, n)[i]
                == voice_after(voices[i], sample_rate, n),
    decreases n,
{
    if n > 0 {
        law_advanced_by(voices, sample_rate, (n - 1) as nat);
    }
}

/// The samples that the attack and the decay of a voice's envelope take.
pub open spec fn settle_samples(voice: Voice) -> nat {
    let attack = (voice.envelope.attack_samples() + 1) as nat;
    attack + decay_ticks(voice.envelope.triggered().after(attack))
}

/// A held note settles: once the attack and the decay of a newly pressed
/// key are over, its voice adds the waveform at the sustain level times
/// the fixed gain to every sample, 0.7 · 0.2 of the waveform.
pub proof fn law_held_note_settles(
    key: Key,
    oscillator: Oscillator,
    sample_rate: u32,
    extra: nat,
)
    requires
        frequency_of(key) is Some,
        sample_rate > 0,
    ensures
        ({
            let voices = pressed(Seq::<Voice>::empty(), key, oscillator, sample_rate);
            let n = settle_samples(voices[0]) + extra;
            let later = advanced_by(voices, sample_rate, n);
            &&& voices.len() == 1
            &&& later.len() == 1
            &&& later[0].key == key
            &&& frames_of(later, sample_rate)[0].gain == (Ratio {
                num: SUSTAIN_LEVEL as i128,
                den: (1000 * GAIN_DIVISOR) as i128,
            })
        }),
{
    let none = Seq::<Voice>::empty();
    assert(!has_voice(none, key));
    let voices = pressed(none, key, oscillator, sample_rate);
    let voice = voices[0];
    let n = settle_samples(voice) + extra;
    law_advanced_by(voices, sample_rate, n);
    law_voice_after(voice, sample_rate, n);
    assert(voice.envelope.triggered() == voice.envelope);
    law_trigger_reaches_sustain(voice.envelope, extra);
}

/// A released note dies away: `release_samples + 1` samples after its
/// release, and from then on, a voice is silent and idle, and reaping
/// removes it.
pub proof fn law_released_note_is_reaped(voice: Voice, sample_rate: u32, extra: nat)
    requires
        voice.envelope.wf(),
    ensures
        ({
            let n = (voice.envelope.release_samples() + 1 + extra) as nat;
            let later = advanced_by(seq![voice.let_go()], sample_rate, n);
            &&& later.len() == 1
            &&& frames_of(later, sample_rate)[0].gain.is_int(0)
            &&& live(later) == Seq::<Voice>::empty()
        }),
{
    let n = (voice.envelope.release_samples() + 1 + extra) as nat;
    let start = seq![voice.let_go()];
    let later = advanced_by(start, sample_rate, n);
    law_advanced_by(start, sample_rate, n);
    law_voice_after(voice.let_go(), sample_rate, n);
    law_release_reaches_idle(voice.envelope, extra);
    assert(later.drop_last().len() == 0);
    assert(live(later.drop_last()) =~= Seq::<Voice>::empty());
}

} // verus!
