//! What holds of the voices over presses, releases and reaping.

use vstd::prelude::*;
use crate::envelope::EnvelopePhase;
use crate::keys::{frequency_of, Key};
use crate::manager::{distinct_keys, has_voice, lemma_live, lifted, live, pressed, voice_index};
use crate::oscillator::Oscillator;
use crate::voice::Voice;

verus! {

/// The first press of a note key adds exactly one voice: the others stay
/// as they are, and the new one stands last, at the start of its cycle and
/// in the attack.
pub proof fn law_first_press_adds_one_voice(
    voices: Seq<Voice>,
    key: Key,
    oscillator: Oscillator,
    sample_rate: u32,
)
    requires
        frequency_of(key) is Some,
        !has_voice(voices, key),
    ensures
        pressed(voices, key, oscillator, sample_rate).len() == voices.len() + 1,
        pressed(voices, key, oscillator, sample_rate).drop_last() == voices,
        pressed(voices, key, oscillator, sample_rate).last().key == key,
        pressed(voices, key, oscillator, sample_rate).last().phase == 0,
        pressed(voices, key, oscillator, sample_rate).last().frequency == frequency_of(
            key,
        ).unwrap(),
        pressed(voices, key, oscillator, sample_rate).last().envelope.phase
            == EnvelopePhase::Attack,
        has_voice(pressed(voices, key, oscillator, sample_rate), key),
{
    let after = pressed(voices, key, oscillator, sample_rate);
    assert(after.drop_last() =~= voices);
    assert(after[after.len() - 1].key == key);
}

/// A press of a key that sounds adds no voice: every voice keeps its key,
/// its frequency and its phase, the voice of the key has its envelope
/// triggered, and the other voices are untouched.
pub proof fn law_repeated_press_keeps_voices(
    voices: Seq<Voice>,
    key: Key,
    oscillator: Oscillator,
    sample_rate: u32,
)
    requires
        distinct_keys(voices),
        frequency_of(key) is Some,
        has_voice(voices, key),
    ensures
        pressed(voices, key, oscillator, sample_rate).len() == voices.len(),
        distinct_keys(pressed(voices, key, oscillator, sample_rate)),
        forall|i: int|
            0 <= i < voices.len() ==> {
                let now = #[trigger] pressed(voices, key, oscillator, sample_rate)[i];
                &&& now.key == voices[i].key
                &&& now.phase == voices[i].phase
                &&& now.frequency == voices[i].frequency
                &&& now.oscillator == voices[i].oscillator
                &&& now.envelope == if voices[i].key == key {
                    voices[i].envelope.triggered()
                } else {
                    voices[i].envelope
                }
            },
{
    let after = pressed(voices, key, oscillator, sample_rate);
    let at = voice_index(voices, key);
    assert forall|i: int| 0 <= i < voices.len() && voices[i].key == key implies i == at by {
        if i < at {
            assert(voices[i].key != voices[at].key);
        } else if at < i {
            assert(voices[at].key != voices[i].key);
        }
    }
    assert forall|i: int, j: int| 0 <= i < j < after.len() implies (#[trigger] after[i]).key != (
    #[trigger] after[j]).key by {
        assert(voices[i].key != voices[j].key);
    }
}

/// Pressing a silent note key twice leaves one voice for it, with the
/// phase that the first press gave it.
pub proof fn law_press_twice(
    voices: Seq<Voice>,
    key: Key,
    oscillator: Oscillator,
    sample_rate: u32,
)
    requires
        distinct_keys(voices),
        frequency_of(key) is Some,
        !has_voice(voices, key),
    ensures
        ({
            let once = pressed(voices, key, oscillator, sample_rate);
            let twice = pressed(once, key, oscillator, sample_rate);
            &&& twice.len() == voices.len() + 1
            &&& twice == once
            &&& distinct_keys(twice)
        }),
{
    let once = pressed(voices, key, oscillator, sample_rate);
    assert(once[once.len() - 1].key == key);
    assert forall|i: int, j: int| 0 <= i < j < once.len() implies (#[trigger] once[i]).key != (
    #[trigger] once[j]).key by {
        if j < voices.len() {
            assert(voices[i].key != voices[j].key);
        } else {
            assert(voices[i].key != key);
        }
    }
    law_repeated_press_keeps_voices(once, key, oscillator, sample_rate);
    let twice = pressed(once, key, oscillator, sample_rate);
    assert forall|i: int| 0 <= i < once.len() implies twice[i] == once[i] by {
        if once[i].key == key {
            assert(i == once.len() - 1) by {
                if i < once.len() - 1 {
                    assert(once[i].key != once[once.len() - 1].key);
                }
            }
        }
    }
    assert(twice =~= once);
}

/// The release of a key that has no voice changes nothing.
pub proof fn law_release_without_voice(voices: Seq<Voice>, key: Key)
    requires
        !has_voice(voices, key),
    ensures
        lifted(voices, key) == voices,
{
}

/// The release of a key that sounds releases the envelope of its voice and
/// touches nothing else.
pub proof fn law_release_keeps_voices(voices: Seq<Voice>, key: Key)
    requires
        distinct_keys(voices),
        has_voice(voices, key),
    ensures
        lifted(voices, key).len() == voices.len(),
        forall|i: int|
            0 <= i < voices.len() ==> #[trigger] lifted(voices, key)[i] == if voices[i].key
                == key {
                voices[i].let_go()
            } else {
                voices[i]
            },
{
    let at = voice_index(voices, key);
    assert forall|i: int| 0 <= i < voices.len() && voices[i].key == key implies i == at by {
        if i < at {
            assert(voices[i].key != voices[at].key);
        } else if at < i {
            assert(voices[at].key != voices[i].key);
        }
    }
}

/// Reaping removes exactly the voices whose envelope is idle: a voice is
/// there afterwards if and only if it was there before and its envelope is
/// in another stage.
pub proof fn law_reap_removes_idle(voices: Seq<Voice>, voice: Voice)
    ensures
        live(voices).contains(voice) <==> voices.contains(voice) && voice.envelope.phase
            != EnvelopePhase::Idle,
{
    lemma_live(voices);
    if live(voices).contains(voice) {
        let k = choose|k: int| 0 <= k < live(voices).len() && live(voices)[k] == voice;
        assert(voices.contains(live(voices)[k]));
    }
    if voices.contains(voice) && voice.envelope.phase != EnvelopePhase::Idle {
        let k = choose|k: int| 0 <= k < voices.len() && voices[k] == voice;
        assert(live(voices).contains(voices[k]));
    }
}

} // verus!
