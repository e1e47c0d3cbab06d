//! The set of sounding voices: at most one per key, in the order in which
//! the keys were first pressed.

use vstd::prelude::*;
use crate::envelope::EnvelopePhase;
use crate::keys::{frequency_of, key_frequency, Key};
use crate::oscillator::Oscillator;
use crate::voice::{Voice, VoiceFrame};

verus! {

/// Some voice in `voices` belongs to `key`.
pub open spec fn has_voice(voices: Seq<Voice>, key: Key) -> bool {
    exists|i: int| 0 <= i < voices.len() && (#[trigger] voices[i]).key == key
}

/// The place of the voice of `key` in `voices`, where it has one.
pub open spec fn voice_index(voices: Seq<Voice>, key: Key) -> int {
    choose|i: int| 0 <= i < voices.len() && (#[trigger] voices[i]).key == key
}

/// No two voices belong to the same key.
pub open spec fn distinct_keys(voices: Seq<Voice>) -> bool {
    forall|i: int, j: int|
        0 <= i < j < voices.len() ==> (#[trigger] voices[i]).key != (#[trigger] voices[j]).key
}

/// The voices after `key` went down. A key that plays no note changes
/// nothing; a sounding key has its envelope triggered and keeps its
/// phase; any other key gets a new, triggered voice at the end.
pub open spec fn pressed(voices: Seq<Voice>, key: Key, oscillator: Oscillator, sample_rate: u32)
    -> Seq<Voice> {
    match frequency_of(key) {
        None => voices,
        Some(frequency) => if has_voice(voices, key) {
            let i = voice_index(voices, key);
            voices.update(i, voices[i].retriggered())
        } else {
            voices.push(Voice::spec_new(key, frequency, oscillator, sample_rate).retriggered())
        },
    }
}

/// The voices after `key` came up: its voice, if it has one, has its
/// envelope released.
pub open spec fn lifted(voices: Seq<Voice>, key: Key) -> Seq<Voice> {
    if has_voice(voices, key) {
        let i = voice_index(voices, key);
        voices.update(i, voices[i].let_go())
    } else {
        voices
    }
}

/// Every voice one sample later.
pub open spec fn advanced_all(voices: Seq<Voice>, sample_rate: u32) -> Seq<Voice> {
    Seq::new(voices.len(), |i: int| voices[i].advanced(sample_rate))
}

/// What each voice adds to the next output sample.
pub open spec fn frames_of(voices: Seq<Voice>, sample_rate: u32) -> Seq<VoiceFrame> {
    Seq::new(voices.len(), |i: int| voices[i].frame(sample_rate))
}

/// The voices whose envelope is not idle, in their order.
pub open spec fn live(voices: Seq<Voice>) -> Seq<Voice>
    decreases voices.len(),
{
    if voices.len() == 0 {
        Seq::empty()
    } else if voices.last().envelope.phase == EnvelopePhase::Idle {
        live(voices.drop_last())
    } else {
        live(voices.drop_last()).push(voices.last())
    }
}

/// Every voice that `live` keeps was there before, and the keys stay
/// distinct.
pub proof fn lemma_live(voices: Seq<Voice>)
    ensures
        forall|i: int|
            0 <= i < live(voices).len() ==> voices.contains(#[trigger] live(voices)[i])
                && live(voices)[i].envelope.phase != EnvelopePhase::Idle,
        forall|i: int|
            0 <= i < voices.len() && voices[i].envelope.phase != EnvelopePhase::Idle ==> live(
                voices,
            ).contains(#[trigger] voices[i]),
        distinct_keys(voices) ==> distinct_keys(live(voices)),
        live(voices).len() <= voices.len(),
    decreases voices.len(),
{
    if voices.len() > 0 {
        let front = voices.drop_last();
        let last = voices.last();
        lemma_live(front);
        assert forall|i: int| 0 <= i < live(voices).len() implies voices.contains(
            #[trigger] live(voices)[i],
        ) && live(voices)[i].envelope.phase != EnvelopePhase::Idle by {
            if i < live(front).len() {
                let v = live(front)[i];
                assert(front.contains(v));
                let k = choose|k: int| 0 <= k < front.len() && front[k] == v;
                assert(voices[k] == v);
            } else {
                assert(voices[voices.len() - 1] == last);
            }
        }
        assert forall|i: int|
            0 <= i < voices.len() && voices[i].envelope.phase
                != EnvelopePhase::Idle implies live(voices).contains(#[trigger] voices[i]) by {
            if i < front.len() {
                assert(front[i] == voices[i]);
                assert(live(front).contains(front[i]));
                let k = choose|k: int| 0 <= k < live(front).len() && live(front)[k] == front[i];
                assert(live(voices)[k] == voices[i]);
            } else {
                assert(live(voices)[live(voices).len() - 1] == voices[i]);
            }
        }
        if distinct_keys(voices) {
            assert(distinct_keys(front)) by {
                assert forall|i: int, j: int| 0 <= i < j < front.len() implies (
                #[trigger] front[i]).key != (#[trigger] front[j]).key by {
                    assert(front[i] == voices[i] && front[j] == voices[j]);
                }
            }
            assert forall|i: int, j: int| 0 <= i < j < live(voices).len() implies (
            #[trigger] live(voices)[i]).key != (#[trigger] live(voices)[j]).key by {
                if j == live(front).len() {
                    let v = live(front)[i];
                    assert(front.contains(v));
                    let k = choose|k: int| 0 <= k < front.len() && front[k] == v;
                    assert(voices[k] == v);
                    assert(voices[voices.len() - 1] == last);
                }
            }
        }
    }
}

/// The voices of the keys that sound. Each holds its key's frequency from
/// the frequency table.
pub struct VoiceManager {
    pub voices: Vec<Voice>,
    pub oscillator: Oscillator,
    pub sample_rate: u32,
}

impl VoiceManager {
    /// The sample rate is positive, every voice is well formed and tuned
    /// as the frequency table says, and no key has two voices.
    pub open spec fn wf(self) -> bool {
        &&& self.sample_rate > 0
        &&& distinct_keys(self.voices@)
        &&& forall|i: int|
            0 <= i < self.voices@.len() ==> {
                &&& (#[trigger] self.voices@[i]).wf(self.sample_rate)
                &&& frequency_of(self.voices@[i].key) == Some(self.voices@[i].frequency)
            }
    }

    /// A manager without voices, for the given waveform and sample rate in
    /// hertz.
    pub fn new(oscillator: Oscillator, sample_rate: u32) -> (manager: VoiceManager)
        requires
            sample_rate > 0,
        ensures
            manager.wf(),
            manager.voices@ == Seq::<Voice>::empty(),
            manager.oscillator == oscillator,
            manager.sample_rate == sample_rate,
    {
        VoiceManager { voices: Vec::new(), oscillator, sample_rate }
    }

    /// The number of voices.
    pub fn voice_count(&self) -> (n: usize)
        ensures
            n == self.voices@.len(),
    {
        self.voices.len()
    }

    /// The place of the voice of `key`, if it has one.
    pub fn find(&self, key: Key) -> (found: Option<usize>)
        ensures
            found is Some <==> has_voice(self.voices@, key),
            found matches Some(i) ==> i < self.voices@.len() && self.voices@[i as int].key == key,
            found matches Some(i) ==> (distinct_keys(self.voices@) ==> i == voice_index(
                self.voices@,
                key,
            )),
    {
        let mut i: usize = 0;
        while i < self.voices.len()
            invariant
                i <= self.voices@.len(),
                forall|j: int| 0 <= j < i ==> (#[trigger] self.voices@[j]).key != key,
            decreases self.voices@.len() - i,
        {
            if self.voices[i].key == key {
                return Some(i);
            }
            i += 1;
        }
        None
    }

    /// A copy of the voice of `key`, if it has one.
    pub fn voice(&self, key: Key) -> (found: Option<Voice>)
        ensures
            found is Some <==> has_voice(self.voices@, key),
            found matches Some(v) ==> v.key == key && self.voices@.contains(v),
    {
        match self.find(key) {
            Some(i) => Some(self.voices[i]),
            None => None,
        }
    }

    /// `key` went down. A key without a frequency is ignored; a key that
    /// sounds has its envelope triggered and keeps its phase; any other
    /// key gets a voice of its own, triggered at once.
    pub fn note_on(&mut self, key: Key)
        requires
            old(self).wf(),
        ensures
            final(self).wf(),
            final(self).voices@ == pressed(
                old(self).voices@,
                key,
                old(self).oscillator,
                old(self).sample_rate,
            ),
            final(self).oscillator == old(self).oscillator,
            final(self).sample_rate == old(self).sample_rate,
    {
        match key_frequency(key) {
            None => {},
            Some(frequency) => {
                match self.find(key) {
                    Some(i) => {
                        let mut voice = self.voices[i];
                        voice.envelope.trigger();
                        self.voices.set(i, voice);
                    },
                    None => {
                        let mut voice = Voice::new(key, frequency, self.oscillator, self.sample_rate);
                        voice.envelope.trigger();
                        self.voices.push(voice);
                    },
                }
            },
        }
    }

    /// `key` came up: the envelope of its voice, if it has one, is
    /// released. Nothing changes for a key without a voice.
    pub fn note_off(&mut self, key: Key)
        requires
            old(self).wf(),
        ensures
            final(self).wf(),
            final(self).voices@ == lifted(old(self).voices@, key),
            final(self).oscillator == old(self).oscillator,
            final(self).sample_rate == old(self).sample_rate,
    {
        match self.find(key) {
            Some(i) => {
                let mut voice = self.voices[i];
                voice.envelope.release();
                self.voices.set(i, voice);
            },
            None => {},
        }
    }

    /// Renders one output sample: every voice is advanced by one sample,
    /// and what each adds to the mix is returned, in the voices' order.
    /// The sample is the sum of `sample · gain` over the frames.
    pub fn render_sample(&mut self) -> (frames: Vec<VoiceFrame>)
        requires
            old(self).wf(),
        ensures
            final(self).wf(),
            frames@ == frames_of(old(self).voices@, old(self).sample_rate),
            final(self).voices@ == advanced_all(old(self).voices@, old(self).sample_rate),
            final(self).oscillator == old(self).oscillator,
            final(self).sample_rate == old(self).sample_rate,
    {
        let ghost before = self.voices@;
        let rate: u32 = self.sample_rate;
        let mut frames: Vec<VoiceFrame> = Vec::new();
        let mut i: usize = 0;
        while i < self.voices.len()
            invariant
                i <= self.voices@.len(),
                self.voices@.len() == before.len(),
                self.sample_rate == rate,
                rate > 0,
                self.oscillator == old(self).oscillator,
                frames@.len() == i,
                forall|j: int| 0 <= j < i ==> frames@[j] == (#[trigger] before[j]).frame(rate),
                forall|j: int|
                    0 <= j < i ==> self.voices@[j] == (#[trigger] before[j]).advanced(rate),
                forall|j: int| i <= j < before.len() ==> self.voices@[j] == #[trigger] before[j],
                forall|j: int|
                    0 <= j < before.len() ==> (#[trigger] self.voices@[j]).wf(rate)
                        && self.voices@[j].key == before[j].key && self.voices@[j].frequency
                        == before[j].frequency,
            decreases self.voices@.len() - i,
        {
            let mut voice = self.voices[i];
            let frame = voice.generate_sample(rate);
            self.voices.set(i, voice);
            frames.push(frame);
            i += 1;
        }
        assert(frames@ =~= frames_of(before, rate));
        assert(self.voices@ =~= advanced_all(before, rate));
        frames
    }

    /// Removes every voice whose envelope is idle; the others stay, in
    /// their order.
    pub fn reap(&mut self)
        requires
            old(self).wf(),
        ensures
            final(self).wf(),
            final(self).voices@ == live(old(self).voices@),
            final(self).oscillator == old(self).oscillator,
            final(self).sample_rate == old(self).sample_rate,
    {
        let ghost before = self.voices@;
        let mut kept: Vec<Voice> = Vec::new();
        let mut i: usize = 0;
        while i < self.voices.len()
            invariant
                i <= self.voices@.len(),
                self.voices@ == before,
                kept@ == live(before.take(i as int)),
            decreases self.voices@.len() - i,
        {
            let voice = self.voices[i];
            proof {
                let upto = before.take(i + 1);
                assert(upto.drop_last() =~= before.take(i as int));
                assert(upto.last() == voice);
            }
            match voice.envelope.phase {
                EnvelopePhase::Idle => {},
                _ => {
                    kept.push(voice);
                },
            }
            i += 1;
        }
        proof {
            assert(before.take(i as int) =~= before);
            lemma_live(before);
        }
        self.voices = kept;
    }
}

} // verus!
