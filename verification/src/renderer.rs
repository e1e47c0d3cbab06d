//! The audio callback: drains the key events, renders the frames of one
//! buffer, then removes the voices that have fallen silent.

use vstd::prelude::*;
use crate::channel::EventChannel;
use crate::keys::KeyEvent;
use crate::manager::{advanced_all, frames_of, lifted, live, pressed, VoiceManager};
use crate::oscillator::Oscillator;
use crate::voice::{Voice, VoiceFrame};

verus! {

/// The voices after one key event.
pub open spec fn dispatched(
    voices: Seq<Voice>,
    event: KeyEvent,
    oscillator: Oscillator,
    sample_rate: u32,
) -> Seq<Voice> {
    if event.pressed {
        pressed(voices, event.key, oscillator, sample_rate)
    } else {
        lifted(voices, event.key)
    }
}

/// The voices after the events, the first event first.
pub open spec fn dispatched_all(
    voices: Seq<Voice>,
    events: Seq<KeyEvent>,
    oscillator: Oscillator,
    sample_rate: u32,
) -> Seq<Voice>
    decreases events.len(),
{
    if events.len() == 0 {
        voices
    } else {
        dispatched_all(
            dispatched(voices, events.first(), oscillator, sample_rate),
            events.drop_first(),
            oscillator,
            sample_rate,
        )
    }
}

/// The voices `n` samples later.
pub open spec fn advanced_by(voices: Seq<Voice>, sample_rate: u32, n: nat) -> Seq<Voice>
    decreases n,
{
    if n == 0 {
        voices
    } else {
        advanced_all(advanced_by(voices, sample_rate, (n - 1) as nat), sample_rate)
    }
}

/// The renderer and the voices it owns.
pub struct AudioRenderer {
    pub voices: VoiceManager,
}

impl AudioRenderer {
    /// The voices are well formed.
    pub open spec fn wf(self) -> bool {
        self.voices.wf()
    }

    /// A renderer without voices, for the given waveform and sample rate
    /// in hertz.
    pub fn new(oscillator: Oscillator, sample_rate: u32) -> (renderer: AudioRenderer)
        requires
            sample_rate > 0,
        ensures
            renderer.wf(),
            renderer.voices.voices@ == Seq::<Voice>::empty(),
            renderer.voices.oscillator == oscillator,
            renderer.voices.sample_rate == sample_rate,
    {
        AudioRenderer { voices: VoiceManager::new(oscillator, sample_rate) }
    }

    /// Hands one key event to the voices: a press is a note-on, a release
    /// a note-off.
    pub fn handle_event(&mut self, event: KeyEvent)
        requires
            old(self).wf(),
        ensures
            final(self).wf(),
            final(self).voices.voices@ == dispatched(
                old(self).voices.voices@,
                event,
                old(self).voices.oscillator,
                old(self).voices.sample_rate,
            ),
            final(self).voices.oscillator == old(self).voices.oscillator,
            final(self).voices.sample_rate == old(self).voices.sample_rate,
    {
        if event.pressed {
            self.voices.note_on(event.key);
        } else {
            self.voices.note_off(event.key);
        }
    }

    /// Takes every queued event off the channel and hands each to the
    /// voices, in the order of arrival. The channel is empty afterwards.
    pub fn drain(&mut self, channel: &mut EventChannel)
        requires
            old(self).wf(),
            old(channel).wf(),
        ensures
            final(self).wf(),
            final(channel).wf(),
            final(channel)@ == Seq::<KeyEvent>::empty(),
            final(channel).capacity() == old(channel).capacity(),
            final(self).voices.voices@ == dispatched_all(
                old(self).voices.voices@,
                old(channel)@,
                old(self).voices.oscillator,
                old(self).voices.sample_rate,
            ),
            final(self).voices.oscillator == old(self).voices.oscillator,
            final(self).voices.sample_rate == old(self).voices.sample_rate,
    {
        let ghost oscillator = self.voices.oscillator;
        let ghost rate = self.voices.sample_rate;
        let ghost goal = dispatched_all(self.voices.voices@, channel@, oscillator, rate);
        loop
            invariant
                self.wf(),
                channel.wf(),
                channel.capacity() == old(channel).capacity(),
                self.voices.oscillator == oscillator,
                self.voices.sample_rate == rate,
                dispatched_all(self.voices.voices@, channel@, oscillator, rate) == goal,
            ensures
                channel@.len() == 0,
            decreases channel@.len(),
        {
            match channel.try_pop() {
                Some(event) => {
                    self.handle_event(event);
                },
                None => {
                    break ;
                },
            }
        }
        assert(channel@ =~= Seq::<KeyEvent>::empty());
    }

    /// Fills one buffer of `frames` frames: drains the channel once, then
    /// renders the frames one by one, then reaps once. The result holds,
    /// for each frame, what each voice adds to it; the frame's sample, the
    /// same on every output channel, is the sum of `sample · gain` over
    /// them.
    pub fn render(&mut self, channel: &mut EventChannel, frames: usize) -> (buffer: Vec<
        Vec<VoiceFrame>,
    >)
        requires
            old(self).wf(),
            old(channel).wf(),
        ensures
            final(self).wf(),
            final(channel).wf(),
            final(channel)@ == Seq::<KeyEvent>::empty(),
            final(channel).capacity() == old(channel).capacity(),
            final(self).voices.oscillator == old(self).voices.oscillator,
            final(self).voices.sample_rate == old(self).voices.sample_rate,
            buffer@.len() == frames,
            forall|j: int|
                0 <= j < frames ==> (#[trigger] buffer@[j])@ == frames_of(
                    advanced_by(
                        dispatched_all(
                            old(self).voices.voices@,
                            old(channel)@,
                            old(self).voices.oscillator,
                            old(self).voices.sample_rate,
                        ),
                        old(self).voices.sample_rate,
                        j as nat,
                    ),
                    old(self).voices.sample_rate,
                ),
            final(self).voices.voices@ == live(
                advanced_by(
                    dispatched_all(
                        old(self).voices.voices@,
                        old(channel)@,
                        old(self).voices.oscillator,
                        old(self).voices.sample_rate,
                    ),
                    old(self).voices.sample_rate,
                    frames as nat,
                ),
            ),
    {
        self.drain(channel);
        let ghost start = self.voices.voices@;
        let ghost rate = self.voices.sample_rate;
        let mut buffer: Vec<Vec<VoiceFrame>> = Vec::new();
        let mut i: usize = 0;
        while i < frames
            invariant
                i <= frames,
                self.wf(),
                self.voices.oscillator == old(self).voices.oscillator,
                self.voices.sample_rate == rate,
                self.voices.voices@ == advanced_by(start, rate, i as nat),
                buffer@.len() == i,
                forall|j: int|
                    0 <= j < i ==> (#[trigger] buffer@[j])@ == frames_of(
                        advanced_by(start, rate, j as nat),
                        rate,
                    ),
            decreases frames - i,
        {
            let frame = self.voices.render_sample();
            buffer.push(frame);
            i += 1;
        }
        self.voices.reap();
        buffer
    }
}

} // verus!
