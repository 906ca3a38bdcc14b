use vstd::prelude::*;
use crate::sequencer::{Resolution, Sequencer, SequencerState, MAX_BPM, MAX_TIME};
use crate::theory::note::Note;
use super::{lemma_one_sound_to_the_beat, one_sound_to_the_beat, Playable, Song, Sound};

verus! {

/// Four clicks to the measure, the first one higher than the others.
pub struct Metronome {
    sequencer: Sequencer,
}

impl Metronome {
    /// The note of the click on the given step of the measure: C4 on the
    /// first step, C3 on the others.
    pub open spec fn spec_note(step: usize) -> Note {
        if step == 0 {
            Note::C4
        } else {
            Note::C3
        }
    }

    /// A metronome at `bpm` beats per minute whose first click is due at
    /// `current_time`.
    pub fn new(bpm: u32, current_time: u64) -> (metronome: Self)
        requires
            0 < bpm <= MAX_BPM,
            current_time <= MAX_TIME,
        ensures
            metronome.sequencer() == (SequencerState {
                bpm: bpm as nat,
                pages: 1,
                resolution: Resolution::Quarter,
                lookahead: 100_000,
                step: 0,
                page: 0,
                beat_time: current_time as nat,
            }),
    {
        Self { sequencer: Sequencer::new(bpm, 1, Resolution::Quarter, current_time, 100) }
    }

    /// The note of the click on the given step of the measure.
    #[verifier::when_used_as_spec(spec_note)]
    pub fn note(step: usize) -> (note: Note)
        ensures
            note == Self::spec_note(step),
    {
        if step == 0 {
            Note::C4
        } else {
            Note::C3
        }
    }

    /// What a tick at time `now` that took the song from `self` to `after`
    /// and ended in `result` has had scheduled: one click to the beat, high
    /// on the first step of the measure.
    pub open spec fn scheduled<F, E>(
        &self,
        after: &Self,
        schedule: F,
        now: nat,
        result: Result<(), E>,
    ) -> bool where F: Fn(Sound, u64) -> Result<(), E> {
        one_sound_to_the_beat(
            schedule,
            |step: usize| Sound::Sample(Self::spec_note(step)),
            self.sequencer(),
            now,
            after.sequencer(),
            result,
        )
    }

    /// The metronome as a song.
    pub fn into_song(self) -> (song: Song)
        ensures
            song == Song::Metronome(self),
    {
        Song::Metronome(self)
    }
}

impl Playable for Metronome {
    closed spec fn sequencer(&self) -> SequencerState {
        self.sequencer@
    }

    /// On each beat that is due the metronome schedules one click, for the
    /// time at which the beat is to sound.
    fn tick<F, E>(&mut self, current_time: u64, schedule: F) -> (result: Result<(), E>) where
        F: Fn(Sound, u64) -> Result<(), E>,

        ensures
            old(self).scheduled(final(self), schedule, current_time as nat, result),
    {
        let schedule = &schedule;
        let on_beat = |time: u64, page: usize, step: usize| -> (played: Result<(), E>)
            ensures
                schedule.ensures((Sound::Sample(Self::spec_note(step)), time), played),
            { schedule(Sound::Sample(Self::note(step)), time) };
        let ghost start = self.sequencer@;
        let result = self.sequencer.tick(current_time, on_beat);
        proof {
            lemma_one_sound_to_the_beat(
                *schedule,
                on_beat,
                |step: usize| Sound::Sample(Self::spec_note(step)),
                start,
                current_time as nat,
                self.sequencer@,
                result,
            );
        }
        result
    }
}

} // verus!
