use vstd::prelude::*;
use crate::sequencer::{Resolution, Sequencer, SequencerState, MAX_BPM, MAX_TIME};
use super::{lemma_one_sound_to_the_beat, one_sound_to_the_beat, Playable, Song, Sound};

verus! {

/// A drum pattern: bass drum and snare drum in turn, one to the beat.
pub struct Toy808 {
    sequencer: Sequencer,
}

impl Toy808 {
    /// The drum on the given step of the measure: the bass drum on the even
    /// steps, the snare drum on the odd ones.
    pub open spec fn spec_drum(step: usize) -> Sound {
        if step % 2 == 0 {
            Sound::BassDrum
        } else {
            Sound::SnareDrum
        }
    }

    /// A drum pattern at `bpm` beats per minute whose first beat is due at
    /// `current_time`.
    pub fn new(bpm: u32, current_time: u64) -> (song: Self)
        requires
            0 < bpm <= MAX_BPM,
            current_time <= MAX_TIME,
        ensures
            song.sequencer() == (SequencerState {
                bpm: bpm as nat,
                pages: 1,
                resolution: Resolution::Quarter,
                lookahead: 100_000,
                step: 0,
                page: 0,
                beat_time: current_time as nat,
            }),
    {
        Self { sequencer: Sequencer::new(bpm, 1, Resolution::Quarter, current_time, 100) }
    }

    /// The drum on the given step of the measure.
    #[verifier::when_used_as_spec(spec_drum)]
    pub fn drum(step: usize) -> (drum: Sound)
        ensures
            drum == Self::spec_drum(step),
    {
        if step % 2 == 0 {
            Sound::BassDrum
        } else {
            Sound::SnareDrum
        }
    }

    /// What a tick at time `now` that took the song from `self` to `after`
    /// and ended in `result` has had scheduled: one drum to the beat, bass
    /// drum and snare drum in turn.
    pub open spec fn scheduled<F, E>(
        &self,
        after: &Self,
        schedule: F,
        now: nat,
        result: Result<(), E>,
    ) -> bool where F: Fn(Sound, u64) -> Result<(), E> {
        one_sound_to_the_beat(
            schedule,
            |step: usize| Self::spec_drum(step),
            self.sequencer(),
            now,
            after.sequencer(),
            result,
        )
    }

    /// The drum pattern as a song.
    pub fn into_song(self) -> (song: Song)
        ensures
            song == Song::Toy808(self),
    {
        Song::Toy808(self)
    }
}

impl Playable for Toy808 {
    closed spec fn sequencer(&self) -> SequencerState {
        self.sequencer@
    }

    /// On each beat that is due the pattern schedules one drum, for the time
    /// at which the beat is to sound.
    fn tick<F, E>(&mut self, current_time: u64, schedule: F) -> (result: Result<(), E>) where
        F: Fn(Sound, u64) -> Result<(), E>,

        ensures
            old(self).scheduled(final(self), schedule, current_time as nat, result),
    {
        let schedule = &schedule;
        let on_beat = |time: u64, page: usize, step: usize| -> (played: Result<(), E>)
            ensures
                schedule.ensures((Self::spec_drum(step), time), played),
            { schedule(Self::drum(step), time) };
        let ghost start = self.sequencer@;
        let result = self.sequencer.tick(current_time, on_beat);
        proof {
            lemma_one_sound_to_the_beat(
                *schedule,
                on_beat,
                |step: usize| Self::spec_drum(step),
                start,
                current_time as nat,
                self.sequencer@,
                result,
            );
        }
        result
    }
}

} // verus!
