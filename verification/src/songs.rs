//! Songs: each drives a sequencer of its own and decides, beat by beat, what
//! is to sound. The sound itself is made by the caller, who hands each song
//! a function that schedules one sound at one time.

use vstd::prelude::*;
use vstd::string::StringExecFns;
use crate::sequencer::{SequencerState, MAX_TIME};
use crate::theory::note::Note;

pub mod forest;
pub mod metronome;
pub mod toy808;

pub use forest::Forest;
pub use metronome::Metronome;
pub use toy808::Toy808;

verus! {

/// What a song asks to be played at some time.
#[derive(Debug, Clone, Copy, PartialEq, Eq, Structural)]
pub enum Sound {
    /// A note of the sampled instrument.
    Sample(Note),
    /// The bass drum of the drum machine.
    BassDrum,
    /// The snare drum of the drum machine.
    SnareDrum,
}

/// Something that plays when it is ticked.
pub trait Playable {
    /// The sequencer that times the song.
    spec fn sequencer(&self) -> SequencerState;

    /// Catches up to `current_time`: for each beat that is due, first due
    /// first, hands `schedule` what is to sound on that beat, with the time
    /// at which it is to sound.
    ///
    /// Where `schedule` fails, the tick stops and hands the failure on. The
    /// beats before stay played; the beat that failed stays the next one.
    fn tick<F, E>(&mut self, current_time: u64, schedule: F) -> (result: Result<(), E>) where
        F: Fn(Sound, u64) -> Result<(), E>,

        requires
            current_time <= MAX_TIME,
            forall|sound: Sound, time: u64| schedule.requires((sound, time)),
        ensures
            final(self).sequencer().valid(),
            result is Ok ==> final(self).sequencer() == old(self).sequencer().caught_up(
                current_time as nat,
            ),
            result is Err ==> exists|failed: nat|
                {
                    &&& failed < old(self).sequencer().due_count(current_time as nat)
                    &&& final(self).sequencer() == old(self).sequencer().advanced(failed)
                },
    ;
}

/// What a tick has done, for a song that schedules one sound to the beat,
/// the sound being given by the beat's step: every beat that was fired has
/// had its sound scheduled for its time; and where the tick failed, it was
/// the sound of the beat at which the song now stands that failed.
pub open spec fn one_sound_to_the_beat<F, E>(
    schedule: F,
    sound: spec_fn(usize) -> Sound,
    start: SequencerState,
    now: nat,
    end: SequencerState,
    result: Result<(), E>,
) -> bool where F: Fn(Sound, u64) -> Result<(), E> {
    match result {
        Ok(_) => forall|beats: nat|
            beats < start.due_count(now) ==> schedule.ensures(
                (
                    sound((#[trigger] start.advanced(beats)).step as usize),
                    start.advanced(beats).scheduled_time() as u64,
                ),
                Ok(()),
            ),
        Err(error) => exists|failed: nat|
            {
                &&& failed < start.due_count(now)
                &&& end == start.advanced(failed)
                &&& schedule.ensures(
                    (
                        sound(start.advanced(failed).step as usize),
                        start.advanced(failed).scheduled_time() as u64,
                    ),
                    Err(error),
                )
                &&& forall|beats: nat|
                    beats < failed ==> schedule.ensures(
                        (
                            sound((#[trigger] start.advanced(beats)).step as usize),
                            start.advanced(beats).scheduled_time() as u64,
                        ),
                        Ok(()),
                    )
            },
    }
}

/// A tick of the sequencer whose callback schedules the sound of each
/// beat's step is a tick of a song with one sound to the beat.
pub proof fn lemma_one_sound_to_the_beat<F, G, E>(
    schedule: F,
    on_beat: G,
    sound: spec_fn(usize) -> Sound,
    start: SequencerState,
    now: nat,
    end: SequencerState,
    result: Result<(), E>,
) where F: Fn(Sound, u64) -> Result<(), E>, G: Fn(u64, usize, usize) -> Result<(), E>
    requires
        forall|time: u64, page: usize, step: usize, played: Result<(), E>|
            #[trigger] on_beat.ensures((time, page, step), played) ==> schedule.ensures(
                (sound(step), time),
                played,
            ),
        match result {
            Ok(_) => forall|beats: nat|
                beats < start.due_count(now) ==> on_beat.ensures(
                    #[trigger] start.advanced(beats).beat(),
                    Ok(()),
                ),
            Err(error) => exists|failed: nat|
                {
                    &&& failed < start.due_count(now)
                    &&& end == start.advanced(failed)
                    &&& on_beat.ensures(start.advanced(failed).beat(), Err(error))
                    &&& forall|beats: nat|
                        beats < failed ==> on_beat.ensures(
                            #[trigger] start.advanced(beats).beat(),
                            Ok(()),
                        )
                },
        },
    ensures
        one_sound_to_the_beat(schedule, sound, start, now, end, result),
{
    match result {
        Ok(_) => {
            assert forall|beats: nat| beats < start.due_count(now) implies schedule.ensures(
                (
                    sound((#[trigger] start.advanced(beats)).step as usize),
                    start.advanced(beats).scheduled_time() as u64,
                ),
                Ok(()),
            ) by {
                assert(on_beat.ensures(start.advanced(beats).beat(), Ok(())));
            }
        },
        Err(error) => {
            let failed = choose|failed: nat|
                {
                    &&& failed < start.due_count(now)
                    &&& end == start.advanced(failed)
                    &&& on_beat.ensures(start.advanced(failed).beat(), Err(error))
                    &&& forall|beats: nat|
                        beats < failed ==> on_beat.ensures(
                            #[trigger] start.advanced(beats).beat(),
                            Ok(()),
                        )
                };
            assert forall|beats: nat| beats < failed implies schedule.ensures(
                (
                    sound((#[trigger] start.advanced(beats)).step as usize),
                    start.advanced(beats).scheduled_time() as u64,
                ),
                Ok(()),
            ) by {
                assert(on_beat.ensures(start.advanced(beats).beat(), Ok(())));
            }
            assert(schedule.ensures(
                (
                    sound(start.advanced(failed).step as usize),
                    start.advanced(failed).scheduled_time() as u64,
                ),
                Err(error),
            ));
        },
    }
}

/// One of the songs that come with the library.
pub enum Song {
    Metronome(Metronome),
    Toy808(Toy808),
    Forest(Forest),
}

impl Song {
    /// The name of the song, in lower case.
    pub open spec fn spec_name(&self) -> Seq<char> {
        match self {
            Song::Metronome(_) => seq!['m', 'e', 't', 'r', 'o', 'n', 'o', 'm', 'e'],
            Song::Toy808(_) => seq!['t', 'o', 'y', '8', '0', '8'],
            Song::Forest(_) => seq!['f', 'o', 'r', 'e', 's', 't'],
        }
    }

    /// What a tick at time `now` that took the song from `self` to `after`
    /// and ended in `result` has had scheduled: what the song that this is
    /// has had scheduled.
    pub open spec fn scheduled<F, E>(
        &self,
        after: &Self,
        schedule: F,
        now: nat,
        result: Result<(), E>,
    ) -> bool where F: Fn(Sound, u64) -> Result<(), E> {
        match (self, after) {
            (Song::Metronome(before), Song::Metronome(after)) => before.scheduled(
                after,
                schedule,
                now,
                result,
            ),
            (Song::Toy808(before), Song::Toy808(after)) => before.scheduled(
                after,
                schedule,
                now,
                result,
            ),
            (Song::Forest(before), Song::Forest(after)) => before.scheduled(
                after,
                schedule,
                now,
                result,
            ),
            _ => false,
        }
    }

    /// The name of the song.
    pub fn name(&self) -> (name: String)
        ensures
            name@ == self.spec_name(),
    {
        let name: &'static str = match self {
            Song::Metronome(_) => "metronome",
            Song::Toy808(_) => "toy808",
            Song::Forest(_) => "forest",
        };
        proof {
            reveal_strlit("metronome");
            reveal_strlit("toy808");
            reveal_strlit("forest");
        }
        let name = String::from_str(name);
        assert(name@ =~= self.spec_name());
        name
    }
}

impl Playable for Song {
    open spec fn sequencer(&self) -> SequencerState {
        match self {
            Song::Metronome(song) => song.sequencer(),
            Song::Toy808(song) => song.sequencer(),
            Song::Forest(song) => song.sequencer(),
        }
    }

    /// The tick of the song that this is.
    fn tick<F, E>(&mut self, current_time: u64, schedule: F) -> (result: Result<(), E>) where
        F: Fn(Sound, u64) -> Result<(), E>,

        ensures
            old(self).scheduled(final(self), schedule, current_time as nat, result),
    {
        match self {
            Song::Metronome(song) => song.tick(current_time, schedule),
            Song::Toy808(song) => song.tick(current_time, schedule),
            Song::Forest(song) => song.tick(current_time, schedule),
        }
    }
}

} // verus!
