use vstd::prelude::*;
use rand::Rng;
use rand::SeedableRng;
use rand_chacha::ChaCha8Rng;
use crate::arps::up_down::{cycle_index, cycle_len, UpDownArpeggiator};
use crate::sequencer::{
    lemma_due_count_step,
    Resolution,
    Sequencer,
    SequencerState,
    MAX_TIME,
};
use crate::theory::chord::{lemma_notes_above_len, Chord};
use crate::theory::chord_like::ChordLike;
use crate::theory::note::{lemma_transpose, Note};
use super::{Playable, Song, Sound};

verus! {

/// The random number generator of `rand_chacha`. Nothing is known of what
/// it holds.
#[verifier::external_type_specification]
#[verifier::external_body]
pub struct ExChaCha8Rng(ChaCha8Rng);

/// `SeedableRng::seed_from_u64` of `rand`, for `ChaCha8Rng`: a generator
/// made from a seed. Nothing is claimed of the generator.
#[verifier::external_body]
fn seeded(seed: u64) -> ChaCha8Rng {
    ChaCha8Rng::seed_from_u64(seed)
}

/// `Rng::random_range` of `rand`, on the range from 0 up to, but without,
/// `bound`: the claim is that the number drawn lies in that range, and that
/// the call does not panic on a range that is not empty.
#[verifier::external_body]
fn random_below(rng: &mut ChaCha8Rng, bound: usize) -> (drawn: usize)
    requires
        bound > 0,
    ensures
        drawn < bound,
    no_unwind
{
    rng.random_range(0..bound)
}

/// The first `count` notes of the up-and-down arpeggio over `notes`.
pub open spec fn arpeggio(notes: Seq<Note>, count: nat) -> Seq<Note> {
    Seq::new(
        count,
        |k: int| notes[cycle_index(notes.len(), (k % cycle_len(notes.len()) as int) as nat)],
    )
}

/// A piece for two hands over a loop of eight measures of eight steps: the
/// left hand plays arpeggios, the right hand puts in single notes of the
/// chord, some of them by chance.
pub struct Forest {
    sequencer: Sequencer,
    rng: ChaCha8Rng,
    lhs_chords: Vec<Vec<Note>>,
    rhs_chords: Vec<Vec<Note>>,
}

impl Forest {
    #[verifier::type_invariant]
    spec fn inv(&self) -> bool {
        &&& self.sequencer@.valid()
        &&& self.sequencer@.resolution == Resolution::Eighth
        &&& self.lhs_chords@.len() == 2
        &&& self.lhs_chords@[0]@.len() == 8
        &&& self.lhs_chords@[1]@.len() == 8
        &&& self.rhs_chords@.len() == 2
        &&& self.rhs_chords@[0]@.len() > 0
        &&& self.rhs_chords@[1]@.len() > 0
    }

    /// The two arpeggios of the left hand, one measure each.
    pub closed spec fn left_hand_chords(&self) -> Seq<Seq<Note>> {
        Seq::new(self.lhs_chords@.len(), |i: int| self.lhs_chords@[i]@)
    }

    /// The two chords that the right hand picks its notes from.
    pub closed spec fn right_hand_chords(&self) -> Seq<Seq<Note>> {
        Seq::new(self.rhs_chords@.len(), |i: int| self.rhs_chords@[i]@)
    }

    /// Which of the two chords a page is played on: the first on pages 0
    /// to 3, the second from page 4 on.
    pub open spec fn spec_chord_index(page: usize) -> usize {
        if page >= 4 {
            1
        } else {
            0
        }
    }

    /// Whether the left hand plays on a step: throughout the even pages and
    /// the last page, and on the first four steps of the others.
    pub open spec fn spec_left_hand_plays(page: usize, step: usize) -> bool {
        page % 2 == 0 || step < 4 || page == 7
    }

    /// Whether the dice are thrown on a step: they are on step 6.
    pub open spec fn spec_throws_dice(step: usize) -> bool {
        step == 6
    }

    /// Whether the right hand plays on a step, `roll` being what the dice
    /// showed where they were thrown. It plays on the first step of every
    /// page, on step 6 of the last page, on the last step of the odd pages
    /// before the last, and on step 6 of any page where the dice show 0.
    pub open spec fn spec_right_hand_plays(page: usize, step: usize, roll: usize) -> bool {
        step == 0 || (step == 6 && roll == 0) || (page == 7 && step == 6) || (page % 2 == 1 && page
            != 7 && step == 7)
    }

    /// Whether the right hand plays on a step whatever the dice show.
    pub open spec fn right_hand_surely_plays(page: usize, step: usize) -> bool {
        step == 0 || (page == 7 && step == 6) || (page % 2 == 1 && page != 7 && step == 7)
    }

    /// What a tick has had scheduled for the beat that `beat` stands before:
    /// the left hand's note wherever the left hand plays, and one of the
    /// chord's notes wherever the right hand plays whatever the dice show.
    pub open spec fn played<F, E>(&self, schedule: F, beat: SequencerState) -> bool where
        F: Fn(Sound, u64) -> Result<(), E>,
     {
        let page = beat.page as usize;
        let step = beat.step as usize;
        let time = beat.scheduled_time() as u64;
        let chord = Self::spec_chord_index(page) as int;
        &&& Self::spec_left_hand_plays(page, step) ==> schedule.ensures(
            (Sound::Sample(self.left_hand_chords()[chord][step as int]), time),
            Ok(()),
        )
        &&& Self::right_hand_surely_plays(page, step) ==> exists|pick: int|
            0 <= pick < self.right_hand_chords()[chord].len() && schedule.ensures(
                (Sound::Sample(#[trigger] self.right_hand_chords()[chord][pick]), time),
                Ok(()),
            )
    }

    /// The piece, with its first beat due at `current_time`. What the right
    /// hand plays by chance follows from `seed`.
    ///
    /// The left hand has the first eight notes of the up-and-down arpeggios
    /// over the major ninth chords on G1 and on C1; the right hand picks
    /// from the major ninth chords on G3 and on C3.
    pub fn new(seed: u64, current_time: u64) -> (forest: Self)
        requires
            current_time <= MAX_TIME,
        ensures
            forest.sequencer() == (SequencerState {
                bpm: 74,
                pages: 8,
                resolution: Resolution::Eighth,
                lookahead: 100_000,
                step: 0,
                page: 0,
                beat_time: current_time as nat,
            }),
            forest.left_hand_chords() == seq![
                arpeggio(Chord::Major9th(Note::G1).spec_notes(), 8),
                arpeggio(Chord::Major9th(Note::C1).spec_notes(), 8),
            ],
            forest.right_hand_chords() == seq![
                Chord::Major9th(Note::G3).spec_notes(),
                Chord::Major9th(Note::C3).spec_notes(),
            ],
    {
        let sequencer = Sequencer::new(74, 8, Resolution::Eighth, current_time, 100);
        let rng = seeded(seed);
        let beats_per_measure = sequencer.resolution().duration().beats_per_measure();
        proof {
            lemma_major_ninth_has_five_notes(Note::G1);
            lemma_major_ninth_has_five_notes(Note::C1);
            lemma_major_ninth_has_five_notes(Note::G3);
            lemma_major_ninth_has_five_notes(Note::C3);
        }
        let lhs_chords = vec![
            Self::left_hand_measure(Chord::Major9th(Note::G1), beats_per_measure),
            Self::left_hand_measure(Chord::Major9th(Note::C1), beats_per_measure),
        ];
        let rhs_chords = vec![Chord::Major9th(Note::G3).notes(), Chord::Major9th(Note::C3).notes()];
        let forest = Self { sequencer, rng, lhs_chords, rhs_chords };
        assert(forest.left_hand_chords() =~= seq![
            arpeggio(Chord::Major9th(Note::G1).spec_notes(), 8),
            arpeggio(Chord::Major9th(Note::C1).spec_notes(), 8),
        ]);
        assert(forest.right_hand_chords() =~= seq![
            Chord::Major9th(Note::G3).spec_notes(),
            Chord::Major9th(Note::C3).spec_notes(),
        ]);
        forest
    }

    fn left_hand_measure(chord: Chord, beats: usize) -> (measure: Vec<Note>)
        requires
            chord.spec_notes().len() == 5,
        ensures
            measure@ == arpeggio(chord.spec_notes(), beats as nat),
    {
        let mut arp = UpDownArpeggiator::new(chord.notes());
        let measure = arp.take(beats);
        assert(measure@ =~= arpeggio(chord.spec_notes(), beats as nat));
        measure
    }

    /// Which of the two chords a page is played on.
    #[verifier::when_used_as_spec(spec_chord_index)]
    pub fn chord_index(page: usize) -> (index: usize)
        ensures
            index == Self::spec_chord_index(page),
            index < 2,
    {
        if page >= 4 {
            1
        } else {
            0
        }
    }

    /// Whether the left hand plays on a step.
    #[verifier::when_used_as_spec(spec_left_hand_plays)]
    pub fn left_hand_plays(page: usize, step: usize) -> (plays: bool)
        ensures
            plays == Self::spec_left_hand_plays(page, step),
    {
        page % 2 == 0 || step < 4 || page == 7
    }

    /// Whether the dice are thrown on a step.
    #[verifier::when_used_as_spec(spec_throws_dice)]
    pub fn throws_dice(step: usize) -> (throws: bool)
        ensures
            throws == Self::spec_throws_dice(step),
    {
        step == 6
    }

    /// Whether the right hand plays on a step, `roll` being what the dice
    /// showed where they were thrown.
    #[verifier::when_used_as_spec(spec_right_hand_plays)]
    pub fn right_hand_plays(page: usize, step: usize, roll: usize) -> (plays: bool)
        ensures
            plays == Self::spec_right_hand_plays(page, step, roll),
    {
        step == 0 || (step == 6 && roll == 0) || (page == 7 && step == 6) || (page % 2 == 1 && page
            != 7 && step == 7)
    }

    /// The note that the left hand plays on a step, if it plays there: the
    /// note at the step's place in the arpeggio of the page's chord.
    pub fn left_hand_note(&self, page: usize, step: usize) -> (note: Option<Note>)
        ensures
            note is Some <==> Self::spec_left_hand_plays(page, step) && step < 8,
            note matches Some(n) ==> n == self.left_hand_chords()[Self::spec_chord_index(
                page,
            ) as int][step as int],
    {
        proof {
            use_type_invariant(self);
        }
        if Self::left_hand_plays(page, step) && step < 8 {
            Some(self.lhs_chords[Self::chord_index(page)][step])
        } else {
            None
        }
    }

    /// How many notes the right hand has to pick from on a page.
    pub fn right_hand_choices(&self, page: usize) -> (choices: usize)
        ensures
            choices == self.right_hand_chords()[Self::spec_chord_index(page) as int].len(),
            choices > 0,
    {
        proof {
            use_type_invariant(self);
        }
        self.rhs_chords[Self::chord_index(page)].len()
    }

    /// The note that the right hand plays on a page where it picked the
    /// note with number `pick` of the page's chord, counted from 0. There is
    /// none where the chord has no such note.
    pub fn right_hand_note(&self, page: usize, pick: usize) -> (note: Option<Note>)
        ensures
            note is Some <==> pick < self.right_hand_chords()[Self::spec_chord_index(
                page,
            ) as int].len(),
            note matches Some(n) ==> n == self.right_hand_chords()[Self::spec_chord_index(
                page,
            ) as int][pick as int],
    {
        proof {
            use_type_invariant(self);
        }
        let chord = &self.rhs_chords[Self::chord_index(page)];
        if pick < chord.len() {
            Some(chord[pick])
        } else {
            None
        }
    }

    /// What a tick at time `now` that took the song from `self` to `after`
    /// and ended in `result` has had scheduled: the chords are as before,
    /// and every beat that was fired has had its notes scheduled.
    pub open spec fn scheduled<F, E>(
        &self,
        after: &Self,
        schedule: F,
        now: nat,
        result: Result<(), E>,
    ) -> bool where F: Fn(Sound, u64) -> Result<(), E> {
        &&& after.left_hand_chords() == self.left_hand_chords()
        &&& after.right_hand_chords() == self.right_hand_chords()
        &&& result is Ok ==> forall|beats: nat|
            beats < self.sequencer().due_count(now) ==> self.played(
                schedule,
                #[trigger] self.sequencer().advanced(beats),
            )
        &&& result is Err ==> exists|failed: nat|
            {
                &&& failed < self.sequencer().due_count(now)
                &&& after.sequencer() == self.sequencer().advanced(failed)
                &&& forall|beats: nat|
                    beats < failed ==> self.played(
                        schedule,
                        #[trigger] self.sequencer().advanced(beats),
                    )
            }
    }

    /// The piece as a song.
    pub fn into_song(self) -> (song: Song)
        ensures
            song == Song::Forest(self),
    {
        Song::Forest(self)
    }
}

impl Playable for Forest {
    closed spec fn sequencer(&self) -> SequencerState {
        self.sequencer@
    }

    /// On each beat that is due, the left hand's note is scheduled first,
    /// where the left hand plays; then the dice are thrown, where they are
    /// to be thrown; then, where the right hand plays, one note of the chord
    /// is picked by chance and scheduled. Both sound at the time of the
    /// beat. The chords stay as they are.
    fn tick<F, E>(&mut self, current_time: u64, schedule: F) -> (result: Result<(), E>) where
        F: Fn(Sound, u64) -> Result<(), E>,

        ensures
            old(self).scheduled(final(self), schedule, current_time as nat, result),
    {
        proof {
            use_type_invariant(&*self);
        }
        let ghost start = self.sequencer@;
        let ghost now = current_time as nat;
        let ghost total = start.due_count(now);
        let ghost mut fired: nat = 0;
        loop
            invariant
                current_time <= MAX_TIME,
                now == current_time,
                start == old(self).sequencer(),
                total == start.due_count(now),
                self.sequencer@ == start.advanced(fired),
                self.sequencer@.valid(),
                self.sequencer@.resolution == Resolution::Eighth,
                fired + self.sequencer@.due_count(now) == total,
                self.left_hand_chords() == old(self).left_hand_chords(),
                self.right_hand_chords() == old(self).right_hand_chords(),
                forall|sound: Sound, time: u64| schedule.requires((sound, time)),
                forall|beats: nat|
                    beats < fired ==> old(self).played(schedule, #[trigger] start.advanced(beats)),
            decreases self.sequencer@.due_count(now),
        {
            proof {
                use_type_invariant(&*self);
                lemma_due_count_step(self.sequencer@, now);
            }
            let beat = match self.sequencer.due(current_time) {
                Some(beat) => beat,
                None => {
                    return Ok(());
                },
            };
            match self.left_hand_note(beat.page, beat.step) {
                None => {},
                Some(note) => {
                    match schedule(Sound::Sample(note), beat.time) {
                        Ok(unit) => {
                            assert(unit == ());
                        },
                        Err(error) => {
                            return Err(error);
                        },
                    }
                },
            }
            let roll = if Self::throws_dice(beat.step) {
                random_below(&mut self.rng, 3)
            } else {
                1
            };
            if Self::right_hand_plays(beat.page, beat.step, roll) {
                let choices = self.right_hand_choices(beat.page);
                let pick = random_below(&mut self.rng, choices);
                match self.right_hand_note(beat.page, pick) {
                    None => {},
                    Some(note) => {
                        match schedule(Sound::Sample(note), beat.time) {
                            Ok(unit) => {
                                assert(unit == ());
                            },
                            Err(error) => {
                                return Err(error);
                            },
                        }
                    },
                }
            }
            self.sequencer.advance(current_time);
            proof {
                assert(old(self).played(schedule, start.advanced(fired)));
                fired = fired + 1;
            }
        }
    }
}

/// A major ninth chord on a root up to A4 has all its five notes.
pub proof fn lemma_major_ninth_has_five_notes(root: Note)
    requires
        root.spec_note_number() <= 69,
    ensures
        Chord::Major9th(root).spec_notes().len() == 5,
{
    let intervals = Chord::Major9th(root).spec_intervals();
    assert forall|i: int| 0 <= i < intervals.len() implies root.spec_transpose(
        #[trigger] intervals[i].spec_semitones(),
    ) is Some by {
        lemma_transpose(root, intervals[i].spec_semitones());
    }
    lemma_notes_above_len(root, intervals);
}

} // verus!
