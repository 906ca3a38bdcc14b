//! The sample lookup of a sampler: which notes have a recording, and which
//! recording plays a requested note, shifted by how much.

use vstd::prelude::*;
use crate::theory::note::{lemma_note_number_injective, Note};

verus! {

/// How far apart two notes lie, in semitones.
pub open spec fn distance(a: Note, b: Note) -> int {
    if a.spec_note_number() >= b.spec_note_number() {
        a.spec_note_number() - b.spec_note_number()
    } else {
        b.spec_note_number() - a.spec_note_number()
    }
}

/// Whether the sample at `index` is the one to play `note` with: no sample
/// lies closer to the note, and the samples before it lie farther away.
pub open spec fn is_closest_at(samples: Seq<Note>, note: Note, index: int) -> bool {
    &&& 0 <= index < samples.len()
    &&& forall|i: int|
        0 <= i < samples.len() ==> distance(note, samples[index]) <= distance(
            note,
            #[trigger] samples[i],
        )
    &&& forall|i: int|
        0 <= i < index ==> distance(note, samples[index]) < distance(note, #[trigger] samples[i])
}

/// The sample to play `note` with: the closest one, and of several that are
/// equally close the one that was added first. There is none without
/// samples.
pub open spec fn closest(samples: Seq<Note>, note: Note) -> Option<Note> {
    if samples.len() == 0 {
        None
    } else {
        Some(samples[choose|index: int| is_closest_at(samples, note, index)])
    }
}

/// What to play for `note`: the closest sample, and the number of semitones
/// by which the note lies above it.
pub open spec fn playback(samples: Seq<Note>, note: Note) -> Option<(Note, i8)> {
    match closest(samples, note) {
        None => None,
        Some(sample) => Some(
            (sample, (note.spec_note_number() - sample.spec_note_number()) as i8),
        ),
    }
}

/// The notes for which a sampler holds a recording, in the order in which
/// they were added.
pub struct MelodicSampler {
    samples: Vec<Note>,
}

impl View for MelodicSampler {
    type V = Seq<Note>;

    closed spec fn view(&self) -> Seq<Note> {
        self.samples@
    }
}

impl MelodicSampler {
    /// A sampler without samples.
    pub fn new() -> (sampler: Self)
        ensures
            sampler@ == Seq::<Note>::empty(),
    {
        Self { samples: Vec::new() }
    }

    /// Whether there is a sample for `note` itself.
    pub fn contains(&self, note: &Note) -> (found: bool)
        ensures
            found == self@.contains(*note),
    {
        let mut i: usize = 0;
        while i < self.samples.len()
            invariant
                i <= self.samples.len(),
                forall|j: int| 0 <= j < i ==> self.samples@[j] != *note,
            decreases self.samples.len() - i,
        {
            if self.samples[i].note_number() == note.note_number() {
                proof {
                    lemma_note_number_injective(self.samples@[i as int], *note);
                }
                return true;
            }
            i += 1;
        }
        false
    }

    /// Adds a sample for `note`, unless there is one already. Says whether
    /// the sample is new.
    pub fn insert(&mut self, note: Note) -> (added: bool)
        ensures
            added == !old(self)@.contains(note),
            final(self)@ == if added {
                old(self)@.push(note)
            } else {
                old(self)@
            },
    {
        if self.contains(&note) {
            false
        } else {
            self.samples.push(note);
            true
        }
    }

    /// Whether the sampler has no samples.
    pub fn is_empty(&self) -> (empty: bool)
        ensures
            empty == (self@.len() == 0),
    {
        self.samples.len() == 0
    }

    /// The sample that lies closest to `note`; of several that are equally
    /// close, the one that was added first. There is none without samples.
    pub fn find_closest_note_in_samples(&self, note: &Note) -> (found: Option<Note>)
        ensures
            found == closest(self@, *note),
            found is None <==> self@.len() == 0,
            found matches Some(sample) ==> exists|index: int|
                is_closest_at(self@, *note, index) && self@[index] == sample,
    {
        if self.samples.len() == 0 {
            return None;
        }
        let mut best: usize = 0;
        let mut best_distance: u8 = Self::semitones_between(note, &self.samples[0]);
        let mut i: usize = 1;
        while i < self.samples.len()
            invariant
                1 <= i <= self.samples.len(),
                best < i,
                best_distance == distance(*note, self.samples@[best as int]),
                is_closest_at(self.samples@.take(i as int), *note, best as int),
            decreases self.samples.len() - i,
        {
            let here = Self::semitones_between(note, &self.samples[i]);
            if here < best_distance {
                best = i;
                best_distance = here;
            }
            i += 1;
        }
        proof {
            assert(self.samples@.take(i as int) =~= self@);
            lemma_closest_is_unique(self@, *note, best as int);
        }
        Some(self.samples[best])
    }

    /// What to play for `note`: the closest sample, and the number of
    /// semitones by which the recording has to be shifted to sound as the
    /// note: it plays at a rate of two to the power of a twelfth of that
    /// number. A note that has a sample of its own is played with it,
    /// unshifted. Without samples there is nothing to play.
    pub fn calc_note_and_playback_rate(&self, note: &Note) -> (found: Option<(Note, i8)>)
        ensures
            found == playback(self@, *note),
            found is None <==> self@.len() == 0,
            self@.contains(*note) ==> found == Some((*note, 0i8)),
    {
        proof {
            lemma_own_sample_is_closest(self@, *note);
        }
        match self.find_closest_note_in_samples(note) {
            None => None,
            Some(sample) => {
                let shift = note.note_number() as i8 - sample.note_number() as i8;
                Some((sample, shift))
            },
        }
    }

    fn semitones_between(a: &Note, b: &Note) -> (semitones: u8)
        ensures
            semitones == distance(*a, *b),
    {
        let a = a.note_number();
        let b = b.note_number();
        if a >= b {
            a - b
        } else {
            b - a
        }
    }
}

/// At most one sample is the one to play a note with.
pub proof fn lemma_closest_is_unique(samples: Seq<Note>, note: Note, index: int)
    requires
        is_closest_at(samples, note, index),
    ensures
        closest(samples, note) == Some(samples[index]),
        forall|other: int| is_closest_at(samples, note, other) ==> other == index,
{
    assert forall|other: int| is_closest_at(samples, note, other) implies other == index by {
        if other < index {
            assert(distance(note, samples[index]) < distance(note, samples[other]));
            assert(distance(note, samples[other]) <= distance(note, samples[index]));
        } else if index < other {
            assert(distance(note, samples[other]) < distance(note, samples[index]));
            assert(distance(note, samples[index]) <= distance(note, samples[other]));
        }
    }
}

/// Where there are samples, one of them is the one to play a note with,
/// and no sample lies closer to the note than it does.
pub proof fn lemma_closest_exists(samples: Seq<Note>, note: Note)
    requires
        samples.len() > 0,
    ensures
        exists|index: int| is_closest_at(samples, note, index),
        closest(samples, note) matches Some(sample) && samples.contains(sample) && forall|i: int|
            0 <= i < samples.len() ==> distance(note, sample) <= distance(
                note,
                #[trigger] samples[i],
            ),
    decreases samples.len(),
{
    if samples.len() == 1 {
        assert(is_closest_at(samples, note, 0));
    } else {
        let before = samples.drop_last();
        lemma_closest_exists(before, note);
        let best = choose|index: int| is_closest_at(before, note, index);
        let last = samples.len() - 1;
        assert forall|i: int| 0 <= i < last implies distance(note, before[best]) <= distance(
            note,
            #[trigger] samples[i],
        ) by {
            assert(samples[i] == before[i]);
        }
        assert forall|i: int| 0 <= i < best implies distance(note, before[best]) < distance(
            note,
            #[trigger] samples[i],
        ) by {
            assert(samples[i] == before[i]);
        }
        assert(samples[best] == before[best]);
        if distance(note, samples[last]) < distance(note, before[best]) {
            assert(is_closest_at(samples, note, last));
        } else {
            assert(is_closest_at(samples, note, best));
        }
    }
    let index = choose|index: int| is_closest_at(samples, note, index);
    lemma_closest_is_unique(samples, note, index);
}

/// A note that has a sample of its own is played with that sample.
pub proof fn lemma_own_sample_is_closest(samples: Seq<Note>, note: Note)
    ensures
        samples.contains(note) ==> closest(samples, note) == Some(note),
{
    if samples.contains(note) {
        let own = choose|i: int| 0 <= i < samples.len() && samples[i] == note;
        lemma_closest_exists(samples, note);
        let sample = closest(samples, note)->0;
        assert(distance(note, sample) <= distance(note, samples[own]));
        lemma_note_number_injective(sample, note);
    }
}

} // verus!
