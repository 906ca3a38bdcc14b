use vstd::prelude::*;
use super::chord_like::ChordLike;
use super::interval::Interval;
use super::note::{lemma_transpose, note_numbers, Note};

verus! {

/// A chord-like turned over once: its lowest note is moved to the top, one
/// octave higher. Inversions nest, one turn each.
///
/// Where the lowest note has no octave above it in the range of notes, the
/// inversion leaves the notes as they are.
#[derive(Debug, Clone, PartialEq, Eq)]
pub struct Inversion<T>(pub T);

/// The notes after one inversion: the first note leaves its place and comes
/// back at the end, one octave up. Notes whose first note cannot go up an
/// octave, and no notes at all, stay as they are.
pub open spec fn inverted(notes: Seq<Note>) -> Seq<Note> {
    if notes.len() == 0 {
        notes
    } else {
        match notes[0].spec_octave_up() {
            Some(raised) => notes.skip(1).push(raised),
            None => notes,
        }
    }
}

/// The notes after `turns` inversions.
pub open spec fn inverted_times(notes: Seq<Note>, turns: nat) -> Seq<Note>
    decreases turns,
{
    if turns == 0 {
        notes
    } else {
        inverted(inverted_times(notes, (turns - 1) as nat))
    }
}

/// Whether every note of `notes` has an octave above it in the range.
pub open spec fn all_can_rise(notes: Seq<Note>) -> bool {
    forall|i: int| 0 <= i < notes.len() ==> (#[trigger] notes[i]).spec_octave_up() is Some
}

/// Each note of `notes` one octave up. Meant for notes that can all rise.
pub open spec fn raised(notes: Seq<Note>) -> Seq<Note> {
    Seq::new(notes.len(), |i: int| notes[i].spec_octave_up()->0)
}

impl<T: ChordLike> ChordLike for Inversion<T> {
    open spec fn spec_intervals(&self) -> Seq<Interval> {
        self.0.spec_intervals()
    }

    open spec fn spec_notes(&self) -> Seq<Note> {
        inverted(self.0.spec_notes())
    }

    open spec fn spec_root_note(&self) -> Note {
        self.0.spec_root_note()
    }

    fn intervals(&self) -> (intervals: Vec<Interval>) {
        self.0.intervals()
    }

    fn notes(&self) -> (notes: Vec<Note>) {
        let notes = self.0.notes();
        if notes.len() == 0 {
            return notes;
        }
        match notes[0].octave_up() {
            None => notes,
            Some(raised) => {
                let mut turned: Vec<Note> = Vec::new();
                let mut i: usize = 1;
                while i < notes.len()
                    invariant
                        1 <= i <= notes.len(),
                        turned@ == notes@.subrange(1, i as int),
                    decreases notes.len() - i,
                {
                    turned.push(notes[i]);
                    assert(turned@ =~= notes@.subrange(1, i + 1));
                    i += 1;
                }
                turned.push(raised);
                assert(turned@ =~= notes@.skip(1).push(raised));
                turned
            },
        }
    }

    fn root_note(&self) -> (note: Note) {
        self.0.root_note()
    }
}

/// After `turns` inversions of notes that can all rise, the first `turns`
/// notes stand at the end, each one octave up, behind the others.
pub proof fn lemma_inverted_times(notes: Seq<Note>, turns: nat)
    requires
        turns <= notes.len(),
        all_can_rise(notes),
    ensures
        inverted_times(notes, turns) == notes.skip(turns as int) + raised(notes.take(turns as int)),
    decreases turns,
{
    if turns == 0 {
        assert(inverted_times(notes, turns) =~= notes.skip(0) + raised(notes.take(0)));
    } else {
        let before = (turns - 1) as nat;
        lemma_inverted_times(notes, before);
        let previous = notes.skip(before as int) + raised(notes.take(before as int));
        assert(previous[0] == notes[before as int]);
        assert(inverted(previous) =~= notes.skip(turns as int) + raised(notes.take(turns as int)));
    }
}

/// As many inversions as there are notes bring every note back to its place,
/// one octave higher: the note numbers are those before, each raised by
/// twelve. This holds of notes that can all rise.
pub proof fn lemma_full_turn_raises_octave(notes: Seq<Note>)
    requires
        all_can_rise(notes),
    ensures
        inverted_times(notes, notes.len()) == raised(notes),
        inverted_times(notes, notes.len()).len() == notes.len(),
        forall|i: int|
            0 <= i < notes.len() ==> (#[trigger] inverted_times(
                notes,
                notes.len(),
            )[i]).spec_note_number() == notes[i].spec_note_number() + 12,
{
    lemma_inverted_times(notes, notes.len());
    assert(notes.take(notes.len() as int) =~= notes);
    assert(notes.skip(notes.len() as int) + raised(notes) =~= raised(notes));
    assert forall|i: int| 0 <= i < notes.len() implies (#[trigger] raised(
        notes,
    )[i]).spec_note_number() == notes[i].spec_note_number() + 12 by {
        lemma_transpose(notes[i], 12);
    }
}

/// Three inversions, one inside the other, of a chord-like with three notes
/// that can all rise give its notes one octave higher.
pub proof fn lemma_triad_inverted_three_times<T: ChordLike>(chord: T)
    requires
        chord.spec_notes().len() == 3,
        all_can_rise(chord.spec_notes()),
    ensures
        Inversion(Inversion(Inversion(chord))).spec_notes() == raised(chord.spec_notes()),
        note_numbers(Inversion(Inversion(Inversion(chord))).spec_notes()) == Seq::new(
            3,
            |i: int| chord.spec_notes()[i].spec_note_number() + 12,
        ),
{
    let notes = chord.spec_notes();
    reveal_with_fuel(inverted_times, 4);
    assert(Inversion(Inversion(Inversion(chord))).spec_notes() == inverted_times(notes, 3));
    lemma_full_turn_raises_octave(notes);
    assert(note_numbers(raised(notes)) =~= Seq::new(
        3,
        |i: int| notes[i].spec_note_number() + 12,
    ));
}

} // verus!
