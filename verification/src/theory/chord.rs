use vstd::prelude::*;
use vstd::string::StringExecFns;
use super::chord_like::ChordLike;
use super::interval::Interval;
use super::note::{lemma_transpose, Note};

verus! {

/// A chord on a root note: a triad, a seventh chord or a ninth chord, each
/// major or minor.
#[derive(Debug, Clone, Copy, PartialEq, Eq, Structural)]
pub enum Chord {
    Major(Note),
    Minor(Note),
    Major7th(Note),
    Minor7th(Note),
    Major9th(Note),
    Minor9th(Note),
}

/// The notes that lie the given intervals above `root`, in the order of the
/// intervals. An interval that leads out of the range of notes adds no note.
pub open spec fn notes_above(root: Note, intervals: Seq<Interval>) -> Seq<Note>
    decreases intervals.len(),
{
    if intervals.len() == 0 {
        Seq::empty()
    } else {
        let below = notes_above(root, intervals.drop_last());
        match root.spec_transpose(intervals.last().spec_semitones()) {
            Some(note) => below.push(note),
            None => below,
        }
    }
}

impl Chord {
    /// What follows the root's letter in the chord's name.
    pub open spec fn suffix(&self) -> Seq<char> {
        match self {
            Chord::Major(_) => seq![],
            Chord::Minor(_) => seq!['m'],
            Chord::Major7th(_) => seq!['M', '7'],
            Chord::Minor7th(_) => seq!['m', '7'],
            Chord::Major9th(_) => seq!['M', '9'],
            Chord::Minor9th(_) => seq!['m', '9'],
        }
    }

    /// The name of the chord: the pitch class of its root, then its kind.
    pub open spec fn label(&self) -> Seq<char> {
        self.spec_root_note().spec_pitch_class().label() + self.suffix()
    }

    /// The name of the chord as text, such as `"C"`, `"Cm"` or `"CM7"`.
    pub fn to_string(&self) -> (text: String)
        ensures
            text@ == self.label(),
    {
        let suffix: &'static str = match self {
            Chord::Major(_) => "",
            Chord::Minor(_) => "m",
            Chord::Major7th(_) => "M7",
            Chord::Minor7th(_) => "m7",
            Chord::Major9th(_) => "M9",
            Chord::Minor9th(_) => "m9",
        };
        proof {
            reveal_strlit("");
            reveal_strlit("m");
            reveal_strlit("M7");
            reveal_strlit("m7");
            reveal_strlit("M9");
            reveal_strlit("m9");
        }
        let text = self.root_note().pitch_class().to_string().concat(suffix);
        assert(text@ =~= self.label());
        text
    }
}

impl ChordLike for Chord {
    open spec fn spec_intervals(&self) -> Seq<Interval> {
        match self {
            Chord::Major(_) => seq![Interval::P1, Interval::Maj3, Interval::P5],
            Chord::Minor(_) => seq![Interval::P1, Interval::Min3, Interval::P5],
            Chord::Major7th(_) => seq![Interval::P1, Interval::Maj3, Interval::P5, Interval::Maj7],
            Chord::Minor7th(_) => seq![Interval::P1, Interval::Min3, Interval::P5, Interval::Min7],
            Chord::Major9th(_) => seq![
                Interval::P1,
                Interval::Maj3,
                Interval::P5,
                Interval::Maj7,
                Interval::Maj9,
            ],
            Chord::Minor9th(_) => seq![
                Interval::P1,
                Interval::Min3,
                Interval::P5,
                Interval::Min7,
                Interval::Maj9,
            ],
        }
    }

    open spec fn spec_notes(&self) -> Seq<Note> {
        notes_above(self.spec_root_note(), self.spec_intervals())
    }

    open spec fn spec_root_note(&self) -> Note {
        match self {
            Chord::Major(note) => *note,
            Chord::Minor(note) => *note,
            Chord::Major7th(note) => *note,
            Chord::Minor7th(note) => *note,
            Chord::Major9th(note) => *note,
            Chord::Minor9th(note) => *note,
        }
    }

    fn intervals(&self) -> (intervals: Vec<Interval>) {
        let intervals = match self {
            Chord::Major(_) => vec![Interval::P1, Interval::Maj3, Interval::P5],
            Chord::Minor(_) => vec![Interval::P1, Interval::Min3, Interval::P5],
            Chord::Major7th(_) => vec![Interval::P1, Interval::Maj3, Interval::P5, Interval::Maj7],
            Chord::Minor7th(_) => vec![Interval::P1, Interval::Min3, Interval::P5, Interval::Min7],
            Chord::Major9th(_) => vec![
                Interval::P1,
                Interval::Maj3,
                Interval::P5,
                Interval::Maj7,
                Interval::Maj9,
            ],
            Chord::Minor9th(_) => vec![
                Interval::P1,
                Interval::Min3,
                Interval::P5,
                Interval::Min7,
                Interval::Maj9,
            ],
        };
        assert(intervals@ =~= self.spec_intervals());
        intervals
    }

    fn notes(&self) -> (notes: Vec<Note>) {
        let root = self.root_note();
        let intervals = self.intervals();
        let mut notes: Vec<Note> = Vec::new();
        let mut i: usize = 0;
        assert(intervals@.take(0) =~= Seq::empty());
        while i < intervals.len()
            invariant
                i <= intervals.len(),
                notes@ == notes_above(root, intervals@.take(i as int)),
            decreases intervals.len() - i,
        {
            proof {
                assert(intervals@.take(i + 1).drop_last() =~= intervals@.take(i as int));
                lemma_transpose(root, intervals[i as int].spec_semitones());
            }
            match Note::from_note_number(root.note_number() + intervals[i].semitones()) {
                Some(note) => notes.push(note),
                None => {},
            }
            i += 1;
        }
        assert(intervals@.take(i as int) =~= intervals@);
        notes
    }

    fn root_note(&self) -> (note: Note) {
        match self {
            Chord::Major(note)
            | Chord::Minor(note)
            | Chord::Major7th(note)
            | Chord::Minor7th(note)
            | Chord::Major9th(note)
            | Chord::Minor9th(note) => *note,
        }
    }
}

/// A chord has no more notes than intervals, and exactly as many where its
/// highest interval still lands on a note.
pub proof fn lemma_notes_above_len(root: Note, intervals: Seq<Interval>)
    ensures
        notes_above(root, intervals).len() <= intervals.len(),
        (forall|i: int|
            0 <= i < intervals.len() ==> root.spec_transpose(
                #[trigger] intervals[i].spec_semitones(),
            ) is Some) ==> notes_above(root, intervals).len() == intervals.len(),
    decreases intervals.len(),
{
    if intervals.len() > 0 {
        lemma_notes_above_len(root, intervals.drop_last());
    }
}

/// Each note of a chord lies one of the chord's intervals above the root:
/// where every interval lands on a note, the note at a place lies the interval
/// at that place above the root.
pub proof fn lemma_notes_above_index(root: Note, intervals: Seq<Interval>, i: int)
    requires
        0 <= i < intervals.len(),
        forall|j: int|
            0 <= j < intervals.len() ==> root.spec_transpose(
                #[trigger] intervals[j].spec_semitones(),
            ) is Some,
    ensures
        notes_above(root, intervals).len() == intervals.len(),
        notes_above(root, intervals)[i].spec_note_number() == root.spec_note_number()
            + intervals[i].spec_semitones(),
    decreases intervals.len(),
{
    lemma_notes_above_len(root, intervals);
    lemma_notes_above_len(root, intervals.drop_last());
    if i < intervals.len() - 1 {
        lemma_notes_above_index(root, intervals.drop_last(), i);
    } else {
        lemma_transpose(root, intervals.last().spec_semitones());
    }
}

} // verus!
