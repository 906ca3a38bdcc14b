use vstd::prelude::*;
use super::interval::Interval;
use super::note::Note;

verus! {

/// Anything that can be played as a chord: it has a root, a list of intervals
/// above the root, and the notes that result.
pub trait ChordLike {
    /// The intervals of the chord, lowest first.
    spec fn spec_intervals(&self) -> Seq<Interval>;

    /// The notes of the chord, in the order in which they are played.
    spec fn spec_notes(&self) -> Seq<Note>;

    /// The note that the chord is built on.
    spec fn spec_root_note(&self) -> Note;

    /// The intervals of the chord, lowest first.
    fn intervals(&self) -> (intervals: Vec<Interval>)
        ensures
            intervals@ == self.spec_intervals(),
    ;

    /// The notes of the chord, in the order in which they are played.
    fn notes(&self) -> (notes: Vec<Note>)
        ensures
            notes@ == self.spec_notes(),
    ;

    /// The note that the chord is built on.
    fn root_note(&self) -> (note: Note)
        ensures
            note == self.spec_root_note(),
    ;
}

} // verus!
