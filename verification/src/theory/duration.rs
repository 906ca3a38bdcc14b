use vstd::prelude::*;

verus! {

/// The length of a note, as a part of a whole note.
#[derive(Debug, Clone, Copy, PartialEq, Eq, PartialOrd, Ord, Structural)]
pub enum Duration {
    ThirtySecond,
    Sixteenth,
    Eighth,
    Quarter,
    Half,
    Whole,
}

impl Duration {
    /// How many notes of this length fill a measure of four quarter notes:
    /// the length is one whole note divided by this number.
    pub open spec fn spec_beats_per_measure(&self) -> usize {
        match self {
            Duration::ThirtySecond => 32,
            Duration::Sixteenth => 16,
            Duration::Eighth => 8,
            Duration::Quarter => 4,
            Duration::Half => 2,
            Duration::Whole => 1,
        }
    }

    /// How many notes of this length fill a measure.
    #[verifier::when_used_as_spec(spec_beats_per_measure)]
    pub fn beats_per_measure(&self) -> (beats: usize)
        ensures
            beats == self.spec_beats_per_measure(),
            1 <= beats <= 32,
        no_unwind
    {
        match self {
            Duration::ThirtySecond => 32,
            Duration::Sixteenth => 16,
            Duration::Eighth => 8,
            Duration::Quarter => 4,
            Duration::Half => 2,
            Duration::Whole => 1,
        }
    }
}

} // verus!
