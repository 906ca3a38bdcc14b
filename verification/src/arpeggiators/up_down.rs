use vstd::prelude::*;
use vstd::arithmetic::div_mod::lemma_mod_bound;
use crate::arps::up_down::{cycle_index, cycle_len};
use crate::theory::note::Note;

verus! {

/// After how many steps an arpeggiator over `len` notes starts again: none
/// without notes, one with a single note; otherwise the number asked for,
/// or the length of the natural cycle where none was asked for.
pub open spec fn effective_steps(len: nat, steps: Option<usize>) -> nat {
    if len == 0 {
        0
    } else if len == 1 {
        1
    } else {
        match steps {
            Some(steps) => steps as nat,
            None => cycle_len(len),
        }
    }
}

/// Plays the notes up and down like the plain up-down arpeggiator, but
/// starts again from the first note after a chosen number of steps, whether
/// the natural cycle is over by then or not.
pub struct UpDownArpeggiator {
    notes: Vec<Note>,
    steps: usize,
    pos: usize,
}

impl UpDownArpeggiator {
    #[verifier::type_invariant]
    spec fn inv(&self) -> bool {
        &&& self.notes@.len() <= usize::MAX / 2
        &&& self.notes@.len() == 0 ==> self.steps == 0
        &&& self.notes@.len() == 1 ==> self.steps == 1
        &&& self.pos < self.steps || self.pos == 0
    }

    /// The notes that the arpeggiator cycles over.
    pub closed spec fn spec_notes(&self) -> Seq<Note> {
        self.notes@
    }

    /// After how many steps the arpeggiator starts again.
    pub closed spec fn steps(&self) -> nat {
        self.steps as nat
    }

    /// How many steps have been played since the arpeggiator last started.
    pub closed spec fn position(&self) -> nat {
        self.pos as nat
    }

    /// Whether there is a note to play.
    pub open spec fn spec_has_next(&self) -> bool {
        self.steps() != 0 && self.spec_notes().len() != 0
    }

    /// An arpeggiator over `notes` that starts again after `steps` steps, or
    /// after one natural cycle where `steps` is `None`.
    pub fn new(notes: Vec<Note>, steps: Option<usize>) -> (arp: Self)
        requires
            notes@.len() <= usize::MAX / 2,
        ensures
            arp.spec_notes() == notes@,
            arp.steps() == effective_steps(notes@.len(), steps),
            arp.position() == 0,
    {
        let steps = if notes.len() == 0 {
            0
        } else if notes.len() == 1 {
            1
        } else {
            match steps {
                Some(steps) => steps,
                None => (notes.len() * 2) - 2,
            }
        };
        Self { notes, steps, pos: 0 }
    }

    /// Goes back to the first step.
    pub fn reset(&mut self)
        ensures
            final(self).spec_notes() == old(self).spec_notes(),
            final(self).steps() == old(self).steps(),
            final(self).position() == 0,
    {
        proof {
            use_type_invariant(&*self);
        }
        self.pos = 0;
    }

    /// Whether there is a note to play: there is, unless there are no notes
    /// or no steps.
    #[verifier::when_used_as_spec(spec_has_next)]
    pub fn has_next(&self) -> (more: bool)
        ensures
            more == self.spec_has_next(),
    {
        !(self.steps == 0 || self.notes.len() == 0)
    }

    fn cycle_steps(&self) -> (steps: usize)
        ensures
            steps == cycle_len(self.spec_notes().len()),
    {
        proof {
            use_type_invariant(self);
        }
        match self.notes.len() {
            0 => 0,
            1 => 1,
            len => (len * 2) - 2,
        }
    }

    fn next_index(&self) -> (index: Option<usize>)
        ensures
            !self.spec_has_next() ==> index is None,
            self.spec_has_next() ==> {
                &&& index matches Some(i)
                &&& i < self.spec_notes().len()
                &&& i == cycle_index(
                    self.spec_notes().len(),
                    self.position() % cycle_len(self.spec_notes().len()),
                )
            },
    {
        if !self.has_next() {
            return None;
        }
        let cycle_steps = self.cycle_steps();
        let cycle_pos = self.pos % cycle_steps;
        proof {
            lemma_mod_bound(self.pos as int, cycle_steps as int);
        }
        let index = if cycle_pos < self.notes.len() {
            cycle_pos
        } else {
            cycle_steps - cycle_pos
        };
        Some(index)
    }

    /// The note at the current step, and a step forward. The note is the one
    /// that the natural up-and-down cycle holds at this step, the cycle
    /// taken round as often as needed; the step count only decides after how
    /// many steps the arpeggiator starts again from its first step. Without
    /// notes or without steps there is nothing to play.
    pub fn next(&mut self) -> (note: Option<Note>)
        ensures
            final(self).spec_notes() == old(self).spec_notes(),
            final(self).steps() == old(self).steps(),
            !old(self).spec_has_next() ==> note is None && final(self).position() == old(
                self,
            ).position(),
            old(self).spec_has_next() ==> {
                &&& old(self).position() < old(self).steps()
                &&& note == Some(
                    old(self).spec_notes()[cycle_index(
                        old(self).spec_notes().len(),
                        old(self).position() % cycle_len(old(self).spec_notes().len()),
                    )],
                )
                &&& final(self).position() == (old(self).position() + 1) % old(self).steps()
                &&& old(self).spec_notes().len() == 1 ==> note == Some(old(self).spec_notes()[0])
            },
    {
        proof {
            use_type_invariant(&*self);
        }
        match self.next_index() {
            None => None,
            Some(index) => {
                let note = self.notes[index];
                proof {
                    lemma_mod_bound(self.pos + 1, self.steps as int);
                }
                self.pos = (self.pos + 1) % self.steps;
                Some(note)
            },
        }
    }
}

/// With the natural number of steps the arpeggiator runs through the plain
/// up-and-down cycle: at each step it plays the note that the cycle holds at
/// that place.
pub proof fn lemma_natural_steps(len: nat, position: nat)
    requires
        position < effective_steps(len, None),
    ensures
        effective_steps(len, None) == cycle_len(len),
        cycle_index(len, position % cycle_len(len)) == cycle_index(len, position),
{
    vstd::arithmetic::div_mod::lemma_small_mod(position, cycle_len(len));
}

} // verus!
