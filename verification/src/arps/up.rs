use vstd::prelude::*;
use crate::theory::note::Note;

verus! {

/// Plays the notes from the first to the last, then starts again.
pub struct UpArpeggiator {
    notes: Vec<Note>,
    pos: usize,
}

impl UpArpeggiator {
    #[verifier::type_invariant]
    spec fn inv(&self) -> bool {
        self.pos < self.notes.len() || self.pos == 0
    }

    /// The notes that the arpeggiator cycles over.
    pub closed spec fn spec_notes(&self) -> Seq<Note> {
        self.notes@
    }

    /// How many notes of the current cycle have been played.
    pub closed spec fn position(&self) -> nat {
        self.pos as nat
    }

    /// An arpeggiator over `notes`, at the start of its cycle.
    pub fn new(notes: Vec<Note>) -> (arp: Self)
        ensures
            arp.spec_notes() == notes@,
            arp.position() == 0,
    {
        Self { notes, pos: 0 }
    }

    /// Goes back to the start of the cycle.
    pub fn reset(&mut self)
        ensures
            final(self).spec_notes() == old(self).spec_notes(),
            final(self).position() == 0,
    {
        self.pos = 0;
    }

    /// Whether there is a note to play: there is, unless there are no notes.
    pub fn has_next(&self) -> (more: bool)
        ensures
            more == (self.spec_notes().len() > 0),
    {
        self.notes.len() > 0
    }

    /// The note at the current place, and a step forward; after the last note
    /// the cycle starts again. Without notes there is nothing to play.
    pub fn next(&mut self) -> (note: Option<Note>)
        ensures
            final(self).spec_notes() == old(self).spec_notes(),
            old(self).spec_notes().len() == 0 ==> note is None && final(self).position() == old(
                self,
            ).position(),
            old(self).spec_notes().len() > 0 ==> {
                &&& old(self).position() < old(self).spec_notes().len()
                &&& note == Some(old(self).spec_notes()[old(self).position() as int])
                &&& final(self).position() == (old(self).position() + 1) % old(
                    self,
                ).spec_notes().len()
            },
    {
        proof {
            use_type_invariant(&*self);
        }
        if !self.has_next() {
            return None;
        }
        let note = self.notes[self.pos];
        self.pos = (self.pos + 1) % self.notes.len();
        Some(note)
    }
}

} // verus!
