use vstd::prelude::*;
use vstd::arithmetic::div_mod::{lemma_add_mod_noop, lemma_small_mod};
use crate::theory::note::Note;

verus! {

/// The length of one up-and-down cycle over `len` notes: up over all of
/// them, then down over those between the ends, so that no end sounds twice
/// in a row.
pub open spec fn cycle_len(len: nat) -> nat {
    if len == 0 {
        0
    } else if len == 1 {
        1
    } else {
        (2 * len - 2) as nat
    }
}

/// The index of the note that stands at `place` of the cycle over `len`
/// notes: the place itself on the way up, the distance to the end of the
/// cycle on the way down.
pub open spec fn cycle_index(len: nat, place: nat) -> int {
    if place < len {
        place as int
    } else {
        cycle_len(len) - place
    }
}

/// Every place of the cycle holds one of the notes.
pub proof fn lemma_cycle_index_in_range(len: nat, place: nat)
    requires
        place < cycle_len(len),
    ensures
        0 <= cycle_index(len, place) < len,
{
}

/// The way down mirrors the way up: the note at a place on the way down is
/// the one that stood as far from the start of the cycle as this place
/// stands from its end.
pub proof fn lemma_cycle_is_symmetric(len: nat, place: nat)
    requires
        0 < place < cycle_len(len),
    ensures
        cycle_index(len, place) == cycle_index(len, (cycle_len(len) - place) as nat),
{
}

/// Plays the notes from the first to the last and back down again, then
/// starts again. The two ends are played once in each cycle.
pub struct UpDownArpeggiator {
    notes: Vec<Note>,
    steps: usize,
    pos: usize,
}

impl UpDownArpeggiator {
    #[verifier::type_invariant]
    spec fn inv(&self) -> bool {
        &&& self.steps == cycle_len(self.notes@.len())
        &&& self.pos < self.steps || self.pos == 0
    }

    /// The notes that the arpeggiator cycles over.
    pub closed spec fn spec_notes(&self) -> Seq<Note> {
        self.notes@
    }

    /// How many notes of the current cycle have been played.
    pub closed spec fn position(&self) -> nat {
        self.pos as nat
    }

    /// The note that is played `ahead` calls from now. Meant for an
    /// arpeggiator that has notes.
    pub open spec fn upcoming(&self, ahead: nat) -> Note {
        let len = self.spec_notes().len();
        self.spec_notes()[cycle_index(len, (self.position() + ahead) % cycle_len(len))]
    }

    /// An arpeggiator over `notes`, at the start of its cycle.
    pub fn new(notes: Vec<Note>) -> (arp: Self)
        requires
            notes@.len() <= usize::MAX / 2,
        ensures
            arp.spec_notes() == notes@,
            arp.position() == 0,
    {
        let steps = match notes.len() {
            0 => 0,
            1 => 1,
            _ => (notes.len() * 2) - 2,
        };
        Self { notes, steps, pos: 0 }
    }

    /// Goes back to the start of the cycle.
    pub fn reset(&mut self)
        ensures
            final(self).spec_notes() == old(self).spec_notes(),
            final(self).position() == 0,
    {
        proof {
            use_type_invariant(&*self);
        }
        self.pos = 0;
    }

    /// Whether there is a note to play: there is, unless there are no notes.
    pub fn has_next(&self) -> (more: bool)
        ensures
            more == (self.spec_notes().len() > 0),
    {
        proof {
            use_type_invariant(self);
        }
        self.steps != 0
    }

    fn next_index(&self) -> (index: Option<usize>)
        ensures
            self.spec_notes().len() == 0 ==> index is None,
            self.spec_notes().len() > 0 ==> {
                &&& self.position() < cycle_len(self.spec_notes().len())
                &&& index matches Some(i)
                &&& i < self.spec_notes().len()
                &&& i == cycle_index(self.spec_notes().len(), self.position())
            },
    {
        proof {
            use_type_invariant(self);
        }
        if !self.has_next() {
            return None;
        }
        let index = if self.pos < self.notes.len() {
            self.pos
        } else {
            self.steps - self.pos
        };
        Some(index)
    }

    /// The note at the current place of the cycle, and a step forward; after
    /// the last place the cycle starts again. Without notes there is nothing
    /// to play.
    pub fn next(&mut self) -> (note: Option<Note>)
        ensures
            final(self).spec_notes() == old(self).spec_notes(),
            old(self).spec_notes().len() == 0 ==> note is None && final(self).position() == old(
                self,
            ).position(),
            old(self).spec_notes().len() > 0 ==> {
                &&& old(self).position() < cycle_len(old(self).spec_notes().len())
                &&& note == Some(
                    old(self).spec_notes()[cycle_index(
                        old(self).spec_notes().len(),
                        old(self).position(),
                    )],
                )
                &&& note == Some(old(self).upcoming(0))
                &&& old(self).spec_notes().len() == 1 ==> note == Some(old(self).spec_notes()[0])
                &&& final(self).position() == (old(self).position() + 1) % cycle_len(
                    old(self).spec_notes().len(),
                )
            },
    {
        proof {
            use_type_invariant(&*self);
        }
        match self.next_index() {
            None => None,
            Some(index) => {
                let note = self.notes[index];
                proof {
                    lemma_small_mod(self.position(), cycle_len(self.spec_notes().len()));
                }
                self.pos = (self.pos + 1) % self.steps;
                Some(note)
            },
        }
    }

    /// The next `count` notes, in the order in which `next` would give them;
    /// no notes at all where there is nothing to play.
    pub fn take(&mut self, count: usize) -> (played: Vec<Note>)
        ensures
            final(self).spec_notes() == old(self).spec_notes(),
            old(self).spec_notes().len() == 0 ==> played@.len() == 0 && final(self).position()
                == old(self).position(),
            old(self).spec_notes().len() > 0 ==> {
                &&& played@.len() == count
                &&& forall|k: int|
                    0 <= k < count ==> #[trigger] played@[k] == old(self).upcoming(k as nat)
                &&& final(self).position() == (old(self).position() + count) % (cycle_len(
                    old(self).spec_notes().len(),
                ) as int)
            },
    {
        proof {
            use_type_invariant(&*self);
        }
        let mut played: Vec<Note> = Vec::new();
        if !self.has_next() {
            return played;
        }
        let ghost len = self.spec_notes().len();
        let ghost cycle = cycle_len(len) as int;
        let ghost start = self.position() as int;
        let mut k: usize = 0;
        proof {
            lemma_small_mod(start as nat, cycle as nat);
        }
        while k < count
            invariant
                k <= count,
                len > 0,
                len == self.spec_notes().len(),
                cycle == cycle_len(len),
                start == old(self).position(),
                self.spec_notes() == old(self).spec_notes(),
                self.position() == (start + k) % cycle,
                played@.len() == k,
                forall|j: int| 0 <= j < k ==> #[trigger] played@[j] == old(self).upcoming(j as nat),
            decreases count - k,
        {
            let note = self.next();
            proof {
                lemma_add_mod_noop(start + k, 1, cycle);
                if cycle > 1 {
                    lemma_small_mod(1, cycle as nat);
                }
            }
            played.push(note.unwrap());
            k += 1;
        }
        played
    }
}

} // verus!
