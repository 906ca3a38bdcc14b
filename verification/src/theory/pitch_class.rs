use vstd::prelude::*;
use vstd::string::StringExecFns;

verus! {

/// One of the twelve pitches of the chromatic scale, without an octave.
#[derive(Debug, Clone, Copy, PartialEq, Eq, PartialOrd, Ord, Hash, Structural)]
pub enum PitchClass {
    C,
    CSharp,
    D,
    DSharp,
    E,
    F,
    FSharp,
    G,
    GSharp,
    A,
    ASharp,
    B,
}

impl PitchClass {
    /// The number of semitones that this pitch class lies above C.
    pub open spec fn semitone(self) -> int {
        match self {
            PitchClass::C => 0,
            PitchClass::CSharp => 1,
            PitchClass::D => 2,
            PitchClass::DSharp => 3,
            PitchClass::E => 4,
            PitchClass::F => 5,
            PitchClass::FSharp => 6,
            PitchClass::G => 7,
            PitchClass::GSharp => 8,
            PitchClass::A => 9,
            PitchClass::ASharp => 10,
            PitchClass::B => 11,
        }
    }

    /// The letter name, with `#` for a sharp.
    pub open spec fn label(self) -> Seq<char> {
        match self {
            PitchClass::C => seq!['C'],
            PitchClass::CSharp => seq!['C', '#'],
            PitchClass::D => seq!['D'],
            PitchClass::DSharp => seq!['D', '#'],
            PitchClass::E => seq!['E'],
            PitchClass::F => seq!['F'],
            PitchClass::FSharp => seq!['F', '#'],
            PitchClass::G => seq!['G'],
            PitchClass::GSharp => seq!['G', '#'],
            PitchClass::A => seq!['A'],
            PitchClass::ASharp => seq!['A', '#'],
            PitchClass::B => seq!['B'],
        }
    }

    /// The letter name as text: `"C"`, `"C#"`, ..., `"B"`.
    pub fn to_string(&self) -> (text: String)
        ensures
            text@ == self.label(),
    {
        let name: &'static str = match self {
            PitchClass::C => "C",
            PitchClass::CSharp => "C#",
            PitchClass::D => "D",
            PitchClass::DSharp => "D#",
            PitchClass::E => "E",
            PitchClass::F => "F",
            PitchClass::FSharp => "F#",
            PitchClass::G => "G",
            PitchClass::GSharp => "G#",
            PitchClass::A => "A",
            PitchClass::ASharp => "A#",
            PitchClass::B => "B",
        };
        proof {
            reveal_strlit("C");
            reveal_strlit("C#");
            reveal_strlit("D");
            reveal_strlit("D#");
            reveal_strlit("E");
            reveal_strlit("F");
            reveal_strlit("F#");
            reveal_strlit("G");
            reveal_strlit("G#");
            reveal_strlit("A");
            reveal_strlit("A#");
            reveal_strlit("B");
        }
        let text = String::from_str(name);
        assert(text@ =~= self.label());
        text
    }
}

/// Two pitch classes that lie equally far above C are the same pitch class.
pub proof fn lemma_semitone_injective(a: PitchClass, b: PitchClass)
    requires
        a.semitone() == b.semitone(),
    ensures
        a == b,
{
}

} // verus!
