use vstd::prelude::*;
use vstd::string::StringExecFns;
use super::pitch_class::PitchClass;

verus! {

/// The number of semitones in an octave.
pub const SEMITONES: u8 = 12;

/// The note number of the lowest note, C0.
pub const LOWEST: u8 = 12;

/// The note number of the highest note, B5.
pub const HIGHEST: u8 = 83;

/// The note number of concert pitch, A4, which sounds at 440 Hz.
pub const CONCERT_PITCH: u8 = 69;

/// A pitch of the chromatic scale, from C0 up to B5.
///
/// Each note has a note number, one per semitone, from [`LOWEST`] to
/// [`HIGHEST`]; the variants are declared in rising order.
#[derive(Debug, Clone, Copy, PartialEq, Eq, PartialOrd, Ord, Hash, Structural)]
pub enum Note {
    C0,
    Csharp0,
    D0,
    Dsharp0,
    E0,
    F0,
    Fsharp0,
    G0,
    Gsharp0,
    A0,
    Asharp0,
    B0,
    C1,
    Csharp1,
    D1,
    Dsharp1,
    E1,
    F1,
    Fsharp1,
    G1,
    Gsharp1,
    A1,
    Asharp1,
    B1,
    C2,
    Csharp2,
    D2,
    Dsharp2,
    E2,
    F2,
    Fsharp2,
    G2,
    Gsharp2,
    A2,
    Asharp2,
    B2,
    C3,
    Csharp3,
    D3,
    Dsharp3,
    E3,
    F3,
    Fsharp3,
    G3,
    Gsharp3,
    A3,
    Asharp3,
    B3,
    C4,
    Csharp4,
    D4,
    Dsharp4,
    E4,
    F4,
    Fsharp4,
    G4,
    Gsharp4,
    A4,
    Asharp4,
    B4,
    C5,
    Csharp5,
    D5,
    Dsharp5,
    E5,
    F5,
    Fsharp5,
    G5,
    Gsharp5,
    A5,
    Asharp5,
    B5,
}

/// Whether `number` is the note number of some note.
pub open spec fn in_range(number: int) -> bool {
    LOWEST <= number <= HIGHEST
}

/// The note numbers of `notes`, in order.
pub open spec fn note_numbers(notes: Seq<Note>) -> Seq<int> {
    Seq::new(notes.len(), |i: int| notes[i].spec_note_number() as int)
}

impl Note {
    /// The note number: 12 for C0, one more for each semitone, 83 for B5.
    pub open spec fn spec_note_number(&self) -> u8 {
        match self {
            Note::C0 => 12,
            Note::Csharp0 => 13,
            Note::D0 => 14,
            Note::Dsharp0 => 15,
            Note::E0 => 16,
            Note::F0 => 17,
            Note::Fsharp0 => 18,
            Note::G0 => 19,
            Note::Gsharp0 => 20,
            Note::A0 => 21,
            Note::Asharp0 => 22,
            Note::B0 => 23,
            Note::C1 => 24,
            Note::Csharp1 => 25,
            Note::D1 => 26,
            Note::Dsharp1 => 27,
            Note::E1 => 28,
            Note::F1 => 29,
            Note::Fsharp1 => 30,
            Note::G1 => 31,
            Note::Gsharp1 => 32,
            Note::A1 => 33,
            Note::Asharp1 => 34,
            Note::B1 => 35,
            Note::C2 => 36,
            Note::Csharp2 => 37,
            Note::D2 => 38,
            Note::Dsharp2 => 39,
            Note::E2 => 40,
            Note::F2 => 41,
            Note::Fsharp2 => 42,
            Note::G2 => 43,
            Note::Gsharp2 => 44,
            Note::A2 => 45,
            Note::Asharp2 => 46,
            Note::B2 => 47,
            Note::C3 => 48,
            Note::Csharp3 => 49,
            Note::D3 => 50,
            Note::Dsharp3 => 51,
            Note::E3 => 52,
            Note::F3 => 53,
            Note::Fsharp3 => 54,
            Note::G3 => 55,
            Note::Gsharp3 => 56,
            Note::A3 => 57,
            Note::Asharp3 => 58,
            Note::B3 => 59,
            Note::C4 => 60,
            Note::Csharp4 => 61,
            Note::D4 => 62,
            Note::Dsharp4 => 63,
            Note::E4 => 64,
            Note::F4 => 65,
            Note::Fsharp4 => 66,
            Note::G4 => 67,
            Note::Gsharp4 => 68,
            Note::A4 => 69,
            Note::Asharp4 => 70,
            Note::B4 => 71,
            Note::C5 => 72,
            Note::Csharp5 => 73,
            Note::D5 => 74,
            Note::Dsharp5 => 75,
            Note::E5 => 76,
            Note::F5 => 77,
            Note::Fsharp5 => 78,
            Note::G5 => 79,
            Note::Gsharp5 => 80,
            Note::A5 => 81,
            Note::Asharp5 => 82,
            Note::B5 => 83,
        }
    }

    /// The octave: 0 for C0 to B0, up to 5 for C5 to B5.
    pub open spec fn spec_octave(&self) -> int {
        self.spec_note_number() / 12 - 1
    }

    /// Where this note lies relative to concert pitch, in semitones.
    pub open spec fn spec_semitones_from_concert_pitch(&self) -> int {
        self.spec_note_number() - CONCERT_PITCH
    }

    /// The name of the note: its pitch class, then its octave as one digit.
    pub open spec fn label(&self) -> Seq<char> {
        self.spec_pitch_class().label().push(digit(self.spec_octave()))
    }

    /// The pitch class of the note: the one that lies `note number mod 12`
    /// semitones above C.
    pub open spec fn spec_pitch_class(&self) -> PitchClass {
        let semitone = self.spec_note_number() % 12;
        if semitone == 0 {
            PitchClass::C
        } else if semitone == 1 {
            PitchClass::CSharp
        } else if semitone == 2 {
            PitchClass::D
        } else if semitone == 3 {
            PitchClass::DSharp
        } else if semitone == 4 {
            PitchClass::E
        } else if semitone == 5 {
            PitchClass::F
        } else if semitone == 6 {
            PitchClass::FSharp
        } else if semitone == 7 {
            PitchClass::G
        } else if semitone == 8 {
            PitchClass::GSharp
        } else if semitone == 9 {
            PitchClass::A
        } else if semitone == 10 {
            PitchClass::ASharp
        } else {
            PitchClass::B
        }
    }

    /// The note with the given note number, if there is one: the inverse of
    /// [`Note::spec_note_number`].
    pub open spec fn spec_from_note_number(number: int) -> Option<Note> {
        if in_range(number) {
            Some(choose|note: Note| note.spec_note_number() == number)
        } else {
            None
        }
    }

    /// The note `semitones` semitones higher, if that is still a note.
    pub open spec fn spec_transpose(&self, semitones: int) -> Option<Note> {
        Note::spec_from_note_number(self.spec_note_number() + semitones)
    }

    /// The note one octave higher, if that is still a note.
    pub open spec fn spec_octave_up(&self) -> Option<Note> {
        self.spec_transpose(12)
    }

    /// The note one octave lower, if that is still a note.
    pub open spec fn spec_octave_down(&self) -> Option<Note> {
        self.spec_transpose(-12)
    }

    /// The note with the given note number, if there is one.
    pub fn from_note_number(note_number: u8) -> (note: Option<Note>)
        ensures
            note == Note::spec_from_note_number(note_number as int),
            note is Some <==> in_range(note_number as int),
            note matches Some(n) ==> n.spec_note_number() == note_number,
    {
        proof {
            lemma_from_note_number(note_number as int);
        }
        match note_number {
            12 => Some(Note::C0),
            13 => Some(Note::Csharp0),
            14 => Some(Note::D0),
            15 => Some(Note::Dsharp0),
            16 => Some(Note::E0),
            17 => Some(Note::F0),
            18 => Some(Note::Fsharp0),
            19 => Some(Note::G0),
            20 => Some(Note::Gsharp0),
            21 => Some(Note::A0),
            22 => Some(Note::Asharp0),
            23 => Some(Note::B0),
            24 => Some(Note::C1),
            25 => Some(Note::Csharp1),
            26 => Some(Note::D1),
            27 => Some(Note::Dsharp1),
            28 => Some(Note::E1),
            29 => Some(Note::F1),
            30 => Some(Note::Fsharp1),
            31 => Some(Note::G1),
            32 => Some(Note::Gsharp1),
            33 => Some(Note::A1),
            34 => Some(Note::Asharp1),
            35 => Some(Note::B1),
            36 => Some(Note::C2),
            37 => Some(Note::Csharp2),
            38 => Some(Note::D2),
            39 => Some(Note::Dsharp2),
            40 => Some(Note::E2),
            41 => Some(Note::F2),
            42 => Some(Note::Fsharp2),
            43 => Some(Note::G2),
            44 => Some(Note::Gsharp2),
            45 => Some(Note::A2),
            46 => Some(Note::Asharp2),
            47 => Some(Note::B2),
            48 => Some(Note::C3),
            49 => Some(Note::Csharp3),
            50 => Some(Note::D3),
            51 => Some(Note::Dsharp3),
            52 => Some(Note::E3),
            53 => Some(Note::F3),
            54 => Some(Note::Fsharp3),
            55 => Some(Note::G3),
            56 => Some(Note::Gsharp3),
            57 => Some(Note::A3),
            58 => Some(Note::Asharp3),
            59 => Some(Note::B3),
            60 => Some(Note::C4),
            61 => Some(Note::Csharp4),
            62 => Some(Note::D4),
            63 => Some(Note::Dsharp4),
            64 => Some(Note::E4),
            65 => Some(Note::F4),
            66 => Some(Note::Fsharp4),
            67 => Some(Note::G4),
            68 => Some(Note::Gsharp4),
            69 => Some(Note::A4),
            70 => Some(Note::Asharp4),
            71 => Some(Note::B4),
            72 => Some(Note::C5),
            73 => Some(Note::Csharp5),
            74 => Some(Note::D5),
            75 => Some(Note::Dsharp5),
            76 => Some(Note::E5),
            77 => Some(Note::F5),
            78 => Some(Note::Fsharp5),
            79 => Some(Note::G5),
            80 => Some(Note::Gsharp5),
            81 => Some(Note::A5),
            82 => Some(Note::Asharp5),
            83 => Some(Note::B5),
            _ => None,
        }
    }

    /// The octave of the note.
    pub fn octave(&self) -> (octave: i8)
        ensures
            octave == self.spec_octave(),
            0 <= octave <= 5,
    {
        (self.note_number() / SEMITONES) as i8 - 1
    }

    /// The note one octave higher, if it is in range.
    pub fn octave_up(&self) -> (note: Option<Note>)
        ensures
            note == self.spec_octave_up(),
            note is Some <==> in_range(self.spec_note_number() + 12),
            note matches Some(n) ==> n.spec_note_number() == self.spec_note_number() + 12,
    {
        self.transpose(12)
    }

    /// The note one octave lower, if it is in range.
    pub fn octave_down(&self) -> (note: Option<Note>)
        ensures
            note == self.spec_octave_down(),
            note is Some <==> in_range(self.spec_note_number() - 12),
            note matches Some(n) ==> n.spec_note_number() == self.spec_note_number() - 12,
    {
        self.transpose(-12)
    }

    /// The note `semitones` semitones higher (lower, where negative), if it is
    /// in range. A result outside the range is no note: nothing wraps around.
    pub fn transpose(&self, semitones: i8) -> (note: Option<Note>)
        ensures
            note == self.spec_transpose(semitones as int),
            note is Some <==> in_range(self.spec_note_number() + semitones),
            note matches Some(n) ==> n.spec_note_number() == self.spec_note_number() + semitones,
    {
        let target: i16 = self.note_number() as i16 + semitones as i16;
        if target < LOWEST as i16 || target > HIGHEST as i16 {
            None
        } else {
            Note::from_note_number(target as u8)
        }
    }

    /// The note number of the note.
    #[verifier::when_used_as_spec(spec_note_number)]
    pub fn note_number(&self) -> (number: u8)
        ensures
            number == self.spec_note_number(),
            in_range(number as int),
    {
        match self {
            Note::C0 => 12,
            Note::Csharp0 => 13,
            Note::D0 => 14,
            Note::Dsharp0 => 15,
            Note::E0 => 16,
            Note::F0 => 17,
            Note::Fsharp0 => 18,
            Note::G0 => 19,
            Note::Gsharp0 => 20,
            Note::A0 => 21,
            Note::Asharp0 => 22,
            Note::B0 => 23,
            Note::C1 => 24,
            Note::Csharp1 => 25,
            Note::D1 => 26,
            Note::Dsharp1 => 27,
            Note::E1 => 28,
            Note::F1 => 29,
            Note::Fsharp1 => 30,
            Note::G1 => 31,
            Note::Gsharp1 => 32,
            Note::A1 => 33,
            Note::Asharp1 => 34,
            Note::B1 => 35,
            Note::C2 => 36,
            Note::Csharp2 => 37,
            Note::D2 => 38,
            Note::Dsharp2 => 39,
            Note::E2 => 40,
            Note::F2 => 41,
            Note::Fsharp2 => 42,
            Note::G2 => 43,
            Note::Gsharp2 => 44,
            Note::A2 => 45,
            Note::Asharp2 => 46,
            Note::B2 => 47,
            Note::C3 => 48,
            Note::Csharp3 => 49,
            Note::D3 => 50,
            Note::Dsharp3 => 51,
            Note::E3 => 52,
            Note::F3 => 53,
            Note::Fsharp3 => 54,
            Note::G3 => 55,
            Note::Gsharp3 => 56,
            Note::A3 => 57,
            Note::Asharp3 => 58,
            Note::B3 => 59,
            Note::C4 => 60,
            Note::Csharp4 => 61,
            Note::D4 => 62,
            Note::Dsharp4 => 63,
            Note::E4 => 64,
            Note::F4 => 65,
            Note::Fsharp4 => 66,
            Note::G4 => 67,
            Note::Gsharp4 => 68,
            Note::A4 => 69,
            Note::Asharp4 => 70,
            Note::B4 => 71,
            Note::C5 => 72,
            Note::Csharp5 => 73,
            Note::D5 => 74,
            Note::Dsharp5 => 75,
            Note::E5 => 76,
            Note::F5 => 77,
            Note::Fsharp5 => 78,
            Note::G5 => 79,
            Note::Gsharp5 => 80,
            Note::A5 => 81,
            Note::Asharp5 => 82,
            Note::B5 => 83,
        }
    }

    /// How many semitones the note lies above concert pitch (below, where
    /// negative). In equal temperament the note sounds at 440 Hz times two to
    /// the power of a twelfth of this number.
    pub fn semitones_from_concert_pitch(&self) -> (semitones: i8)
        ensures
            semitones == self.spec_semitones_from_concert_pitch(),
    {
        self.note_number() as i8 - CONCERT_PITCH as i8
    }

    /// The pitch class of the note.
    pub fn pitch_class(&self) -> (class: PitchClass)
        ensures
            class == self.spec_pitch_class(),
            class.semitone() == self.spec_note_number() % 12,
    {
        match self.note_number() % SEMITONES {
            0 => PitchClass::C,
            1 => PitchClass::CSharp,
            2 => PitchClass::D,
            3 => PitchClass::DSharp,
            4 => PitchClass::E,
            5 => PitchClass::F,
            6 => PitchClass::FSharp,
            7 => PitchClass::G,
            8 => PitchClass::GSharp,
            9 => PitchClass::A,
            10 => PitchClass::ASharp,
            _ => PitchClass::B,
        }
    }

    /// The letter name of the note's pitch class.
    pub fn pitch_class_label(&self) -> (text: String)
        ensures
            text@ == self.spec_pitch_class().label(),
    {
        self.pitch_class().to_string()
    }

    /// The name of the note as text, such as `"C#4"`.
    pub fn to_string(&self) -> (text: String)
        ensures
            text@ == self.label(),
    {
        let octave: &'static str = match self.octave() {
            0 => "0",
            1 => "1",
            2 => "2",
            3 => "3",
            4 => "4",
            _ => "5",
        };
        proof {
            reveal_strlit("0");
            reveal_strlit("1");
            reveal_strlit("2");
            reveal_strlit("3");
            reveal_strlit("4");
            reveal_strlit("5");
        }
        let text = self.pitch_class().to_string().concat(octave);
        assert(text@ =~= self.label());
        text
    }
}

/// The character for a decimal digit.
pub open spec fn digit(value: int) -> char {
    if value == 0 {
        '0'
    } else if value == 1 {
        '1'
    } else if value == 2 {
        '2'
    } else if value == 3 {
        '3'
    } else if value == 4 {
        '4'
    } else if value == 5 {
        '5'
    } else if value == 6 {
        '6'
    } else if value == 7 {
        '7'
    } else if value == 8 {
        '8'
    } else {
        '9'
    }
}

/// Every note number lies between that of C0 and that of B5.
pub proof fn lemma_note_number_in_range(note: Note)
    ensures
        in_range(note.spec_note_number() as int),
{
}

/// No two notes share a note number.
pub proof fn lemma_note_number_injective(a: Note, b: Note)
    requires
        a.spec_note_number() == b.spec_note_number(),
    ensures
        a == b,
{
}

/// Every number in range is the note number of some note.
proof fn lemma_note_exists(number: int)
    requires
        in_range(number),
    ensures
        exists|note: Note| note.spec_note_number() == number,
{
    if number == 12 {
        assert(Note::C0.spec_note_number() == 12);
    } else if number == 13 {
        assert(Note::Csharp0.spec_note_number() == 13);
    } else if number == 14 {
        assert(Note::D0.spec_note_number() == 14);
    } else if number == 15 {
        assert(Note::Dsharp0.spec_note_number() == 15);
    } else if number == 16 {
        assert(Note::E0.spec_note_number() == 16);
    } else if number == 17 {
        assert(Note::F0.spec_note_number() == 17);
    } else if number == 18 {
        assert(Note::Fsharp0.spec_note_number() == 18);
    } else if number == 19 {
        assert(Note::G0.spec_note_number() == 19);
    } else if number == 20 {
        assert(Note::Gsharp0.spec_note_number() == 20);
    } else if number == 21 {
        assert(Note::A0.spec_note_number() == 21);
    } else if number == 22 {
        assert(Note::Asharp0.spec_note_number() == 22);
    } else if number == 23 {
        assert(Note::B0.spec_note_number() == 23);
    } else if number == 24 {
        assert(Note::C1.spec_note_number() == 24);
    } else if number == 25 {
        assert(Note::Csharp1.spec_note_number() == 25);
    } else if number == 26 {
        assert(Note::D1.spec_note_number() == 26);
    } else if number == 27 {
        assert(Note::Dsharp1.spec_note_number() == 27);
    } else if number == 28 {
        assert(Note::E1.spec_note_number() == 28);
    } else if number == 29 {
        assert(Note::F1.spec_note_number() == 29);
    } else if number == 30 {
        assert(Note::Fsharp1.spec_note_number() == 30);
    } else if number == 31 {
        assert(Note::G1.spec_note_number() == 31);
    } else if number == 32 {
        assert(Note::Gsharp1.spec_note_number() == 32);
    } else if number == 33 {
        assert(Note::A1.spec_note_number() == 33);
    } else if number == 34 {
        assert(Note::Asharp1.spec_note_number() == 34);
    } else if number == 35 {
        assert(Note::B1.spec_note_number() == 35);
    } else if number == 36 {
        assert(Note::C2.spec_note_number() == 36);
    } else if number == 37 {
        assert(Note::Csharp2.spec_note_number() == 37);
    } else if number == 38 {
        assert(Note::D2.spec_note_number() == 38);
    } else if number == 39 {
        assert(Note::Dsharp2.spec_note_number() == 39);
    } else if number == 40 {
        assert(Note::E2.spec_note_number() == 40);
    } else if number == 41 {
        assert(Note::F2.spec_note_number() == 41);
    } else if number == 42 {
        assert(Note::Fsharp2.spec_note_number() == 42);
    } else if number == 43 {
        assert(Note::G2.spec_note_number() == 43);
    } else if number == 44 {
        assert(Note::Gsharp2.spec_note_number() == 44);
    } else if number == 45 {
        assert(Note::A2.spec_note_number() == 45);
    } else if number == 46 {
        assert(Note::Asharp2.spec_note_number() == 46);
    } else if number == 47 {
        assert(Note::B2.spec_note_number() == 47);
    } else if number == 48 {
        assert(Note::C3.spec_note_number() == 48);
    } else if number == 49 {
        assert(Note::Csharp3.spec_note_number() == 49);
    } else if number == 50 {
        assert(Note::D3.spec_note_number() == 50);
    } else if number == 51 {
        assert(Note::Dsharp3.spec_note_number() == 51);
    } else if number == 52 {
        assert(Note::E3.spec_note_number() == 52);
    } else if number == 53 {
        assert(Note::F3.spec_note_number() == 53);
    } else if number == 54 {
        assert(Note::Fsharp3.spec_note_number() == 54);
    } else if number == 55 {
        assert(Note::G3.spec_note_number() == 55);
    } else if number == 56 {
        assert(Note::Gsharp3.spec_note_number() == 56);
    } else if number == 57 {
        assert(Note::A3.spec_note_number() == 57);
    } else if number == 58 {
        assert(Note::Asharp3.spec_note_number() == 58);
    } else if number == 59 {
        assert(Note::B3.spec_note_number() == 59);
    } else if number == 60 {
        assert(Note::C4.spec_note_number() == 60);
    } else if number == 61 {
        assert(Note::Csharp4.spec_note_number() == 61);
    } else if number == 62 {
        assert(Note::D4.spec_note_number() == 62);
    } else if number == 63 {
        assert(Note::Dsharp4.spec_note_number() == 63);
    } else if number == 64 {
        assert(Note::E4.spec_note_number() == 64);
    } else if number == 65 {
        assert(Note::F4.spec_note_number() == 65);
    } else if number == 66 {
        assert(Note::Fsharp4.spec_note_number() == 66);
    } else if number == 67 {
        assert(Note::G4.spec_note_number() == 67);
    } else if number == 68 {
        assert(Note::Gsharp4.spec_note_number() == 68);
    } else if number == 69 {
        assert(Note::A4.spec_note_number() == 69);
    } else if number == 70 {
        assert(Note::Asharp4.spec_note_number() == 70);
    } else if number == 71 {
        assert(Note::B4.spec_note_number() == 71);
    } else if number == 72 {
        assert(Note::C5.spec_note_number() == 72);
    } else if number == 73 {
        assert(Note::Csharp5.spec_note_number() == 73);
    } else if number == 74 {
        assert(Note::D5.spec_note_number() == 74);
    } else if number == 75 {
        assert(Note::Dsharp5.spec_note_number() == 75);
    } else if number == 76 {
        assert(Note::E5.spec_note_number() == 76);
    } else if number == 77 {
        assert(Note::F5.spec_note_number() == 77);
    } else if number == 78 {
        assert(Note::Fsharp5.spec_note_number() == 78);
    } else if number == 79 {
        assert(Note::G5.spec_note_number() == 79);
    } else if number == 80 {
        assert(Note::Gsharp5.spec_note_number() == 80);
    } else if number == 81 {
        assert(Note::A5.spec_note_number() == 81);
    } else if number == 82 {
        assert(Note::Asharp5.spec_note_number() == 82);
    } else if number == 83 {
        assert(Note::B5.spec_note_number() == 83);
    }
}

/// A number in range gives the note that has that number; any other number
/// gives no note.
pub proof fn lemma_from_note_number(number: int)
    ensures
        in_range(number) ==> (Note::spec_from_note_number(number) matches Some(note)
            && note.spec_note_number() == number),
        !in_range(number) ==> Note::spec_from_note_number(number) is None,
{
    if in_range(number) {
        lemma_note_exists(number);
    }
}

/// Going from a note to its number and back gives the same note.
pub proof fn lemma_note_number_round_trip(note: Note)
    ensures
        Note::spec_from_note_number(note.spec_note_number() as int) == Some(note),
{
    let number = note.spec_note_number() as int;
    lemma_from_note_number(number);
    lemma_note_number_injective(Note::spec_from_note_number(number)->0, note);
}

/// Transposing lands on the note whose number is the sum, and on no note
/// where the sum leaves the range.
pub proof fn lemma_transpose(note: Note, semitones: int)
    ensures
        note.spec_transpose(semitones) is Some <==> in_range(note.spec_note_number() + semitones),
        note.spec_transpose(semitones) matches Some(n) ==> n.spec_note_number()
            == note.spec_note_number() + semitones,
{
    lemma_from_note_number(note.spec_note_number() + semitones);
}

/// Concert pitch lies no semitone from itself, and a note one octave up
/// lies twelve semitones further above concert pitch: in equal temperament
/// its frequency has one more factor of two.
pub proof fn lemma_octave_up_adds_twelve_semitones(note: Note)
    ensures
        Note::A4.spec_semitones_from_concert_pitch() == 0,
        note.spec_octave_up() matches Some(up) ==> up.spec_semitones_from_concert_pitch()
            == note.spec_semitones_from_concert_pitch() + 12,
{
    lemma_transpose(note, 12);
}

} // verus!
