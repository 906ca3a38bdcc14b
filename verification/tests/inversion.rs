use toysynth::theory::{Chord, ChordLike, Interval, Inversion, Note};

#[test]
fn inversion_test_notes() {
    assert_eq!(
        Inversion(Chord::Major(Note::C3)).notes(),
        vec![Note::E3, Note::G3, Note::C4]
    );
    assert_eq!(
        Inversion(Inversion(Chord::Major(Note::C3))).notes(),
        vec![Note::G3, Note::C4, Note::E4]
    );
    assert_eq!(
        Inversion(Inversion(Inversion(Chord::Major(Note::C3)))).notes(),
        vec![Note::C4, Note::E4, Note::G4]
    );

    assert_eq!(
        Inversion(Chord::Major7th(Note::C3)).notes(),
        vec![Note::E3, Note::G3, Note::B3, Note::C4]
    );
    assert_eq!(
        Inversion(Inversion(Chord::Major7th(Note::C3))).notes(),
        vec![Note::G3, Note::B3, Note::C4, Note::E4]
    );
    assert_eq!(
        Inversion(Inversion(Inversion(Chord::Major7th(Note::C3)))).notes(),
        vec![Note::B3, Note::C4, Note::E4, Note::G4]
    );
    assert_eq!(
        Inversion(Inversion(Inversion(Inversion(Chord::Major7th(Note::C3))))).notes(),
        vec![Note::C4, Note::E4, Note::G4, Note::B4]
    );

    assert_eq!(
        Inversion(Chord::Major9th(Note::C3)).notes(),
        vec![Note::E3, Note::G3, Note::B3, Note::D4, Note::C4]
    );
    assert_eq!(
        Inversion(Inversion(Chord::Major9th(Note::C3))).notes(),
        vec![Note::G3, Note::B3, Note::D4, Note::C4, Note::E4]
    );
    assert_eq!(
        Inversion(Inversion(Inversion(Chord::Major9th(Note::C3)))).notes(),
        vec![Note::B3, Note::D4, Note::C4, Note::E4, Note::G4]
    );
    assert_eq!(
        Inversion(Inversion(Inversion(Inversion(Chord::Major9th(Note::C3))))).notes(),
        vec![Note::D4, Note::C4, Note::E4, Note::G4, Note::B4]
    );
    assert_eq!(
        Inversion(Inversion(Inversion(Inversion(Inversion(Chord::Major9th(
            Note::C3
        ))))))
        .notes(),
        vec![Note::C4, Note::E4, Note::G4, Note::B4, Note::D5]
    );
}

#[test]
fn three_inversions_raise_a_triad_by_an_octave() {
    let chord = Chord::Major(Note::C3);
    let raised: Vec<Note> = chord
        .notes()
        .iter()
        .map(|note| note.transpose(12).unwrap())
        .collect();
    assert_eq!(
        Inversion(Inversion(Inversion(chord))).notes(),
        raised
    );
    assert_eq!(raised, vec![Note::C4, Note::E4, Note::G4]);
}

#[test]
fn inversion_keeps_root_and_intervals() {
    let inversion = Inversion(Chord::Minor7th(Note::D3));
    assert_eq!(inversion.root_note(), Note::D3);
    assert_eq!(
        inversion.intervals(),
        vec![Interval::P1, Interval::Min3, Interval::P5, Interval::Min7]
    );
}

#[test]
fn inversion_leaves_notes_that_cannot_rise() {
    // C5 has no octave above it in the range: the notes stay as they are.
    assert_eq!(
        Inversion(Chord::Major(Note::C5)).notes(),
        vec![Note::C5, Note::E5, Note::G5]
    );
    // B4 can still rise.
    assert_eq!(
        Inversion(Chord::Major(Note::B4)).notes(),
        vec![Note::Dsharp5, Note::Fsharp5, Note::B5]
    );
    // After that the lowest note is D#5, which cannot.
    assert_eq!(
        Inversion(Inversion(Chord::Major(Note::B4))).notes(),
        vec![Note::Dsharp5, Note::Fsharp5, Note::B5]
    );
}
