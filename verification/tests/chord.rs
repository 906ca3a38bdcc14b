use toysynth::theory::{Chord, ChordLike, Interval, Note};

#[test]
fn chord_test_display() {
    assert_eq!(Chord::Major(Note::C3).to_string(), "C");
    assert_eq!(Chord::Minor(Note::C3).to_string(), "Cm");
    assert_eq!(Chord::Major7th(Note::C3).to_string(), "CM7");
    assert_eq!(Chord::Minor7th(Note::C3).to_string(), "Cm7");
    assert_eq!(Chord::Major9th(Note::C3).to_string(), "CM9");
    assert_eq!(Chord::Minor9th(Note::C3).to_string(), "Cm9");
}

#[test]
fn test_chord_display() {
    assert_eq!(Chord::Major(Note::C3).to_string(), "C");
    assert_eq!(Chord::Minor(Note::C3).to_string(), "Cm");
    assert_eq!(Chord::Major7th(Note::C3).to_string(), "CM7");
    assert_eq!(Chord::Minor7th(Note::C3).to_string(), "Cm7");
    assert_eq!(Chord::Major9th(Note::C3).to_string(), "CM9");
    assert_eq!(Chord::Minor9th(Note::C3).to_string(), "Cm9");
}

#[test]
fn chord_test_notes() {
    assert_eq!(
        Chord::Major(Note::C3).notes(),
        vec![Note::C3, Note::E3, Note::G3]
    );
    assert_eq!(
        Chord::Minor(Note::C3).notes(),
        vec![Note::C3, Note::Dsharp3, Note::G3]
    );
    assert_eq!(
        Chord::Major7th(Note::C3).notes(),
        vec![Note::C3, Note::E3, Note::G3, Note::B3]
    );
    assert_eq!(
        Chord::Minor7th(Note::C3).notes(),
        vec![Note::C3, Note::Dsharp3, Note::G3, Note::Asharp3]
    );
    assert_eq!(
        Chord::Major9th(Note::C3).notes(),
        vec![Note::C3, Note::E3, Note::G3, Note::B3, Note::D4]
    );
    assert_eq!(
        Chord::Minor9th(Note::C3).notes(),
        vec![Note::C3, Note::Dsharp3, Note::G3, Note::Asharp3, Note::D4]
    );
}

#[test]
fn test_chord_notes() {
    assert_eq!(
        Chord::Major(Note::C3).notes(),
        vec![Note::C3, Note::E3, Note::G3]
    );
    assert_eq!(
        Chord::Minor(Note::C3).notes(),
        vec![Note::C3, Note::Dsharp3, Note::G3]
    );
    assert_eq!(
        Chord::Major7th(Note::C3).notes(),
        vec![Note::C3, Note::E3, Note::G3, Note::B3]
    );
    assert_eq!(
        Chord::Minor7th(Note::C3).notes(),
        vec![Note::C3, Note::Dsharp3, Note::G3, Note::Asharp3]
    );
    assert_eq!(
        Chord::Major9th(Note::C3).notes(),
        vec![Note::C3, Note::E3, Note::G3, Note::B3, Note::D4]
    );
    assert_eq!(
        Chord::Minor9th(Note::C3).notes(),
        vec![Note::C3, Note::Dsharp3, Note::G3, Note::Asharp3, Note::D4]
    );
}

#[test]
fn major_ninth_on_c3_has_five_notes() {
    let notes = Chord::Major9th(Note::C3).notes();
    assert_eq!(notes.len(), 5);
    assert_eq!(
        notes,
        vec![Note::C3, Note::E3, Note::G3, Note::B3, Note::D4]
    );
}

#[test]
fn chord_intervals_and_root() {
    assert_eq!(
        Chord::Major(Note::D2).intervals(),
        vec![Interval::P1, Interval::Maj3, Interval::P5]
    );
    assert_eq!(
        Chord::Minor(Note::D2).intervals(),
        vec![Interval::P1, Interval::Min3, Interval::P5]
    );
    assert_eq!(
        Chord::Major7th(Note::D2).intervals(),
        vec![Interval::P1, Interval::Maj3, Interval::P5, Interval::Maj7]
    );
    assert_eq!(
        Chord::Minor7th(Note::D2).intervals(),
        vec![Interval::P1, Interval::Min3, Interval::P5, Interval::Min7]
    );
    assert_eq!(
        Chord::Major9th(Note::D2).intervals(),
        vec![
            Interval::P1,
            Interval::Maj3,
            Interval::P5,
            Interval::Maj7,
            Interval::Maj9
        ]
    );
    assert_eq!(
        Chord::Minor9th(Note::D2).intervals(),
        vec![
            Interval::P1,
            Interval::Min3,
            Interval::P5,
            Interval::Min7,
            Interval::Maj9
        ]
    );
    assert_eq!(Chord::Minor7th(Note::Fsharp4).root_note(), Note::Fsharp4);
    assert_eq!(Chord::Minor7th(Note::Fsharp4).to_string(), "F#m7");
}

#[test]
fn notes_above_the_range_are_left_out() {
    assert_eq!(
        Chord::Major9th(Note::C5).notes(),
        vec![Note::C5, Note::E5, Note::G5, Note::B5]
    );
    assert_eq!(Chord::Major(Note::A5).notes(), vec![Note::A5]);
    assert_eq!(Chord::Minor9th(Note::B5).notes(), vec![Note::B5]);
    assert_eq!(
        Chord::Major9th(Note::A4).notes(),
        vec![Note::A4, Note::Csharp5, Note::E5, Note::Gsharp5, Note::B5]
    );
}
