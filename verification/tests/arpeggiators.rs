use toysynth::arpeggiators::UpDownArpeggiator;
use toysynth::theory::{Chord, ChordLike, Note};

#[test]
fn test_next_empty_none() {
    let mut arp = UpDownArpeggiator::new(vec![], None);
    assert_eq!(arp.next(), None);
    assert_eq!(arp.next(), None);
}

#[test]
fn test_next_empty_some_0() {
    let mut arp = UpDownArpeggiator::new(vec![], Some(0));
    assert_eq!(arp.next(), None);
    assert_eq!(arp.next(), None);
}

#[test]
fn test_next_empty_some_1() {
    let mut arp = UpDownArpeggiator::new(vec![], Some(1));
    assert_eq!(arp.next(), None);
    assert_eq!(arp.next(), None);
}

#[test]
fn test_next_single_none() {
    let mut arp = UpDownArpeggiator::new(vec![Note::C3], None);
    assert_eq!(arp.next(), Some(Note::C3));
    assert_eq!(arp.next(), Some(Note::C3));
}

#[test]
fn test_next_single_some_1() {
    let mut arp = UpDownArpeggiator::new(vec![Note::C3], Some(1));
    assert_eq!(arp.next(), Some(Note::C3));
    assert_eq!(arp.next(), Some(Note::C3));
}

#[test]
fn test_next_single_some_2() {
    let mut arp = UpDownArpeggiator::new(vec![Note::C3], Some(2));
    assert_eq!(arp.next(), Some(Note::C3));
    assert_eq!(arp.next(), Some(Note::C3));
}

#[test]
fn test_next_double_none() {
    let mut arp = UpDownArpeggiator::new(vec![Note::C3, Note::G3], None);
    assert_eq!(arp.next(), Some(Note::C3));
    assert_eq!(arp.next(), Some(Note::G3));
    assert_eq!(arp.next(), Some(Note::C3));
    assert_eq!(arp.next(), Some(Note::G3));
}

#[test]
fn test_next_double_some_1() {
    let mut arp = UpDownArpeggiator::new(vec![Note::C3, Note::G3], Some(1));
    assert_eq!(arp.next(), Some(Note::C3));
    assert_eq!(arp.next(), Some(Note::C3));
}

#[test]
fn test_next_double_some_2() {
    let mut arp = UpDownArpeggiator::new(vec![Note::C3, Note::G3], Some(2));
    assert_eq!(arp.next(), Some(Note::C3));
    assert_eq!(arp.next(), Some(Note::G3));
    assert_eq!(arp.next(), Some(Note::C3));
    assert_eq!(arp.next(), Some(Note::G3));
}

#[test]
fn test_next_some_0() {
    let mut arp = UpDownArpeggiator::new(Chord::Major(Note::C3).notes(), Some(0));
    assert_eq!(arp.next(), None);
    assert_eq!(arp.next(), None);
}

#[test]
fn test_next_some_1() {
    let mut arp = UpDownArpeggiator::new(Chord::Major(Note::C3).notes(), Some(1));
    assert_eq!(arp.next(), Some(Note::C3));
    assert_eq!(arp.next(), Some(Note::C3));
}

#[test]
fn test_next_7th_some_8() {
    let mut arp = UpDownArpeggiator::new(Chord::Major7th(Note::C3).notes(), Some(8));
    assert_eq!(arp.next(), Some(Note::C3));
    assert_eq!(arp.next(), Some(Note::E3));
    assert_eq!(arp.next(), Some(Note::G3));
    assert_eq!(arp.next(), Some(Note::B3));
    assert_eq!(arp.next(), Some(Note::G3));
    assert_eq!(arp.next(), Some(Note::E3));
    assert_eq!(arp.next(), Some(Note::C3));
    assert_eq!(arp.next(), Some(Note::E3));
    // reset here
    assert_eq!(arp.next(), Some(Note::C3));
    assert_eq!(arp.next(), Some(Note::E3));
    assert_eq!(arp.next(), Some(Note::G3));
}

#[test]
fn test_next_9th_some_8() {
    let mut arp = UpDownArpeggiator::new(Chord::Major9th(Note::C3).notes(), Some(8));
    assert_eq!(arp.next(), Some(Note::C3));
    assert_eq!(arp.next(), Some(Note::E3));
    assert_eq!(arp.next(), Some(Note::G3));
    assert_eq!(arp.next(), Some(Note::B3));
    assert_eq!(arp.next(), Some(Note::D4));
    assert_eq!(arp.next(), Some(Note::B3));
    assert_eq!(arp.next(), Some(Note::G3));
    assert_eq!(arp.next(), Some(Note::E3));
    // reset here
    assert_eq!(arp.next(), Some(Note::C3));
    assert_eq!(arp.next(), Some(Note::E3));
}

#[test]
fn test_next_7th_none() {
    let mut arp = UpDownArpeggiator::new(Chord::Major7th(Note::C3).notes(), None);
    assert_eq!(arp.next(), Some(Note::C3));
    assert_eq!(arp.next(), Some(Note::E3));
    assert_eq!(arp.next(), Some(Note::G3));
    assert_eq!(arp.next(), Some(Note::B3));
    assert_eq!(arp.next(), Some(Note::G3));
    assert_eq!(arp.next(), Some(Note::E3));
    assert_eq!(arp.next(), Some(Note::C3));
    assert_eq!(arp.next(), Some(Note::E3));
    assert_eq!(arp.next(), Some(Note::G3));
}

#[test]
fn test_next_9th_none() {
    let mut arp = UpDownArpeggiator::new(Chord::Major9th(Note::C3).notes(), None);
    assert_eq!(arp.next(), Some(Note::C3));
    assert_eq!(arp.next(), Some(Note::E3));
    assert_eq!(arp.next(), Some(Note::G3));
    assert_eq!(arp.next(), Some(Note::B3));
    assert_eq!(arp.next(), Some(Note::D4));
    assert_eq!(arp.next(), Some(Note::B3));
    assert_eq!(arp.next(), Some(Note::G3));
    assert_eq!(arp.next(), Some(Note::E3));
    assert_eq!(arp.next(), Some(Note::C3));
    assert_eq!(arp.next(), Some(Note::E3));
}

#[test]
fn step_count_cuts_the_cycle_short() {
    let mut arp = UpDownArpeggiator::new(Chord::Major9th(Note::C3).notes(), Some(3));
    let played: Vec<Note> = (0..7).map(|_| arp.next().unwrap()).collect();
    assert_eq!(
        played,
        vec![
            Note::C3,
            Note::E3,
            Note::G3,
            Note::C3,
            Note::E3,
            Note::G3,
            Note::C3
        ]
    );
}

#[test]
fn step_count_beyond_the_cycle_goes_round_it() {
    // Three notes make a cycle of four; ten steps go round it twice and a half.
    let mut arp = UpDownArpeggiator::new(Chord::Major(Note::C3).notes(), Some(10));
    let played: Vec<Note> = (0..12).map(|_| arp.next().unwrap()).collect();
    assert_eq!(
        played,
        vec![
            Note::C3,
            Note::E3,
            Note::G3,
            Note::E3,
            Note::C3,
            Note::E3,
            Note::G3,
            Note::E3,
            Note::C3,
            Note::E3,
            Note::C3,
            Note::E3
        ]
    );
}

#[test]
fn step_count_arpeggiator_resets_and_knows_when_it_is_empty() {
    let mut arp = UpDownArpeggiator::new(Chord::Major7th(Note::C3).notes(), Some(8));
    assert!(arp.has_next());
    arp.next();
    arp.next();
    arp.reset();
    assert_eq!(arp.next(), Some(Note::C3));
    assert!(!UpDownArpeggiator::new(vec![], None).has_next());
    assert!(!UpDownArpeggiator::new(vec![], Some(4)).has_next());
    assert!(!UpDownArpeggiator::new(vec![Note::C3, Note::D3], Some(0)).has_next());
    assert!(UpDownArpeggiator::new(vec![Note::C3], Some(0)).has_next());
}
