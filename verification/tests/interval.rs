use toysynth::theory::{Interval, Quality};

const ALL: [Interval; 29] = [
    Interval::P1,
    Interval::A1,
    Interval::D2,
    Interval::Min2,
    Interval::Maj2,
    Interval::A2,
    Interval::D3,
    Interval::Min3,
    Interval::Maj3,
    Interval::A3,
    Interval::D4,
    Interval::P4,
    Interval::A4,
    Interval::D5,
    Interval::P5,
    Interval::A5,
    Interval::D6,
    Interval::Min6,
    Interval::Maj6,
    Interval::A6,
    Interval::D7,
    Interval::Min7,
    Interval::Maj7,
    Interval::A7,
    Interval::D8,
    Interval::P8,
    Interval::A8,
    Interval::Min9,
    Interval::Maj9,
];

#[test]
fn interval_test_display() {
    assert_eq!(Interval::P1.to_string(), "P1");
    assert_eq!(Interval::Min2.to_string(), "m2");
    assert_eq!(Interval::Maj3.to_string(), "M3");
    assert_eq!(Interval::A4.to_string(), "A4");
    assert_eq!(Interval::D5.to_string(), "d5");
}

#[test]
fn test_interval_display() {
    assert_eq!(Interval::P1.to_string(), "P1");
    assert_eq!(Interval::Min2.to_string(), "m2");
    assert_eq!(Interval::Maj3.to_string(), "M3");
    assert_eq!(Interval::A4.to_string(), "A4");
    assert_eq!(Interval::D5.to_string(), "d5");
}

#[test]
fn interval_table_of_semitones() {
    let semitones = [
        0, 1, 0, 1, 2, 3, 2, 3, 4, 5, 4, 5, 6, 6, 7, 8, 7, 8, 9, 10, 9, 10, 11, 12, 11, 12, 13, 13,
        14,
    ];
    let degrees = [
        1, 1, 2, 2, 2, 2, 3, 3, 3, 3, 4, 4, 4, 5, 5, 5, 6, 6, 6, 6, 7, 7, 7, 7, 8, 8, 8, 9, 9,
    ];
    for (i, interval) in ALL.iter().enumerate() {
        assert_eq!(interval.semitones(), semitones[i]);
        assert_eq!(interval.degree(), degrees[i]);
    }
}

#[test]
fn interval_semitones_follow_from_quality_and_degree() {
    let major_scale = [0i16, 2, 4, 5, 7, 9, 11, 12, 14];
    for interval in ALL.iter() {
        let degree = interval.degree();
        let perfect = matches!(degree, 1 | 4 | 5 | 8);
        let alteration = match interval.quality() {
            Quality::P | Quality::Maj => 0,
            Quality::Min => -1,
            Quality::A => 1,
            Quality::D => {
                if perfect {
                    -1
                } else {
                    -2
                }
            }
        };
        assert_eq!(
            interval.semitones() as i16,
            major_scale[degree as usize - 1] + alteration
        );
    }
}

#[test]
fn interval_qualities_and_their_letters() {
    assert_eq!(Interval::P5.quality(), Quality::P);
    assert_eq!(Interval::A5.quality(), Quality::A);
    assert_eq!(Interval::D5.quality(), Quality::D);
    assert_eq!(Interval::Min7.quality(), Quality::Min);
    assert_eq!(Interval::Maj7.quality(), Quality::Maj);
    assert_eq!(Quality::P.to_string(), "P");
    assert_eq!(Quality::A.to_string(), "A");
    assert_eq!(Quality::D.to_string(), "d");
    assert_eq!(Quality::Min.to_string(), "m");
    assert_eq!(Quality::Maj.to_string(), "M");
    assert_eq!(Interval::Maj9.to_string(), "M9");
    assert_eq!(Interval::A8.to_string(), "A8");
}
