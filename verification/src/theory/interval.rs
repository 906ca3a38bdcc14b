use vstd::prelude::*;
use vstd::string::StringExecFns;
use super::note::digit;
use super::quality::Quality;

verus! {

/// A named distance between two pitches, from the unison up to the ninth.
///
/// The name gives the quality and the degree: `Maj3` is the major third.
#[derive(Debug, Clone, Copy, PartialEq, Eq, Structural)]
pub enum Interval {
    P1,
    A1,
    D2,
    Min2,
    Maj2,
    A2,
    D3,
    Min3,
    Maj3,
    A3,
    D4,
    P4,
    A4,
    D5,
    P5,
    A5,
    D6,
    Min6,
    Maj6,
    A6,
    D7,
    Min7,
    Maj7,
    A7,
    D8,
    P8,
    A8,
    Min9,
    Maj9,
}

/// How many semitones lie between the first note of a major scale and its
/// note of the given degree: the size of the perfect or major interval of
/// that degree.
pub open spec fn major_scale_semitones(degree: int) -> int {
    if degree == 1 {
        0
    } else if degree == 2 {
        2
    } else if degree == 3 {
        4
    } else if degree == 4 {
        5
    } else if degree == 5 {
        7
    } else if degree == 6 {
        9
    } else if degree == 7 {
        11
    } else if degree == 8 {
        12
    } else {
        14
    }
}

/// Whether the degree has a perfect interval (unison, fourth, fifth, octave)
/// and not a major and a minor one.
pub open spec fn is_perfect_degree(degree: int) -> bool {
    degree == 1 || degree == 4 || degree == 5 || degree == 8
}

/// By how many semitones an interval of the given quality and degree differs
/// from the perfect or major interval of that degree.
pub open spec fn alteration(quality: Quality, degree: int) -> int {
    match quality {
        Quality::P => 0,
        Quality::Maj => 0,
        Quality::Min => -1,
        Quality::A => 1,
        Quality::D => if is_perfect_degree(degree) {
            -1
        } else {
            -2
        },
    }
}

impl Interval {
    /// The quality that the interval's name gives.
    pub open spec fn spec_quality(&self) -> Quality {
        match self {
            Interval::P1 => Quality::P,
            Interval::A1 => Quality::A,
            Interval::D2 => Quality::D,
            Interval::Min2 => Quality::Min,
            Interval::Maj2 => Quality::Maj,
            Interval::A2 => Quality::A,
            Interval::D3 => Quality::D,
            Interval::Min3 => Quality::Min,
            Interval::Maj3 => Quality::Maj,
            Interval::A3 => Quality::A,
            Interval::D4 => Quality::D,
            Interval::P4 => Quality::P,
            Interval::A4 => Quality::A,
            Interval::D5 => Quality::D,
            Interval::P5 => Quality::P,
            Interval::A5 => Quality::A,
            Interval::D6 => Quality::D,
            Interval::Min6 => Quality::Min,
            Interval::Maj6 => Quality::Maj,
            Interval::A6 => Quality::A,
            Interval::D7 => Quality::D,
            Interval::Min7 => Quality::Min,
            Interval::Maj7 => Quality::Maj,
            Interval::A7 => Quality::A,
            Interval::D8 => Quality::D,
            Interval::P8 => Quality::P,
            Interval::A8 => Quality::A,
            Interval::Min9 => Quality::Min,
            Interval::Maj9 => Quality::Maj,
        }
    }

    /// The degree that the interval's name gives: 1 for a unison, 9 for a ninth.
    pub open spec fn spec_degree(&self) -> u8 {
        match self {
            Interval::P1 => 1,
            Interval::A1 => 1,
            Interval::D2 => 2,
            Interval::Min2 => 2,
            Interval::Maj2 => 2,
            Interval::A2 => 2,
            Interval::D3 => 3,
            Interval::Min3 => 3,
            Interval::Maj3 => 3,
            Interval::A3 => 3,
            Interval::D4 => 4,
            Interval::P4 => 4,
            Interval::A4 => 4,
            Interval::D5 => 5,
            Interval::P5 => 5,
            Interval::A5 => 5,
            Interval::D6 => 6,
            Interval::Min6 => 6,
            Interval::Maj6 => 6,
            Interval::A6 => 6,
            Interval::D7 => 7,
            Interval::Min7 => 7,
            Interval::Maj7 => 7,
            Interval::A7 => 7,
            Interval::D8 => 8,
            Interval::P8 => 8,
            Interval::A8 => 8,
            Interval::Min9 => 9,
            Interval::Maj9 => 9,
        }
    }

    /// The size of the interval in semitones: that of the perfect or major
    /// interval of its degree, altered as its quality says.
    pub open spec fn spec_semitones(&self) -> int {
        major_scale_semitones(self.spec_degree() as int) + alteration(
            self.spec_quality(),
            self.spec_degree() as int,
        )
    }

    /// The short name of the interval: quality, then degree.
    pub open spec fn label(&self) -> Seq<char> {
        self.spec_quality().label().push(digit(self.spec_degree() as int))
    }

    /// The quality of the interval.
    pub fn quality(&self) -> (quality: Quality)
        ensures
            quality == self.spec_quality(),
    {
        match self {
            Interval::P1 => Quality::P,
            Interval::A1 => Quality::A,
            Interval::D2 => Quality::D,
            Interval::Min2 => Quality::Min,
            Interval::Maj2 => Quality::Maj,
            Interval::A2 => Quality::A,
            Interval::D3 => Quality::D,
            Interval::Min3 => Quality::Min,
            Interval::Maj3 => Quality::Maj,
            Interval::A3 => Quality::A,
            Interval::D4 => Quality::D,
            Interval::P4 => Quality::P,
            Interval::A4 => Quality::A,
            Interval::D5 => Quality::D,
            Interval::P5 => Quality::P,
            Interval::A5 => Quality::A,
            Interval::D6 => Quality::D,
            Interval::Min6 => Quality::Min,
            Interval::Maj6 => Quality::Maj,
            Interval::A6 => Quality::A,
            Interval::D7 => Quality::D,
            Interval::Min7 => Quality::Min,
            Interval::Maj7 => Quality::Maj,
            Interval::A7 => Quality::A,
            Interval::D8 => Quality::D,
            Interval::P8 => Quality::P,
            Interval::A8 => Quality::A,
            Interval::Min9 => Quality::Min,
            Interval::Maj9 => Quality::Maj,
        }
    }

    /// The degree of the interval.
    pub fn degree(&self) -> (degree: u8)
        ensures
            degree == self.spec_degree(),
            1 <= degree <= 9,
    {
        match self {
            Interval::P1 => 1,
            Interval::A1 => 1,
            Interval::D2 => 2,
            Interval::Min2 => 2,
            Interval::Maj2 => 2,
            Interval::A2 => 2,
            Interval::D3 => 3,
            Interval::Min3 => 3,
            Interval::Maj3 => 3,
            Interval::A3 => 3,
            Interval::D4 => 4,
            Interval::P4 => 4,
            Interval::A4 => 4,
            Interval::D5 => 5,
            Interval::P5 => 5,
            Interval::A5 => 5,
            Interval::D6 => 6,
            Interval::Min6 => 6,
            Interval::Maj6 => 6,
            Interval::A6 => 6,
            Interval::D7 => 7,
            Interval::Min7 => 7,
            Interval::Maj7 => 7,
            Interval::A7 => 7,
            Interval::D8 => 8,
            Interval::P8 => 8,
            Interval::A8 => 8,
            Interval::Min9 => 9,
            Interval::Maj9 => 9,
        }
    }

    /// The size of the interval in semitones.
    pub fn semitones(&self) -> (semitones: u8)
        ensures
            semitones == self.spec_semitones(),
            semitones <= 14,
    {
        match self {
            Interval::P1 => 0,
            Interval::A1 => 1,
            Interval::D2 => 0,
            Interval::Min2 => 1,
            Interval::Maj2 => 2,
            Interval::A2 => 3,
            Interval::D3 => 2,
            Interval::Min3 => 3,
            Interval::Maj3 => 4,
            Interval::A3 => 5,
            Interval::D4 => 4,
            Interval::P4 => 5,
            Interval::A4 => 6,
            Interval::D5 => 6,
            Interval::P5 => 7,
            Interval::A5 => 8,
            Interval::D6 => 7,
            Interval::Min6 => 8,
            Interval::Maj6 => 9,
            Interval::A6 => 10,
            Interval::D7 => 9,
            Interval::Min7 => 10,
            Interval::Maj7 => 11,
            Interval::A7 => 12,
            Interval::D8 => 11,
            Interval::P8 => 12,
            Interval::A8 => 13,
            Interval::Min9 => 13,
            Interval::Maj9 => 14,
        }
    }

    /// The short name of the interval as text, such as `"M3"` or `"d5"`.
    pub fn to_string(&self) -> (text: String)
        ensures
            text@ == self.label(),
    {
        let degree: &'static str = match self.degree() {
            1 => "1",
            2 => "2",
            3 => "3",
            4 => "4",
            5 => "5",
            6 => "6",
            7 => "7",
            8 => "8",
            _ => "9",
        };
        proof {
            reveal_strlit("1");
            reveal_strlit("2");
            reveal_strlit("3");
            reveal_strlit("4");
            reveal_strlit("5");
            reveal_strlit("6");
            reveal_strlit("7");
            reveal_strlit("8");
            reveal_strlit("9");
        }
        let text = self.quality().to_string().concat(degree);
        assert(text@ =~= self.label());
        text
    }
}

/// An interval is known by its quality and its degree.
pub proof fn lemma_quality_and_degree_name_the_interval(a: Interval, b: Interval)
    requires
        a.spec_quality() == b.spec_quality(),
        a.spec_degree() == b.spec_degree(),
    ensures
        a == b,
{
}

/// Only a degree that has a perfect interval carries the quality perfect,
/// and only the other degrees carry major and minor.
pub proof fn lemma_quality_fits_degree(interval: Interval)
    ensures
        interval.spec_quality() == Quality::P ==> is_perfect_degree(interval.spec_degree() as int),
        interval.spec_quality() == Quality::Maj || interval.spec_quality() == Quality::Min
            ==> !is_perfect_degree(interval.spec_degree() as int),
{
}

} // verus!
