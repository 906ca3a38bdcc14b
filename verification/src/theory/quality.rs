use vstd::prelude::*;
use vstd::string::StringExecFns;

verus! {

/// The quality of an interval: perfect, augmented, diminished, minor or major.
#[derive(Debug, Clone, Copy, PartialEq, Eq, Structural)]
pub enum Quality {
    P,
    A,
    D,
    Min,
    Maj,
}

impl Quality {
    /// The one-letter abbreviation: `P`, `A`, `d`, `m` or `M`.
    pub open spec fn label(self) -> Seq<char> {
        match self {
            Quality::P => seq!['P'],
            Quality::A => seq!['A'],
            Quality::D => seq!['d'],
            Quality::Min => seq!['m'],
            Quality::Maj => seq!['M'],
        }
    }

    /// The abbreviation as text.
    pub fn to_string(&self) -> (text: String)
        ensures
            text@ == self.label(),
    {
        let name: &'static str = match self {
            Quality::P => "P",
            Quality::A => "A",
            Quality::D => "d",
            Quality::Min => "m",
            Quality::Maj => "M",
        };
        proof {
            reveal_strlit("P");
            reveal_strlit("A");
            reveal_strlit("d");
            reveal_strlit("m");
            reveal_strlit("M");
        }
        let text = String::from_str(name);
        assert(text@ =~= self.label());
        text
    }
}

} // verus!
