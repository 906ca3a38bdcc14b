//! Pitches, intervals and chords.

pub mod chord;
pub mod chord_like;
pub mod duration;
pub mod interval;
pub mod inversion;
pub mod note;
pub mod pitch_class;
pub mod quality;

pub use chord::Chord;
pub use chord_like::ChordLike;
pub use duration::Duration;
pub use interval::Interval;
pub use inversion::Inversion;
pub use note::Note;
pub use pitch_class::PitchClass;
pub use quality::Quality;
