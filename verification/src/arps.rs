//! Arpeggiators: endless cycles over the notes of a chord, one note per call.

pub mod down;
pub mod up;
pub mod up_down;

pub use down::DownArpeggiator;
pub use up::UpArpeggiator;
pub use up_down::UpDownArpeggiator;
