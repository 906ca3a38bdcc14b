//! Arpeggiators whose cycle can be cut short or stretched to a given number of
//! steps.

pub mod up_down;

pub use up_down::UpDownArpeggiator;
