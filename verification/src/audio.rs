//! The audio cues of the calibration wizard, as plain data.
//!
//! Decoding and playing the clips is the surrounding program's job; the
//! library only distinguishes the cues and carries their bytes.

use vstd::prelude::*;

verus! {

/// The two audio cues the calibration wizard plays: one when a calibration
/// point is captured, one when the finished calibration is accepted.
#[derive(Debug, Clone, Copy, PartialEq, Eq, Structural)]
pub enum Sound {
    Wow,
    Shot,
}

/// An encoded audio clip held in the program image.
#[derive(Debug, Clone, Copy)]
pub struct SoundData(&'static [u8]);

impl SoundData {
    /// The clip's encoded bytes.
    pub closed spec fn spec_data(self) -> Seq<u8> {
        self.0@
    }

    /// Wraps a clip's encoded bytes.
    pub fn new(buf: &'static [u8]) -> (r: Self)
        ensures
            r.spec_data() == buf@,
    {
        SoundData(buf)
    }

    /// The clip's encoded bytes, for handing to a decoder.
    pub fn data(&self) -> (r: &'static [u8])
        ensures
            r@ == self.spec_data(),
    {
        self.0
    }
}

} // verus!
