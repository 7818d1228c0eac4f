//! Decoding errors.

use vstd::prelude::*;

use crate::units::DimE;

verus! {

/// Errors that can happen during parsing of a packet.
///
/// A malformed frame is a permanent decode failure: the stream is assumed to
/// have lost synchronization and the caller is expected to stop reading.
#[derive(Debug, Clone, Copy, PartialEq, Eq, Structural)]
pub enum ParsePacketError {
    /// The frame's tag byte is not the expected one; carries the tag read.
    UnexpectedTag(u8),
    /// A coordinate does not fit in the resolution the frame itself declares;
    /// carries the offending axis.
    WrongResolution(DimE),
}

} // verus!
