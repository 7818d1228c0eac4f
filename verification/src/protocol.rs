//! Parsing of the raw binary packets that the touchscreen sends.
//!
//! The controller emits fixed six-byte little-endian frames: byte 0 is a tag,
//! byte 1 carries the touch flag (bit 0) and a resolution selector (bits
//! 1-2), bytes 2-3 are the Y coordinate and bytes 4-5 the X coordinate, each
//! low byte first.

use vstd::prelude::*;

use crate::error::ParsePacketError;
use crate::geo::Point2D;
use crate::units::{udim, DimE, UDIM_BOUND};

verus! {

/// Length of a raw packet.
pub const RAW_PACKET_LEN: usize = 6;

/// Type of raw packets sent over USB.
#[derive(Debug, Clone, Copy)]
pub struct RawPacket(pub [u8; RAW_PACKET_LEN]);

/// A boolean indicating if a finger touch is detected.
#[derive(Debug, Clone, Copy, PartialEq, Eq, Structural)]
pub enum TouchState {
    IsTouching,
    NotTouching,
}

/// Type of packet tags that we currently support.
#[derive(Debug, Clone, Copy, PartialEq, Eq, Structural)]
pub enum PacketTag {
    TouchEvent,
}

impl PacketTag {
    /// The tag byte that marks a packet of this kind on the wire.
    pub open spec fn spec_code(self) -> u8 {
        0x02
    }

    /// The tag byte that marks a packet of this kind on the wire.
    pub fn code(self) -> (r: u8)
        ensures
            r == self.spec_code(),
    {
        0x02
    }
}

/// The 16-bit word stored little-endian in two consecutive frame bytes.
pub open spec fn spec_word(lo: u8, hi: u8) -> int {
    (hi as int) * 256 + (lo as int)
}

/// The resolution, in bits per coordinate, selected by bits 1-2 of the
/// frame's second byte, via the fixed table
/// `{0x00 -> 11, 0x02 -> 12, 0x04 -> 13, 0x05 -> 14}`.
///
/// The masked selector `0x06` is outside the table; a frame carrying it
/// violates the device's own protocol and is excluded by the decoder's
/// precondition.  (`0x05` cannot actually result from the mask, but the
/// table maps it, so the function does too.)
pub open spec fn spec_resolution(b1: u8) -> u8 {
    let m = b1 & 0x06;
    if m == 0x00 {
        11
    } else if m == 0x02 {
        12
    } else if m == 0x04 {
        13
    } else {
        14
    }
}

/// The exclusive upper bound `2^res` that a coordinate must stay below for a
/// resolution of `res` bits.
pub open spec fn spec_res_limit(res: u8) -> int {
    if res == 11 {
        0x800
    } else if res == 12 {
        0x1000
    } else if res == 13 {
        0x2000
    } else {
        0x4000
    }
}

/// Whether the frame's touch flag (bit 0 of the second byte) is set.
pub open spec fn spec_touching(b1: u8) -> bool {
    b1 & 0x01 == 0x01
}

/// What decoding a frame yields: either the decoded fields, as the touch
/// flag and the plain values of the X coordinate, the Y coordinate and the
/// resolution, or the exact error.  This is the decoder's whole behaviour;
/// [`USBPacket::try_parse`] promises to return precisely this.
pub open spec fn spec_try_parse(packet: RawPacket, expected_tag: Option<PacketTag>) -> Result<
    (TouchState, int, int, u8),
    ParsePacketError,
> {
    let res = spec_resolution(packet.0[1]);
    let y = spec_word(packet.0[2], packet.0[3]);
    let x = spec_word(packet.0[4], packet.0[5]);
    if expected_tag matches Some(t) && packet.0[0] != t.spec_code() {
        Err(ParsePacketError::UnexpectedTag(packet.0[0]))
    } else if y >= spec_res_limit(res) {
        Err(ParsePacketError::WrongResolution(DimE::Y))
    } else if x >= spec_res_limit(res) {
        Err(ParsePacketError::WrongResolution(DimE::X))
    } else {
        Ok(
            (
                if spec_touching(packet.0[1]) {
                    TouchState::IsTouching
                } else {
                    TouchState::NotTouching
                },
                x,
                y,
                res,
            ),
        )
    }
}

/// A representation of a packet sent over USB.
/// If we support more message types this should be extended to an enum with
/// different packet variants.
#[derive(Debug, Clone, Copy, PartialEq, Eq)]
pub struct USBPacket {
    pub touch_state: TouchState,
    pub position: Point2D,
    pub resolution: u8,
}

impl USBPacket {
    /// Attaches a timestamp, in milliseconds, to the packet.
    pub fn with_time(self, time: u64) -> (r: USBMessage)
        ensures
            r.time == time,
            r.packet == self,
    {
        USBMessage { time, packet: self }
    }

    pub fn touch_state(&self) -> (r: TouchState)
        ensures
            r == self.touch_state,
    {
        self.touch_state
    }

    pub fn position(&self) -> (r: Point2D)
        ensures
            r == self.position,
    {
        self.position
    }

    pub fn resolution(&self) -> (r: u8)
        ensures
            r == self.resolution,
    {
        self.resolution
    }

    /// Parsing logic for a touch event packet.
    /// Fails if the packet is somehow malformed.
    ///
    /// The precondition excludes the one selector value (`0x06` after
    /// masking) that the resolution table has no row for; such a frame would
    /// be a violation of the device's own protocol, not a recoverable decode
    /// error, so callers must reject it before decoding.
    pub fn try_parse(packet: RawPacket, expected_tag: Option<PacketTag>) -> (r: Result<
        Self,
        ParsePacketError,
    >)
        requires
            packet.0[1] & 0x06 != 0x06,
        ensures
            match spec_try_parse(packet, expected_tag) {
                Ok((ts, x, y, res)) => {
                    &&& r matches Ok(p)
                    &&& p.touch_state == ts
                    &&& p.position.x@ == x
                    &&& p.position.y@ == y
                    &&& p.resolution == res
                },
                Err(e) => r == Err::<USBPacket, ParsePacketError>(e),
            },
    {
        if let Some(expected_tag) = expected_tag {
            let raw_tag = packet.0[0];
            if raw_tag != expected_tag.code() {
                return Err(ParsePacketError::UnexpectedTag(raw_tag));
            }
        }
        // Bitmasks for fields in the raw packet.
        let masked = packet.0[1] & 0x06;
        let resolution: u8 = if masked == 0x00 {
            11
        } else if masked == 0x02 {
            12
        } else if masked == 0x04 {
            13
        } else {
            14
        };

        let touch_state = if (packet.0[1] & 0x01) == 0x01 {
            TouchState::IsTouching
        } else {
            TouchState::NotTouching
        };

        // X and Y coordinates are stored little-endian.
        let y: u16 = ((packet.0[3] as u16) << 8u16) | (packet.0[2] as u16);
        let x: u16 = ((packet.0[5] as u16) << 8u16) | (packet.0[4] as u16);
        proof {
            lemma_le_word(packet.0[2], packet.0[3]);
            lemma_le_word(packet.0[4], packet.0[5]);
        }

        let limit: u16 = if resolution == 11 {
            0x800
        } else if resolution == 12 {
            0x1000
        } else if resolution == 13 {
            0x2000
        } else {
            0x4000
        };

        if y >= limit {
            return Err(ParsePacketError::WrongResolution(DimE::Y));
        } else if x >= limit {
            return Err(ParsePacketError::WrongResolution(DimE::X));
        }

        Ok(
            USBPacket {
                touch_state,
                position: Point2D {
                    x: udim::new(x as i64),
                    y: udim::new(y as i64),
                },
                resolution,
            },
        )
    }
}

/// Combining a high and a low byte little-endian equals `hi * 256 + lo`.
proof fn lemma_le_word(lo: u8, hi: u8)
    ensures
        ((hi as u16) << 8u16) | (lo as u16) == (hi as int) * 256 + (lo as int),
{
    assert(((hi as u16) << 8u16) | (lo as u16) == (hi as u16) * 256 + (lo as u16))
        by (bit_vector);
}

/// Messages are timestamped so that the consumer can measure how long a
/// touch has been held.  The timestamp counts milliseconds from an arbitrary
/// but fixed origin and must not decrease along the stream of messages.
#[derive(Debug, Clone, Copy, PartialEq, Eq)]
pub struct USBMessage {
    pub time: u64,
    pub packet: USBPacket,
}

impl USBMessage {
    /// The packet's timestamp in milliseconds.
    pub fn time(&self) -> (r: u64)
        ensures
            r == self.time,
    {
        self.time
    }

    pub fn packet(&self) -> (r: &USBPacket)
        ensures
            r == self.packet,
    {
        &self.packet
    }
}

/// Every successfully decoded frame yields a position that fits the
/// resolution the frame declares: on both axes the coordinate is
/// nonnegative and below `2^resolution` (equivalently, shifting it right by
/// the resolution leaves zero).  In particular every decoded position lies
/// within the driver's coordinate bound.
pub proof fn lemma_decoded_position_fits_resolution(
    packet: RawPacket,
    expected_tag: Option<PacketTag>,
)
    requires
        spec_try_parse(packet, expected_tag) matches Ok(_),
    ensures
        ({
            let (ts, x, y, res) = spec_try_parse(packet, expected_tag)->Ok_0;
            &&& 0 <= x < spec_res_limit(res)
            &&& 0 <= y < spec_res_limit(res)
            &&& 0 <= x <= UDIM_BOUND
            &&& 0 <= y <= UDIM_BOUND
        }),
{
}

} // verus!
