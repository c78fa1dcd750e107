//! Command frame codec: decodes one fixed-layout binary datagram into a
//! validated command value or rejects it.
//!
//! A frame is 12 bytes: a 4-byte little-endian magic constant, then the two
//! command axes, each carried as the 4 little-endian bytes of an IEEE-754
//! single-precision value. The codec never interprets the axis bytes as
//! numbers: it hands the 32-bit patterns through unchanged, so NaN,
//! infinities and out-of-range values survive decoding bit for bit.

use vstd::prelude::*;

verus! {

/// Magic constant that opens every valid frame, read little-endian.
pub const FRAME_MAGIC: u32 = 0xAABB_CCDD;

/// Length in bytes of a complete frame.
pub const FRAME_LEN: usize = 12;

/// A decoded control command.
///
/// Each axis holds the raw IEEE-754 single-precision bit pattern taken from
/// the wire. Bit pattern `0` is the neutral value `0.0`.
#[derive(Clone, Copy, Debug, PartialEq, Eq, Structural)]
pub struct Command {
    /// Bit pattern of the throttle axis, nominally in `[-1.0, 1.0]`.
    pub forward_backward: u32,
    /// Bit pattern of the steering axis, nominally in `[-1.0, 1.0]`.
    pub left_right: u32,
}

/// Why a datagram was rejected.
#[derive(Clone, Copy, Debug, PartialEq, Eq, Structural)]
pub enum DecodeError {
    /// The first four bytes are present but are not the magic constant.
    InvalidMagic,
    /// The datagram ended before the field being read was complete.
    Truncated,
}

impl Command {
    /// The neutral command: both axes `0.0`.
    pub open spec fn neutral_spec() -> Command {
        Command { forward_backward: 0, left_right: 0 }
    }

    /// Returns the neutral command, the state the vehicle idles in.
    pub fn neutral() -> (c: Command)
        ensures
            c == Command::neutral_spec(),
    {
        Command { forward_backward: 0, left_right: 0 }
    }
}

/// The 32-bit little-endian value formed by `s[off .. off + 4]`.
pub open spec fn le32_at(s: Seq<u8>, off: int) -> u32
    recommends
        0 <= off,
        off + 4 <= s.len(),
{
    (s[off] + 0x100 * s[off + 1] + 0x1_0000 * s[off + 2] + 0x100_0000 * s[off + 3]) as u32
}

/// What `decode` returns on a given byte sequence.
///
/// A sequence shorter than 4 bytes is rejected as truncated; one whose first
/// four bytes are not the magic is rejected as an invalid magic; one that
/// opens with the magic but ends before 12 bytes is rejected as truncated.
/// Otherwise the two axis bit patterns are read at offsets 4 and 8 and any
/// bytes past the twelfth are ignored.
pub open spec fn decode_spec(s: Seq<u8>) -> Result<Command, DecodeError> {
    if s.len() < 4 {
        Err(DecodeError::Truncated)
    } else if le32_at(s, 0) != FRAME_MAGIC {
        Err(DecodeError::InvalidMagic)
    } else if s.len() < FRAME_LEN {
        Err(DecodeError::Truncated)
    } else {
        Ok(Command { forward_backward: le32_at(s, 4), left_right: le32_at(s, 8) })
    }
}

/// Reads the little-endian 32-bit value at `off`.
fn read_le32(bytes: &[u8], off: usize) -> (v: u32)
    requires
        off + 4 <= bytes@.len(),
    ensures
        v == le32_at(bytes@, off as int),
{
    let b0 = bytes[off] as u32;
    let b1 = bytes[off + 1] as u32;
    let b2 = bytes[off + 2] as u32;
    let b3 = bytes[off + 3] as u32;
    b0 + 0x100 * b1 + 0x1_0000 * b2 + 0x100_0000 * b3
}

/// Decodes one datagram into a command, or says why it is rejected.
///
/// Pure: no side effects, and the result is exactly `decode_spec` of the
/// input bytes.
pub fn decode(bytes: &[u8]) -> (r: Result<Command, DecodeError>)
    ensures
        r == decode_spec(bytes@),
{
    if bytes.len() < 4 {
        Err(DecodeError::Truncated)
    } else if read_le32(bytes, 0) != FRAME_MAGIC {
        Err(DecodeError::InvalidMagic)
    } else if bytes.len() < FRAME_LEN {
        Err(DecodeError::Truncated)
    } else {
        Ok(Command { forward_backward: read_le32(bytes, 4), left_right: read_le32(bytes, 8) })
    }
}

} // verus!
