//! MIDI value conversions between 7-bit, 8-bit and 14-bit resolutions.

use vstd::prelude::*;

verus! {

/// Convert a 14-bit value (0-16383) to a 7-bit value (0-127): the seven
/// most significant bits of the 14-bit value.
pub fn to_7bit(value_14bit: u16) -> (r: u8)
    ensures
        r == (value_14bit / 128) % 128,
{
    proof {
        assert((value_14bit >> 7) & 0x7F == (value_14bit / 128) % 128) by (bit_vector);
    }
    ((value_14bit >> 7) & 0x7F) as u8
}

/// Convert a 7-bit value (0-127) to a 14-bit value (0-16383) by placing it
/// in the seven most significant bits.
pub fn to_14bit(value_7bit: u8) -> (r: u16)
    ensures
        r == value_7bit * 128,
{
    proof {
        assert(((value_7bit as u16) << 7) == (value_7bit as u16) * 128) by (bit_vector);
    }
    (value_7bit as u16) << 7
}

/// Convert a 14-bit value to an 8-bit value (0-255), for 8-bit CC mode.
pub fn to_8bit(value_14bit: u16) -> (r: u8)
    ensures
        r == (value_14bit / 64) % 256,
{
    proof {
        assert((value_14bit >> 6) & 0xFF == (value_14bit / 64) % 256) by (bit_vector);
    }
    ((value_14bit >> 6) & 0xFF) as u8
}

/// Convert an 8-bit value to a 14-bit value.
pub fn from_8bit(value_8bit: u8) -> (r: u16)
    ensures
        r == value_8bit * 64,
{
    proof {
        assert(((value_8bit as u16) << 6) == (value_8bit as u16) * 64) by (bit_vector);
    }
    (value_8bit as u16) << 6
}

/// Widening a 7-bit value to 14 bits and narrowing it again gives it back.
pub proof fn lemma_7bit_roundtrip(v: u8)
    requires
        v < 128,
    ensures
        ((v * 128) as u16 / 128) % 128 == v,
{
}

/// Widening an 8-bit value to 14 bits and narrowing it again gives it back.
pub proof fn lemma_8bit_roundtrip(v: u8)
    ensures
        ((v * 64) as u16 / 64) % 256 == v,
{
}

} // verus!
