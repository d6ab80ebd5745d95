//! The six-axis sample and the decoding of little-endian register blocks.

use vstd::prelude::*;

verus! {

/// One consistent reading of all six axes, in raw counts.
#[derive(Debug, Clone, Copy, PartialEq, Eq, Structural)]
pub struct ImuData {
    pub accel_x: i16,
    pub accel_y: i16,
    pub accel_z: i16,
    /// Pitch rate.
    pub gyro_x: i16,
    /// Roll rate.
    pub gyro_y: i16,
    /// Yaw rate.
    pub gyro_z: i16,
}

/// The signed 16-bit number whose two's-complement form is `lo` (low byte)
/// and `hi` (high byte).
pub open spec fn le_i16(lo: u8, hi: u8) -> i16 {
    let raw = lo as int + 256 * (hi as int);
    if raw < 32768 {
        raw as i16
    } else {
        (raw - 65536) as i16
    }
}

/// The sample held by a block of twelve bytes: six words, low byte first, in
/// the order acceleration x, y, z, angular rate x, y, z.
pub open spec fn sample_of(block: Seq<u8>) -> ImuData
    recommends
        block.len() == 12,
{
    ImuData {
        accel_x: le_i16(block[0], block[1]),
        accel_y: le_i16(block[2], block[3]),
        accel_z: le_i16(block[4], block[5]),
        gyro_x: le_i16(block[6], block[7]),
        gyro_y: le_i16(block[8], block[9]),
        gyro_z: le_i16(block[10], block[11]),
    }
}

/// The temperature code held by a block of two bytes, low byte first.
pub open spec fn temperature_of(block: Seq<u8>) -> i16
    recommends
        block.len() == 2,
{
    le_i16(block[0], block[1])
}

/// Joins two bytes, low byte first, into a signed 16-bit number.
pub fn i16_from_le(lo: u8, hi: u8) -> (value: i16)
    ensures
        value == le_i16(lo, hi),
{
    if hi < 128 {
        256 * (hi as i16) + (lo as i16)
    } else {
        256 * (hi as i16 - 256) + (lo as i16)
    }
}

/// Decodes the sample block.
pub fn decode_sample(block: &[u8; 12]) -> (sample: ImuData)
    ensures
        sample == sample_of(block@),
{
    ImuData {
        accel_x: i16_from_le(block[0], block[1]),
        accel_y: i16_from_le(block[2], block[3]),
        accel_z: i16_from_le(block[4], block[5]),
        gyro_x: i16_from_le(block[6], block[7]),
        gyro_y: i16_from_le(block[8], block[9]),
        gyro_z: i16_from_le(block[10], block[11]),
    }
}

/// Decodes the temperature block.
pub fn decode_temperature(block: &[u8; 2]) -> (code: i16)
    ensures
        code == temperature_of(block@),
{
    i16_from_le(block[0], block[1])
}

/// `le_i16` is two's complement: the word's sixteen bits are the high byte
/// followed by the low byte.
pub proof fn lemma_le_i16_is_twos_complement(lo: u8, hi: u8)
    ensures
        le_i16(lo, hi) == (((hi as u16) << 8) | (lo as u16)) as i16,
        le_i16(lo, hi) as u16 == lo as int + 256 * (hi as int),
{
    let word: u16 = ((hi as u16) << 8) | (lo as u16);
    assert(word == lo as int + 256 * (hi as int)) by (bit_vector)
        requires
            word == ((hi as u16) << 8) | (lo as u16),
    ;
    assert(word < 32768 ==> word as i16 == word) by (bit_vector);
    assert(word >= 32768 ==> word as i16 == word - 65536) by (bit_vector);
    let value = le_i16(lo, hi);
    assert(value as u16 == word) by (bit_vector)
        requires
            value == word as i16,
    ;
}

} // verus!
