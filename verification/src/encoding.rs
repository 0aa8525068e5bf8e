//! How values travel in register bytes: sixteen-bit words, signed offsets,
//! the four light channels, the gesture FIFO threshold and the size of a
//! gesture FIFO read.

use vstd::prelude::*;
use crate::{GestureDataThreshold, LightData};

verus! {

/// The low byte of a sixteen-bit value.
pub open spec fn low_byte(value: u16) -> u8 {
    (value % 256) as u8
}

/// The high byte of a sixteen-bit value.
pub open spec fn high_byte(value: u16) -> u8 {
    (value / 256) as u8
}

/// The sixteen-bit value held by two consecutive registers, low byte first.
pub open spec fn word(low: u8, high: u8) -> u16 {
    (256 * high + low) as u16
}

/// The byte that stands for a signed offset: its two's complement.
pub open spec fn offset_byte(offset: i8) -> u8 {
    if offset >= 0 {
        offset as u8
    } else {
        (offset + 256) as u8
    }
}

/// The four channels held by the eight data registers that start at CDATAL.
pub open spec fn light_data(bytes: Seq<u8>) -> LightData {
    LightData {
        clear: word(bytes[0], bytes[1]),
        red: word(bytes[2], bytes[3]),
        green: word(bytes[4], bytes[5]),
        blue: word(bytes[6], bytes[7]),
    }
}

/// How many bytes a gesture FIFO read fetches: four for each dataset that
/// the device has, but no more than the caller's buffer takes.
pub open spec fn fifo_read_length(capacity: nat, level: u8) -> nat {
    if capacity <= 4 * level {
        capacity
    } else {
        (4 * level) as nat
    }
}

impl GestureDataThreshold {
    /// The threshold as it stands in bits 7:6 of GCONFIG1.
    pub open spec fn pattern(self) -> u8 {
        match self {
            GestureDataThreshold::Th1 => 0b0000_0000,
            GestureDataThreshold::Th4 => 0b0100_0000,
            GestureDataThreshold::Th8 => 0b1000_0000,
            GestureDataThreshold::Th16 => 0b1100_0000,
        }
    }
}

/// Splits a sixteen-bit value into its low and its high byte.
pub fn split_word(value: u16) -> (bytes: (u8, u8))
    ensures
        bytes.0 == low_byte(value),
        bytes.1 == high_byte(value),
{
    let low = #[verifier::truncate] (value as u8);
    let high = (value >> 8) as u8;
    assert(low == (value % 256) as u8 && high == (value / 256) as u8) by (bit_vector)
        requires
            low == value as u8,
            high == (value >> 8) as u8,
    ;
    (low, high)
}

/// Joins a low and a high byte.
pub fn join_word(low: u8, high: u8) -> (value: u16)
    ensures
        value == word(low, high),
{
    let value = ((high as u16) << 8) | (low as u16);
    assert(value == (256 * high + low) as u16) by (bit_vector)
        requires
            value == ((high as u16) << 8) | (low as u16),
    ;
    value
}

/// Encodes a signed offset.
pub fn encode_offset(offset: i8) -> (byte: u8)
    ensures
        byte == offset_byte(offset),
{
    let byte = #[verifier::truncate] (offset as u8);
    assert(byte == (if offset >= 0 {
        offset as u8
    } else {
        (offset + 256) as u8
    })) by (bit_vector)
        requires
            byte == offset as u8,
    ;
    byte
}

/// Decodes the eight bytes read from CDATAL on.
pub fn decode_light(bytes: &[u8; 8]) -> (data: LightData)
    ensures
        data == light_data(bytes@),
{
    LightData {
        clear: join_word(bytes[0], bytes[1]),
        red: join_word(bytes[2], bytes[3]),
        green: join_word(bytes[4], bytes[5]),
        blue: join_word(bytes[6], bytes[7]),
    }
}

/// The number of bytes to fetch from the gesture FIFO into a buffer of
/// `capacity` bytes when the device holds `level` datasets.
pub fn fifo_byte_count(capacity: usize, level: u8) -> (count: usize)
    ensures
        count == fifo_read_length(capacity as nat, level),
{
    let available: usize = 4 * (level as usize);
    if capacity <= available {
        capacity
    } else {
        available
    }
}

/// A sixteen-bit value comes back from its two bytes.
pub proof fn lemma_word_round_trip(value: u16)
    ensures
        word(low_byte(value), high_byte(value)) == value,
{
}

/// The two bytes come back from the value they make.
pub proof fn lemma_bytes_round_trip(low: u8, high: u8)
    ensures
        low_byte(word(low, high)) == low,
        high_byte(word(low, high)) == high,
{
}

/// An offset's byte is the offset modulo 256, and the offset comes back
/// from it.
pub proof fn lemma_offset_byte(offset: i8)
    ensures
        offset_byte(offset) as int == (offset as int) % 256,
        (if offset_byte(offset) < 128 {
            offset_byte(offset) as int
        } else {
            offset_byte(offset) - 256
        }) == offset,
{
}

/// A gesture FIFO read never overruns the buffer and never fetches part of
/// a dataset that the device does not have.
pub proof fn lemma_fifo_read_length(capacity: nat, level: u8)
    ensures
        fifo_read_length(capacity, level) <= capacity,
        fifo_read_length(capacity, level) <= 4 * level,
        fifo_read_length(capacity, level) == capacity || fifo_read_length(capacity, level) == 4
            * level,
{
}

} // verus!
