//! The data-ready flag and the decoding of axis readings.
use vstd::prelude::*;

verus! {

/// The flag of the status register that says that a new sample of all three
/// axes is available: bit 3.
pub const DATA_READY: u8 = 0b1000;

/// One sample: the readings of the X, Y and Z axes.
pub type Measurement = (i16, i16, i16);

/// Whether `status`, a value of the status register, announces a new sample.
pub open spec fn data_ready(status: u8) -> bool {
    status & DATA_READY == DATA_READY
}

/// Tests the data-ready flag of a status value.
pub fn is_data_ready(status: u8) -> (ready: bool)
    ensures
        ready == data_ready(status),
{
    status & DATA_READY == DATA_READY
}

/// The flag is bit 3 of the status value, and no other bit matters.
pub proof fn data_ready_is_bit_three(status: u8)
    ensures
        data_ready(status) <==> (status / 8) % 2 == 1,
{
    assert((status & 0b1000 == 0b1000) <==> (status / 8) % 2 == 1) by (bit_vector);
}

/// The reading that the bytes `low` and `high` of an axis stand for: the
/// 16-bit number `high * 256 + low`, read in two's complement.
pub open spec fn axis_value(low: u8, high: u8) -> int {
    if high < 128 {
        high * 256 + low
    } else {
        high * 256 + low - 65536
    }
}

/// The sample that six output bytes stand for: X, Y and Z in this order, each
/// with its low byte first.
pub open spec fn sample(bytes: Seq<u8>) -> Measurement
    recommends
        bytes.len() == 6,
{
    (
        axis_value(bytes[0], bytes[1]) as i16,
        axis_value(bytes[2], bytes[3]) as i16,
        axis_value(bytes[4], bytes[5]) as i16,
    )
}

/// Decodes one axis reading from its two bytes.
pub fn axis_from_bytes(low: u8, high: u8) -> (value: i16)
    ensures
        value == axis_value(low, high),
{
    let raw: u16 = ((high as u16) << 8) | (low as u16);
    assert(raw == high * 256 + low) by (bit_vector)
        requires
            raw == ((high as u16) << 8) | (low as u16),
    ;
    let value: i16 = raw as i16;
    assert(value == (if high < 128 {
        high * 256 + low
    } else {
        high * 256 + low - 65536
    })) by (bit_vector)
        requires
            raw == high * 256 + low,
            value == raw as i16,
    ;
    value
}

/// Decodes a sample from the six bytes of a burst read of the output
/// registers.
pub fn decode(bytes: &[u8; 6]) -> (reading: Measurement)
    ensures
        reading == sample(bytes@),
        reading.0 == axis_value(bytes[0], bytes[1]),
        reading.1 == axis_value(bytes[2], bytes[3]),
        reading.2 == axis_value(bytes[4], bytes[5]),
{
    let x: i16 = axis_from_bytes(bytes[0], bytes[1]);
    let y: i16 = axis_from_bytes(bytes[2], bytes[3]);
    let z: i16 = axis_from_bytes(bytes[4], bytes[5]);
    (x, y, z)
}

/// Each reading of a sample is the value of its two bytes: X of the first
/// two, Y of the next two, Z of the last two. No reading is cut short.
pub proof fn sample_by_axis(bytes: Seq<u8>)
    ensures
        sample(bytes).0 == axis_value(bytes[0], bytes[1]),
        sample(bytes).1 == axis_value(bytes[2], bytes[3]),
        sample(bytes).2 == axis_value(bytes[4], bytes[5]),
{
}

/// Every pair of bytes stands for a reading in the range of `i16`, and no two
/// pairs stand for the same reading.
pub proof fn axis_value_is_one_to_one(low: u8, high: u8, other_low: u8, other_high: u8)
    ensures
        i16::MIN <= axis_value(low, high) <= i16::MAX,
        axis_value(low, high) == axis_value(other_low, other_high) ==> low == other_low && high
            == other_high,
{
}

/// The low byte counts in steps of one, the high byte in steps of 256, and the
/// top bit of the high byte is the sign.
pub proof fn axis_value_by_bytes(low: u8, high: u8)
    ensures
        axis_value(low, 0) == low,
        axis_value(0, high) == (if high < 128 {
            256 * high
        } else {
            256 * high - 65536
        }),
        axis_value(low, high) == axis_value(low, 0) + axis_value(0, high),
        axis_value(low, high) < 0 <==> high >= 128,
{
}

} // verus!
