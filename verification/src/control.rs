//! The values of the control registers.
//!
//! Control register 1 holds the performance mode of the X and Y axes in bits
//! 5 and 6 and the output data rate in bits 1 to 4. Control register 4 holds
//! the performance mode of the Z axis in bits 2 and 3. Control registers 2
//! and 3 hold the full scale and the operating mode in bits 0 and 1.
use crate::config::{AxisMode, OutputDataRate};
use vstd::prelude::*;

verus! {

/// The bits of control register 1 that hold the XY performance mode.
pub const XY_MODE_MASK: u8 = 0b0110_0000;

/// The bits of control register 1 that hold the output data rate.
pub const DATA_RATE_MASK: u8 = 0b0001_1110;

/// The bits of control register 4 that hold the Z performance mode.
pub const Z_MODE_MASK: u8 = 0b0000_1100;

/// The XY performance-mode field of a value of control register 1.
pub open spec fn xy_mode_field(value: u8) -> u8 {
    (value >> 5) & 0b11
}

/// The data-rate field of a value of control register 1.
pub open spec fn data_rate_field(value: u8) -> u8 {
    (value >> 1) & 0b1111
}

/// The Z performance-mode field of a value of control register 4.
pub open spec fn z_mode_field(value: u8) -> u8 {
    (value >> 2) & 0b11
}

/// `mode` in the XY performance-mode field, all other bits clear.
pub open spec fn xy_mode_bits(mode: AxisMode) -> u8 {
    mode.bitcode() << 5
}

/// `rate` in the data-rate field, all other bits clear.
pub open spec fn data_rate_bits(rate: OutputDataRate) -> u8 {
    rate.bitcode() << 1
}

/// `mode` in the Z performance-mode field, all other bits clear.
pub open spec fn z_mode_bits(mode: AxisMode) -> u8 {
    mode.bitcode() << 2
}

/// The value of control register 1 that sets both the XY performance mode and
/// the output data rate.
pub open spec fn xy_mode_and_data_rate_bits(mode: AxisMode, rate: OutputDataRate) -> u8 {
    xy_mode_bits(mode) | data_rate_bits(rate)
}

/// `current` with the bits under `mask` replaced by `bits`.
pub open spec fn replace_bits(current: u8, mask: u8, bits: u8) -> u8 {
    (current & !mask) | bits
}

/// Control register 1 for an XY performance mode together with an output
/// data rate.
pub fn xy_mode_and_data_rate_value(mode: AxisMode, rate: OutputDataRate) -> (value: u8)
    ensures
        value == xy_mode_and_data_rate_bits(mode, rate),
{
    (mode.to_bitcode() << 5) | (rate.to_bitcode() << 1)
}

/// The XY performance-mode field for `mode`, to be set in control register 1.
pub fn xy_mode_value(mode: AxisMode) -> (value: u8)
    ensures
        value == xy_mode_bits(mode),
{
    mode.to_bitcode() << 5
}

/// The data-rate field for `rate`, to be set in control register 1.
pub fn data_rate_value(rate: OutputDataRate) -> (value: u8)
    ensures
        value == data_rate_bits(rate),
{
    rate.to_bitcode() << 1
}

/// Control register 4 for a Z performance mode.
pub fn z_mode_value(mode: AxisMode) -> (value: u8)
    ensures
        value == z_mode_bits(mode),
{
    mode.to_bitcode() << 2
}

/// Replaces the bits of `current` under `mask` by `bits`.
pub fn replace(current: u8, mask: u8, bits: u8) -> (value: u8)
    ensures
        value == replace_bits(current, mask, bits),
{
    (current & !mask) | bits
}

/// The value that sets XY mode and data rate holds the code of each in its
/// field, has every other bit clear, and is `32 * mode + 2 * rate`.
pub proof fn xy_mode_and_data_rate_fields(mode: AxisMode, rate: OutputDataRate)
    ensures
        xy_mode_field(xy_mode_and_data_rate_bits(mode, rate)) == mode.bitcode(),
        data_rate_field(xy_mode_and_data_rate_bits(mode, rate)) == rate.bitcode(),
        xy_mode_and_data_rate_bits(mode, rate) & !(XY_MODE_MASK | DATA_RATE_MASK) == 0,
        xy_mode_and_data_rate_bits(mode, rate) == 32 * mode.bitcode() + 2 * rate.bitcode(),
{
    let m: u8 = mode.bitcode();
    let r: u8 = rate.bitcode();
    assert(m <= 3 && r <= 14);
    assert({
        let v = (m << 5) | (r << 1);
        &&& (v >> 5) & 0b11 == m
        &&& (v >> 1) & 0b1111 == r
        &&& v & !(0b0110_0000u8 | 0b0001_1110u8) == 0
        &&& v == 32 * m + 2 * r
    }) by (bit_vector)
        requires
            m <= 3,
            r <= 14,
    ;
}

/// The value of control register 4 holds the code of the mode in the Z field,
/// has every other bit clear, and is `4 * mode`.
pub proof fn z_mode_fields(mode: AxisMode)
    ensures
        z_mode_field(z_mode_bits(mode)) == mode.bitcode(),
        z_mode_bits(mode) & !Z_MODE_MASK == 0,
        z_mode_bits(mode) == 4 * mode.bitcode(),
{
    let m: u8 = mode.bitcode();
    assert(m <= 3);
    assert({
        let v = m << 2;
        &&& (v >> 2) & 0b11 == m
        &&& v & !0b0000_1100u8 == 0
        &&& v == 4 * m
    }) by (bit_vector)
        requires
            m <= 3,
    ;
}

/// The values that the default set-up writes: high performance at 10 Hz in
/// control register 1, high performance in control register 4.
pub proof fn default_values()
    ensures
        xy_mode_and_data_rate_bits(AxisMode::HighPerformance, OutputDataRate::Hz10) == 0b0101_0000,
        z_mode_bits(AxisMode::HighPerformance) == 0b0000_1000,
{
    assert((2u8 << 5) | (8u8 << 1) == 0b0101_0000u8) by (bit_vector);
    assert(2u8 << 2 == 0b0000_1000u8) by (bit_vector);
}

/// Replacing the XY mode in a value of control register 1 puts the new code
/// into the XY field and leaves every other bit, the data rate among them, as
/// it was.
pub proof fn replacing_xy_mode_keeps_data_rate(current: u8, mode: AxisMode)
    ensures
        xy_mode_field(replace_bits(current, XY_MODE_MASK, xy_mode_bits(mode))) == mode.bitcode(),
        data_rate_field(replace_bits(current, XY_MODE_MASK, xy_mode_bits(mode)))
            == data_rate_field(current),
        replace_bits(current, XY_MODE_MASK, xy_mode_bits(mode)) & !XY_MODE_MASK == current
            & !XY_MODE_MASK,
{
    let m: u8 = mode.bitcode();
    assert(m <= 3);
    assert({
        let v = (current & !0b0110_0000u8) | (m << 5);
        &&& (v >> 5) & 0b11 == m
        &&& (v >> 1) & 0b1111 == (current >> 1) & 0b1111
        &&& v & !0b0110_0000u8 == current & !0b0110_0000u8
    }) by (bit_vector)
        requires
            m <= 3,
    ;
}

/// Replacing the data rate in a value of control register 1 puts the new code
/// into the data-rate field and leaves every other bit, the XY mode among
/// them, as it was.
pub proof fn replacing_data_rate_keeps_xy_mode(current: u8, rate: OutputDataRate)
    ensures
        data_rate_field(replace_bits(current, DATA_RATE_MASK, data_rate_bits(rate)))
            == rate.bitcode(),
        xy_mode_field(replace_bits(current, DATA_RATE_MASK, data_rate_bits(rate)))
            == xy_mode_field(current),
        replace_bits(current, DATA_RATE_MASK, data_rate_bits(rate)) & !DATA_RATE_MASK == current
            & !DATA_RATE_MASK,
{
    let r: u8 = rate.bitcode();
    assert(r <= 14);
    assert({
        let v = (current & !0b0001_1110u8) | (r << 1);
        &&& (v >> 1) & 0b1111 == r
        &&& (v >> 5) & 0b11 == (current >> 5) & 0b11
        &&& v & !0b0001_1110u8 == current & !0b0001_1110u8
    }) by (bit_vector)
        requires
            r <= 14,
    ;
}

/// Setting the XY mode and then the data rate, one after the other and in
/// either order, on a register that is clear gives the value that sets both
/// at once.
pub proof fn single_updates_compose(mode: AxisMode, rate: OutputDataRate)
    ensures
        replace_bits(
            replace_bits(0, XY_MODE_MASK, xy_mode_bits(mode)),
            DATA_RATE_MASK,
            data_rate_bits(rate),
        ) == xy_mode_and_data_rate_bits(mode, rate),
        replace_bits(
            replace_bits(0, DATA_RATE_MASK, data_rate_bits(rate)),
            XY_MODE_MASK,
            xy_mode_bits(mode),
        ) == xy_mode_and_data_rate_bits(mode, rate),
{
    let m: u8 = mode.bitcode();
    let r: u8 = rate.bitcode();
    assert(m <= 3 && r <= 14);
    assert({
        let both = (m << 5) | (r << 1);
        let xy = (0u8 & !0b0110_0000u8) | (m << 5);
        let dr = (0u8 & !0b0001_1110u8) | (r << 1);
        &&& (xy & !0b0001_1110u8) | (r << 1) == both
        &&& (dr & !0b0110_0000u8) | (m << 5) == both
    }) by (bit_vector)
        requires
            m <= 3,
            r <= 14,
    ;
}

/// A replacement is not undone by what was there: replacing a field twice
/// leaves the second value.
pub proof fn replace_bits_overwrites(current: u8, mask: u8, first: u8, second: u8)
    requires
        first & !mask == 0,
        second & !mask == 0,
    ensures
        replace_bits(replace_bits(current, mask, first), mask, second) == replace_bits(
            current,
            mask,
            second,
        ),
        replace_bits(current, mask, second) & mask == second,
        replace_bits(current, mask, second) & !mask == current & !mask,
{
    assert({
        let once = (current & !mask) | first;
        let twice = (once & !mask) | second;
        let direct = (current & !mask) | second;
        &&& twice == direct
        &&& direct & mask == second
        &&& direct & !mask == current & !mask
    }) by (bit_vector)
        requires
            first & !mask == 0,
            second & !mask == 0,
    ;
}

} // verus!
