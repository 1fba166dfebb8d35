//! The register map of the LIS3MDL.
use vstd::prelude::*;

verus! {

/// Identity register: reads as the chip's fixed identity byte.
pub const WHO_AM_I: u8 = 0x0F;

/// Control register 1: XY performance mode and output data rate.
pub const CTRL_REG1: u8 = 0x20;

/// Control register 2: full scale.
pub const CTRL_REG2: u8 = 0x21;

/// Control register 3: operating mode.
pub const CTRL_REG3: u8 = 0x22;

/// Control register 4: Z performance mode.
pub const CTRL_REG4: u8 = 0x23;

/// Status register: holds the data-ready flags.
pub const STATUS_REG: u8 = 0x27;

/// X axis reading, low byte.
pub const OUT_X_L: u8 = 0x28;

/// X axis reading, high byte.
pub const OUT_X_H: u8 = 0x29;

/// Y axis reading, low byte.
pub const OUT_Y_L: u8 = 0x2A;

/// Y axis reading, high byte.
pub const OUT_Y_H: u8 = 0x2B;

/// Z axis reading, low byte.
pub const OUT_Z_L: u8 = 0x2C;

/// Z axis reading, high byte.
pub const OUT_Z_H: u8 = 0x2D;

/// The register that the `index`-th byte of a burst read comes from when the
/// burst starts at `start` and the device steps its register pointer after
/// each byte.
pub open spec fn burst_register(start: u8, index: nat) -> int {
    start + index
}

/// The six output registers follow one another from `OUT_X_L`, so a burst of
/// six bytes that starts there delivers X low, X high, Y low, Y high, Z low,
/// Z high, in this order.
pub proof fn output_registers_are_contiguous()
    ensures
        burst_register(OUT_X_L, 0) == OUT_X_L,
        burst_register(OUT_X_L, 1) == OUT_X_H,
        burst_register(OUT_X_L, 2) == OUT_Y_L,
        burst_register(OUT_X_L, 3) == OUT_Y_H,
        burst_register(OUT_X_L, 4) == OUT_Z_L,
        burst_register(OUT_X_L, 5) == OUT_Z_H,
{
}

} // verus!
