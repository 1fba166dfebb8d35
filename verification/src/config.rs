//! The settings of the sensor and their codes on the wire.
use vstd::prelude::*;

verus! {

/// How the sensor as a whole takes measurements.
#[derive(Clone, Copy, Debug, PartialEq, Eq)]
pub enum OperatingMode {
    ContinuousConversion,
    SingleConversion,
    PowerDown,
}

impl OperatingMode {
    /// The code of the mode in the two-bit operating-mode field.
    pub open spec fn bitcode(self) -> u8 {
        match self {
            OperatingMode::ContinuousConversion => 0,
            OperatingMode::SingleConversion => 1,
            OperatingMode::PowerDown => 2,
        }
    }

    /// Encodes the mode for the wire.
    pub fn to_bitcode(self) -> (code: u8)
        ensures
            code == self.bitcode(),
            code <= 2,
    {
        match self {
            OperatingMode::ContinuousConversion => 0,
            OperatingMode::SingleConversion => 1,
            OperatingMode::PowerDown => 2,
        }
    }

    /// Two modes with the same code are the same mode.
    pub proof fn bitcode_is_injective(a: OperatingMode, b: OperatingMode)
        requires
            a.bitcode() == b.bitcode(),
        ensures
            a == b,
    {
    }
}

/// The measurement range, in gauss on either side of zero.
#[derive(Clone, Copy, Debug, PartialEq, Eq)]
pub enum FullScale {
    Four,
    Eight,
    Twelve,
    Sixteen,
}

impl FullScale {
    /// The code of the range in the two-bit full-scale field.
    pub open spec fn bitcode(self) -> u8 {
        match self {
            FullScale::Four => 0,
            FullScale::Eight => 1,
            FullScale::Twelve => 2,
            FullScale::Sixteen => 3,
        }
    }

    /// The range in gauss.
    pub open spec fn gauss(self) -> nat {
        match self {
            FullScale::Four => 4,
            FullScale::Eight => 8,
            FullScale::Twelve => 12,
            FullScale::Sixteen => 16,
        }
    }

    /// Encodes the range for the wire.
    pub fn to_bitcode(self) -> (code: u8)
        ensures
            code == self.bitcode(),
            code <= 3,
    {
        match self {
            FullScale::Four => 0,
            FullScale::Eight => 1,
            FullScale::Twelve => 2,
            FullScale::Sixteen => 3,
        }
    }

    /// Two ranges with the same code are the same range.
    pub proof fn bitcode_is_injective(a: FullScale, b: FullScale)
        requires
            a.bitcode() == b.bitcode(),
        ensures
            a == b,
    {
    }

    /// The codes count the ranges upwards in steps of four gauss.
    pub proof fn bitcode_orders_ranges(scale: FullScale)
        ensures
            scale.gauss() == 4 * (scale.bitcode() + 1),
    {
    }
}

/// The trade of power against noise on one axis, or on the X and Y axes
/// together.
#[derive(Clone, Copy, Debug, PartialEq, Eq)]
pub enum AxisMode {
    LowPower,
    MediumPerformance,
    HighPerformance,
    UltraPerformance,
}

impl AxisMode {
    /// The code of the mode in a two-bit performance-mode field.
    pub open spec fn bitcode(self) -> u8 {
        match self {
            AxisMode::LowPower => 0,
            AxisMode::MediumPerformance => 1,
            AxisMode::HighPerformance => 2,
            AxisMode::UltraPerformance => 3,
        }
    }

    /// Encodes the mode for the wire.
    pub fn to_bitcode(self) -> (code: u8)
        ensures
            code == self.bitcode(),
            code <= 3,
    {
        match self {
            AxisMode::LowPower => 0,
            AxisMode::MediumPerformance => 1,
            AxisMode::HighPerformance => 2,
            AxisMode::UltraPerformance => 3,
        }
    }

    /// Two modes with the same code are the same mode.
    pub proof fn bitcode_is_injective(a: AxisMode, b: AxisMode)
        requires
            a.bitcode() == b.bitcode(),
        ensures
            a == b,
    {
    }
}

/// How often the sensor produces a new sample.
///
/// `Fast` hands the rate over to the performance mode of the axes; the other
/// rates are fixed, from 0.625 Hz to 80 Hz.
#[derive(Clone, Copy, Debug, PartialEq, Eq)]
pub enum OutputDataRate {
    Fast,
    MilliHz625,
    MilliHz1250,
    MilliHz2500,
    Hz5,
    Hz10,
    Hz20,
    Hz40,
    Hz80,
}

impl OutputDataRate {
    /// The code of the rate in the four-bit data-rate field: the lowest bit
    /// selects the fast rate, the three above it one of the fixed rates.
    pub open spec fn bitcode(self) -> u8 {
        match self {
            OutputDataRate::Fast => 0b0001,
            OutputDataRate::MilliHz625 => 0b0000,
            OutputDataRate::MilliHz1250 => 0b0010,
            OutputDataRate::MilliHz2500 => 0b0100,
            OutputDataRate::Hz5 => 0b0110,
            OutputDataRate::Hz10 => 0b1000,
            OutputDataRate::Hz20 => 0b1010,
            OutputDataRate::Hz40 => 0b1100,
            OutputDataRate::Hz80 => 0b1110,
        }
    }

    /// Encodes the rate for the wire.
    pub fn to_bitcode(self) -> (code: u8)
        ensures
            code == self.bitcode(),
            code <= 14,
    {
        match self {
            OutputDataRate::Fast => 0b0001,
            OutputDataRate::MilliHz625 => 0b0000,
            OutputDataRate::MilliHz1250 => 0b0010,
            OutputDataRate::MilliHz2500 => 0b0100,
            OutputDataRate::Hz5 => 0b0110,
            OutputDataRate::Hz10 => 0b1000,
            OutputDataRate::Hz20 => 0b1010,
            OutputDataRate::Hz40 => 0b1100,
            OutputDataRate::Hz80 => 0b1110,
        }
    }

    /// Two rates with the same code are the same rate.
    pub proof fn bitcode_is_injective(a: OutputDataRate, b: OutputDataRate)
        requires
            a.bitcode() == b.bitcode(),
        ensures
            a == b,
    {
    }

    /// Every fixed rate leaves the fast-rate bit, the lowest of the field,
    /// clear.
    pub proof fn fixed_rates_are_even(rate: OutputDataRate)
        requires
            rate != OutputDataRate::Fast,
        ensures
            rate.bitcode() % 2 == 0,
    {
    }
}

} // verus!
