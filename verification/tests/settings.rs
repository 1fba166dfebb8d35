use lis3mdl::control::{
    data_rate_value, replace, xy_mode_and_data_rate_value, xy_mode_value, z_mode_value,
    DATA_RATE_MASK, XY_MODE_MASK, Z_MODE_MASK,
};
use lis3mdl::registers::{
    CTRL_REG1, CTRL_REG2, CTRL_REG3, CTRL_REG4, OUT_X_H, OUT_X_L, OUT_Y_H, OUT_Y_L, OUT_Z_H,
    OUT_Z_L, STATUS_REG, WHO_AM_I,
};
use lis3mdl::{AxisMode, FullScale, OperatingMode, OutputDataRate};

const AXIS_MODES: [AxisMode; 4] = [
    AxisMode::LowPower,
    AxisMode::MediumPerformance,
    AxisMode::HighPerformance,
    AxisMode::UltraPerformance,
];

const DATA_RATES: [OutputDataRate; 9] = [
    OutputDataRate::Fast,
    OutputDataRate::MilliHz625,
    OutputDataRate::MilliHz1250,
    OutputDataRate::MilliHz2500,
    OutputDataRate::Hz5,
    OutputDataRate::Hz10,
    OutputDataRate::Hz20,
    OutputDataRate::Hz40,
    OutputDataRate::Hz80,
];

#[test]
fn operating_mode_codes() {
    assert_eq!(OperatingMode::ContinuousConversion.to_bitcode(), 0);
    assert_eq!(OperatingMode::SingleConversion.to_bitcode(), 1);
    assert_eq!(OperatingMode::PowerDown.to_bitcode(), 2);
}

#[test]
fn full_scale_codes() {
    assert_eq!(FullScale::Four.to_bitcode(), 0);
    assert_eq!(FullScale::Eight.to_bitcode(), 1);
    assert_eq!(FullScale::Twelve.to_bitcode(), 2);
    assert_eq!(FullScale::Sixteen.to_bitcode(), 3);
}

#[test]
fn axis_mode_codes() {
    assert_eq!(AxisMode::LowPower.to_bitcode(), 0);
    assert_eq!(AxisMode::MediumPerformance.to_bitcode(), 1);
    assert_eq!(AxisMode::HighPerformance.to_bitcode(), 2);
    assert_eq!(AxisMode::UltraPerformance.to_bitcode(), 3);
}

#[test]
fn output_data_rate_codes() {
    assert_eq!(OutputDataRate::Fast.to_bitcode(), 1);
    assert_eq!(OutputDataRate::MilliHz625.to_bitcode(), 0);
    assert_eq!(OutputDataRate::MilliHz1250.to_bitcode(), 0b10);
    assert_eq!(OutputDataRate::MilliHz2500.to_bitcode(), 0b100);
    assert_eq!(OutputDataRate::Hz5.to_bitcode(), 0b110);
    assert_eq!(OutputDataRate::Hz10.to_bitcode(), 0b1000);
    assert_eq!(OutputDataRate::Hz20.to_bitcode(), 0b1010);
    assert_eq!(OutputDataRate::Hz40.to_bitcode(), 0b1100);
    assert_eq!(OutputDataRate::Hz80.to_bitcode(), 0b1110);
}

#[test]
fn codes_of_one_setting_differ() {
    for (i, a) in AXIS_MODES.iter().enumerate() {
        for (j, b) in AXIS_MODES.iter().enumerate() {
            assert_eq!(a.to_bitcode() == b.to_bitcode(), i == j);
        }
    }
    for (i, a) in DATA_RATES.iter().enumerate() {
        for (j, b) in DATA_RATES.iter().enumerate() {
            assert_eq!(a.to_bitcode() == b.to_bitcode(), i == j);
        }
    }
}

#[test]
fn register_map() {
    assert_eq!(WHO_AM_I, 0x0F);
    assert_eq!(CTRL_REG1, 0x20);
    assert_eq!(CTRL_REG2, 0x21);
    assert_eq!(CTRL_REG3, 0x22);
    assert_eq!(CTRL_REG4, 0x23);
    assert_eq!(STATUS_REG, 0x27);
    assert_eq!(
        [OUT_X_L, OUT_X_H, OUT_Y_L, OUT_Y_H, OUT_Z_L, OUT_Z_H],
        [0x28, 0x29, 0x2A, 0x2B, 0x2C, 0x2D]
    );
}

#[test]
fn field_masks() {
    assert_eq!(XY_MODE_MASK, 0b0110_0000);
    assert_eq!(DATA_RATE_MASK, 0b0001_1110);
    assert_eq!(Z_MODE_MASK, 0b0000_1100);
}

#[test]
fn high_performance_at_ten_hertz_is_0x50() {
    let mode: u8 = AxisMode::HighPerformance.to_bitcode();
    let rate: u8 = OutputDataRate::Hz10.to_bitcode();
    let value: u8 = xy_mode_and_data_rate_value(AxisMode::HighPerformance, OutputDataRate::Hz10);
    assert_eq!(value, (mode << 5) | (rate << 1));
    assert_eq!(value, 0b0101_0000);
}

#[test]
fn control_register_one_for_every_pair() {
    for mode in AXIS_MODES {
        for rate in DATA_RATES {
            let value: u8 = xy_mode_and_data_rate_value(mode, rate);
            assert_eq!(value, 32 * mode.to_bitcode() + 2 * rate.to_bitcode());
            assert_eq!((value >> 5) & 0b11, mode.to_bitcode());
            assert_eq!((value >> 1) & 0b1111, rate.to_bitcode());
            assert_eq!(value & 0b1000_0001, 0);
        }
    }
}

#[test]
fn control_register_one_extremes() {
    assert_eq!(
        xy_mode_and_data_rate_value(AxisMode::LowPower, OutputDataRate::MilliHz625),
        0b0000_0000
    );
    assert_eq!(
        xy_mode_and_data_rate_value(AxisMode::UltraPerformance, OutputDataRate::Hz80),
        0b0111_1100
    );
    assert_eq!(
        xy_mode_and_data_rate_value(AxisMode::LowPower, OutputDataRate::Fast),
        0b0000_0010
    );
}

#[test]
fn single_field_values() {
    assert_eq!(xy_mode_value(AxisMode::LowPower), 0b0000_0000);
    assert_eq!(xy_mode_value(AxisMode::MediumPerformance), 0b0010_0000);
    assert_eq!(xy_mode_value(AxisMode::HighPerformance), 0b0100_0000);
    assert_eq!(xy_mode_value(AxisMode::UltraPerformance), 0b0110_0000);
    assert_eq!(data_rate_value(OutputDataRate::Fast), 0b0000_0010);
    assert_eq!(data_rate_value(OutputDataRate::Hz10), 0b0001_0000);
    assert_eq!(data_rate_value(OutputDataRate::Hz80), 0b0001_1100);
    assert_eq!(z_mode_value(AxisMode::LowPower), 0b0000_0000);
    assert_eq!(z_mode_value(AxisMode::MediumPerformance), 0b0000_0100);
    assert_eq!(z_mode_value(AxisMode::HighPerformance), 0b0000_1000);
    assert_eq!(z_mode_value(AxisMode::UltraPerformance), 0b0000_1100);
}

#[test]
fn replace_sets_the_field_and_keeps_the_rest() {
    assert_eq!(replace(0b1111_1111, XY_MODE_MASK, 0b0000_0000), 0b1001_1111);
    assert_eq!(replace(0b0000_0000, XY_MODE_MASK, 0b0110_0000), 0b0110_0000);
    assert_eq!(replace(0b1001_1111, XY_MODE_MASK, 0b0100_0000), 0b1101_1111);
    assert_eq!(replace(0b1111_1111, DATA_RATE_MASK, 0b0001_0000), 0b1111_0001);
    assert_eq!(replace(0b0110_0001, DATA_RATE_MASK, 0b0001_1100), 0b0111_1101);
}

#[test]
fn replacing_one_field_after_the_other_sets_both() {
    for mode in AXIS_MODES {
        for rate in DATA_RATES {
            let both: u8 = xy_mode_and_data_rate_value(mode, rate);
            let xy_first: u8 = replace(
                replace(0, XY_MODE_MASK, xy_mode_value(mode)),
                DATA_RATE_MASK,
                data_rate_value(rate),
            );
            let rate_first: u8 = replace(
                replace(0, DATA_RATE_MASK, data_rate_value(rate)),
                XY_MODE_MASK,
                xy_mode_value(mode),
            );
            assert_eq!(xy_first, both);
            assert_eq!(rate_first, both);
        }
    }
}
