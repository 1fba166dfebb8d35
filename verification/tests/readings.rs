use lis3mdl::measurement::{axis_from_bytes, decode, is_data_ready, DATA_READY};

#[test]
fn data_ready_flag_is_bit_three() {
    assert_eq!(DATA_READY, 0b1000);
    assert!(is_data_ready(0b0000_1000));
    assert!(is_data_ready(0b1111_1111));
    assert!(!is_data_ready(0b0000_0000));
    assert!(!is_data_ready(0b1111_0111));
    assert!(!is_data_ready(0b0000_0010));
}

#[test]
fn data_ready_for_every_status() {
    for status in 0..=u8::MAX {
        assert_eq!(is_data_ready(status), (status / 8) % 2 == 1);
    }
}

#[test]
fn axis_reading_is_little_endian_and_signed() {
    assert_eq!(axis_from_bytes(0x01, 0x00), 1);
    assert_eq!(axis_from_bytes(0x00, 0x01), 256);
    assert_eq!(axis_from_bytes(0x34, 0x12), 0x1234);
    assert_eq!(axis_from_bytes(0xFF, 0xFF), -1);
    assert_eq!(axis_from_bytes(0x00, 0x80), -32768);
    assert_eq!(axis_from_bytes(0xFF, 0x7F), 32767);
    assert_eq!(axis_from_bytes(0x00, 0x00), 0);
    assert_eq!(axis_from_bytes(0xFE, 0xFF), -2);
}

#[test]
fn axis_reading_agrees_with_std_for_every_pair() {
    for low in 0..=u8::MAX {
        for high in 0..=u8::MAX {
            assert_eq!(axis_from_bytes(low, high), i16::from_le_bytes([low, high]));
        }
    }
}

#[test]
fn sample_is_x_then_y_then_z() {
    assert_eq!(decode(&[0x01, 0x00, 0xFF, 0xFF, 0x00, 0x80]), (1, -1, -32768));
    assert_eq!(decode(&[0x01, 0x00, 0x02, 0x00, 0x03, 0x00]), (1, 2, 3));
    assert_eq!(decode(&[0x00, 0x01, 0x00, 0x02, 0x00, 0x03]), (256, 512, 768));
    assert_eq!(decode(&[0; 6]), (0, 0, 0));
    assert_eq!(decode(&[0xFF; 6]), (-1, -1, -1));
}
