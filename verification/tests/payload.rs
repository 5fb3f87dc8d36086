use vesta::payload::{FRAME_LEN, FRAME_MAGIC, FRAME_VERSION, SensorFrame, encode};

#[test]
fn matches_shared_receiver_fixture() {
    let measurement = SensorFrame {
        status: 0xb0,
        temperature: -1_234,
        pressure: 101_325,
        humidity: 45_678,
        gas_resistance: 987_654,
        temperature_adc: 519_888,
        pressure_adc: 364_576,
        humidity_adc: 30_000,
        gas_resistance_adc: 512,
        gas_range: 8,
        gas_index: 2,
        measurement_index: 3,
        heater_resistance: 4,
        heater_current: 5,
        gas_wait: 6,
    };

    assert_eq!(
        encode(0x0102_0304_0506_0708, 0x0a0b_0c0d, &measurement),
        [
            0x56, 0x53, 0x01, 0xb0, 0x01, 0x02, 0x03, 0x04, 0x05, 0x06, 0x07, 0x08, 0x0a, 0x0b,
            0x0c, 0x0d, 0xfb, 0x2e, 0x00, 0x01, 0x8b, 0xcd, 0x00, 0x00, 0xb2, 0x6e, 0x00, 0x0f,
            0x12, 0x06, 0x00, 0x07, 0xee, 0xd0, 0x00, 0x05, 0x90, 0x20, 0x75, 0x30, 0x02, 0x00,
            0x08, 0x02, 0x03, 0x04, 0x05, 0x06,
        ]
    );
}

#[test]
fn preserves_signed_and_unsigned_edge_values() {
    let minimum = SensorFrame {
        status: 0,
        temperature: i16::MIN,
        pressure: 0,
        humidity: 0,
        gas_resistance: 0,
        temperature_adc: 0,
        pressure_adc: 0,
        humidity_adc: 0,
        gas_resistance_adc: 0,
        gas_range: 0,
        gas_index: 0,
        measurement_index: 0,
        heater_resistance: 0,
        heater_current: 0,
        gas_wait: 0,
    };
    let frame = encode(0, 0, &minimum);
    assert_eq!(&frame[0..4], &[b'V', b'S', 1, 0]);
    assert_eq!(&frame[16..18], &[0x80, 0x00]);
    assert!(frame[4..16].iter().all(|byte| *byte == 0));
    assert!(frame[18..].iter().all(|byte| *byte == 0));

    let maximum = SensorFrame {
        status: u8::MAX,
        temperature: i16::MAX,
        pressure: u32::MAX,
        humidity: u32::MAX,
        gas_resistance: u32::MAX,
        temperature_adc: u32::MAX,
        pressure_adc: u32::MAX,
        humidity_adc: u16::MAX,
        gas_resistance_adc: u16::MAX,
        gas_range: u8::MAX,
        gas_index: u8::MAX,
        measurement_index: u8::MAX,
        heater_resistance: u8::MAX,
        heater_current: u8::MAX,
        gas_wait: u8::MAX,
    };
    let frame = encode(u64::MAX, u32::MAX, &maximum);
    assert_eq!(&frame[0..3], &[b'V', b'S', 1]);
    assert_eq!(frame[3], u8::MAX);
    assert!(frame[4..16].iter().all(|byte| *byte == u8::MAX));
    assert_eq!(&frame[16..18], &[0x7f, 0xff]);
    assert!(frame[18..].iter().all(|byte| *byte == u8::MAX));
}

#[test]
fn frames_differ_whenever_a_value_does() {
    let base = SensorFrame {
        status: 1,
        temperature: -1,
        pressure: 2,
        humidity: 3,
        gas_resistance: 4,
        temperature_adc: 5,
        pressure_adc: 6,
        humidity_adc: 7,
        gas_resistance_adc: 8,
        gas_range: 9,
        gas_index: 10,
        measurement_index: 11,
        heater_resistance: 12,
        heater_current: 13,
        gas_wait: 14,
    };
    let frame = encode(1, 2, &base);
    assert_eq!(frame.len(), FRAME_LEN);
    assert_eq!(&frame[..2], &FRAME_MAGIC);
    assert_eq!(frame[2], FRAME_VERSION);
    let mut changed = base;
    changed.temperature = 1;
    assert_ne!(encode(1, 2, &changed), frame);
    changed = base;
    changed.pressure_adc = 0x0600_0000;
    assert_ne!(encode(1, 2, &changed), frame);
    assert_ne!(encode(2, 2, &base), frame);
    assert_ne!(encode(1, 3, &base), frame);
}
