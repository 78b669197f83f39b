use si7021::{
    calculate_relative_humidity, calculate_temperature, decode_response, Measurement,
    MEASURE_RELATIVE_HUMIDITY, MEASURE_TEMPERATURE, READ_TEMPERATURE, RESPONSE_LEN,
    SI7021_I2C_ADDRESS,
};

#[test]
fn bus_address_is_0x40() {
    assert_eq!(SI7021_I2C_ADDRESS, 0x40);
}

#[test]
fn command_bytes_match_the_wire_protocol() {
    assert_eq!(MEASURE_RELATIVE_HUMIDITY, 0xE5);
    assert_eq!(MEASURE_TEMPERATURE, 0xE3);
    assert_eq!(READ_TEMPERATURE, 0xE0);
    assert_eq!(Measurement::RelativeHumidity.command(), 0xE5);
    assert_eq!(Measurement::Temperature.command(), 0xE3);
    assert_eq!(Measurement::LastTemperature.command(), 0xE0);
}

#[test]
fn a_response_has_two_bytes() {
    assert_eq!(RESPONSE_LEN, 2);
}

#[test]
fn response_is_decoded_big_endian() {
    assert_eq!(decode_response([0x12, 0x34]), 0x1234);
    assert_eq!(decode_response([0xFF, 0x00]), 0xFF00);
    assert_eq!(decode_response([0x00, 0xFF]), 0x00FF);
    assert_eq!(decode_response([0x00, 0x00]), 0);
    assert_eq!(decode_response([0xFF, 0xFF]), 65535);
    assert_eq!(decode_response([0x86, 0x66]), 34406);
}

#[test]
fn decoding_inverts_big_endian_encoding_of_every_word() {
    for raw in 0..=u16::MAX {
        assert_eq!(decode_response(raw.to_be_bytes()), raw);
    }
}

#[test]
fn low_bits_of_the_raw_reading_are_not_masked() {
    assert_eq!(decode_response([0x00, 0x03]), 3);
    assert_ne!(
        Measurement::Temperature.calibrate(decode_response([0x66, 0x03])),
        Measurement::Temperature.calibrate(decode_response([0x66, 0x00]))
    );
}

#[test]
fn each_measurement_uses_its_own_transfer_function() {
    for raw in [0_u16, 1, 3_146, 34_406, 55_575, 65_535] {
        assert_eq!(
            Measurement::RelativeHumidity.calibrate(raw),
            calculate_relative_humidity(raw)
        );
        assert_eq!(Measurement::Temperature.calibrate(raw), calculate_temperature(raw));
        assert_eq!(Measurement::LastTemperature.calibrate(raw), calculate_temperature(raw));
    }
}
