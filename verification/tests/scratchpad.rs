use ds18b20::to_signed_byte;
use ds18b20::to_unsigned_byte;
use ds18b20::Resolution;
use ds18b20::SensorData;

#[test]
fn power_on_scratchpad_decodes_to_85_degrees() {
    let scratchpad = [0x50, 0x05, 0x4B, 0xC6, 0x7F, 0xFF, 0x0C, 0x10, 0xD7];
    let data = SensorData::from_scratchpad(&scratchpad).unwrap();
    assert_eq!(data.raw_temperature, 0x0550);
    assert_eq!(data.raw_temperature, 1360);
    assert_eq!(data.resolution, Resolution::Bits12);
    assert_eq!(data.alarm_temp_high, 0x4B);
    assert_eq!(data.alarm_temp_low, -58);
    assert_eq!(data.temperature_divisor(), 16);
    assert_eq!(data.temperature_sixteenths(), 1360);
    let temperature = data.raw_temperature as f32 / data.temperature_divisor() as f32;
    assert_eq!(temperature, 85.0);
}

#[test]
fn decode_reads_each_field_from_its_byte() {
    let scratchpad = [0x91, 0x01, 0x7F, 0x80, 0x1F, 0xAA, 0xBB, 0xCC, 0xDD];
    assert_eq!(
        SensorData::from_scratchpad(&scratchpad),
        Some(SensorData {
            raw_temperature: 0x0191,
            resolution: Resolution::Bits9,
            alarm_temp_low: -128,
            alarm_temp_high: 127,
        })
    );
}

#[test]
fn decode_does_not_look_at_the_checksum_byte() {
    let mut scratchpad = [0x20, 0x03, 0x00, 0xFF, 0x5F, 0xFF, 0x10, 0x10, 0xC7];
    let decoded = SensorData::from_scratchpad(&scratchpad);
    scratchpad[8] = 0x00;
    assert_eq!(SensorData::from_scratchpad(&scratchpad), decoded);
    assert_eq!(decoded.unwrap().alarm_temp_low, -1);
    assert_eq!(decoded.unwrap().alarm_temp_high, 0);
}

#[test]
fn unknown_config_register_decodes_to_nothing() {
    for config in [0x00, 0x1E, 0x7E, 0x80, 0x9F, 0xFF] {
        let scratchpad = [0x50, 0x05, 0x4B, 0x46, config, 0xFF, 0x0C, 0x10, 0x00];
        assert_eq!(SensorData::from_scratchpad(&scratchpad), None);
    }
}

#[test]
fn temperature_scales_with_the_resolution() {
    let cases = [
        (Resolution::Bits12, 16, 400, 25.0_f32),
        (Resolution::Bits11, 8, 800, 50.0),
        (Resolution::Bits10, 4, 1600, 100.0),
        (Resolution::Bits9, 2, 3200, 200.0),
    ];
    for (resolution, divisor, sixteenths, degrees) in cases {
        let data = SensorData {
            raw_temperature: 400,
            resolution,
            alarm_temp_low: 0,
            alarm_temp_high: 0,
        };
        assert_eq!(data.temperature_divisor(), divisor);
        assert_eq!(data.temperature_sixteenths(), sixteenths);
        assert_eq!(data.raw_temperature as f32 / data.temperature_divisor() as f32, degrees);
        assert_eq!(data.temperature_sixteenths() as f32 / 16.0, degrees);
    }
}

#[test]
fn fractions_of_a_degree_are_kept() {
    let data = SensorData {
        raw_temperature: 0x0191,
        resolution: Resolution::Bits12,
        alarm_temp_low: 0,
        alarm_temp_high: 0,
    };
    assert_eq!(data.temperature_sixteenths(), 401);
    assert_eq!(data.raw_temperature as f32 / data.temperature_divisor() as f32, 25.0625);
}

#[test]
fn readings_below_zero_are_taken_as_unsigned() {
    let scratchpad = [0x5E, 0xFF, 0x4B, 0x46, 0x7F, 0xFF, 0x02, 0x10, 0xB6];
    let data = SensorData::from_scratchpad(&scratchpad).unwrap();
    assert_eq!(data.raw_temperature, 0xFF5E);
    assert_eq!(data.temperature_sixteenths(), 65374);
    assert_eq!(data.raw_temperature as f32 / data.temperature_divisor() as f32, 4085.875);
}

#[test]
fn largest_reading_at_the_coarsest_resolution_does_not_overflow() {
    let data = SensorData {
        raw_temperature: u16::MAX,
        resolution: Resolution::Bits9,
        alarm_temp_low: 0,
        alarm_temp_high: 0,
    };
    assert_eq!(data.temperature_sixteenths(), 65535 * 8);
}

#[test]
fn signed_and_unsigned_bytes_share_their_bits() {
    assert_eq!(to_unsigned_byte(0), 0);
    assert_eq!(to_unsigned_byte(75), 0x4B);
    assert_eq!(to_unsigned_byte(127), 0x7F);
    assert_eq!(to_unsigned_byte(-1), 0xFF);
    assert_eq!(to_unsigned_byte(-58), 0xC6);
    assert_eq!(to_unsigned_byte(-128), 0x80);
    assert_eq!(to_signed_byte(0xC6), -58);
    assert_eq!(to_signed_byte(0x80), -128);
    assert_eq!(to_signed_byte(0x7F), 127);
}

#[test]
fn byte_conversions_agree_with_the_native_ones() {
    for byte in 0..=255u8 {
        assert_eq!(to_signed_byte(byte), i8::from_le_bytes([byte]));
        assert_eq!(to_unsigned_byte(to_signed_byte(byte)), byte);
    }
    for value in i8::MIN..=i8::MAX {
        assert_eq!(to_unsigned_byte(value), value.to_ne_bytes()[0]);
        assert_eq!(to_signed_byte(to_unsigned_byte(value)), value);
    }
}
