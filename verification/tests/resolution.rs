use ds18b20::Error;
use ds18b20::Output;
use ds18b20::Request;
use ds18b20::Resolution;
use ds18b20::Step;

const ALL: [Resolution; 4] =
    [Resolution::Bits9, Resolution::Bits10, Resolution::Bits11, Resolution::Bits12];

#[test]
fn max_measurement_times_are_those_of_the_datasheet() {
    assert_eq!(Resolution::Bits9.max_measurement_time_millis(), 94);
    assert_eq!(Resolution::Bits10.max_measurement_time_millis(), 188);
    assert_eq!(Resolution::Bits11.max_measurement_time_millis(), 375);
    assert_eq!(Resolution::Bits12.max_measurement_time_millis(), 750);
}

#[test]
fn config_register_values() {
    assert_eq!(Resolution::Bits9.to_config_register(), 0b0001_1111);
    assert_eq!(Resolution::Bits10.to_config_register(), 0b0011_1111);
    assert_eq!(Resolution::Bits11.to_config_register(), 0b0101_1111);
    assert_eq!(Resolution::Bits12.to_config_register(), 0b0111_1111);
}

#[test]
fn config_register_decodes_the_four_known_values() {
    assert_eq!(Resolution::from_config_register(0x1F), Some(Resolution::Bits9));
    assert_eq!(Resolution::from_config_register(0x3F), Some(Resolution::Bits10));
    assert_eq!(Resolution::from_config_register(0x5F), Some(Resolution::Bits11));
    assert_eq!(Resolution::from_config_register(0x7F), Some(Resolution::Bits12));
}

#[test]
fn config_register_round_trip() {
    for resolution in ALL {
        assert_eq!(
            Resolution::from_config_register(resolution.to_config_register()),
            Some(resolution)
        );
    }
}

#[test]
fn every_other_config_register_value_decodes_to_nothing() {
    let mut known = 0;
    for config in 0..=255u8 {
        match Resolution::from_config_register(config) {
            Some(resolution) => {
                assert_eq!(resolution.to_config_register(), config);
                known += 1;
            }
            None => assert!(ALL.iter().all(|r| r.to_config_register() != config)),
        }
    }
    assert_eq!(known, 4);
}

#[test]
fn config_register_ignores_no_bit() {
    assert_eq!(Resolution::from_config_register(0x00), None);
    assert_eq!(Resolution::from_config_register(0x60), None);
    assert_eq!(Resolution::from_config_register(0x7E), None);
    assert_eq!(Resolution::from_config_register(0xFF), None);
}

#[test]
fn temperature_divisors() {
    assert_eq!(Resolution::Bits9.temperature_divisor(), 2);
    assert_eq!(Resolution::Bits10.temperature_divisor(), 4);
    assert_eq!(Resolution::Bits11.temperature_divisor(), 8);
    assert_eq!(Resolution::Bits12.temperature_divisor(), 16);
}

#[test]
fn delay_for_measurement_time_asks_for_one_delay() {
    for resolution in ALL {
        let step: Step<()> = resolution.delay_for_measurement_time();
        let pending = match step {
            Step::Perform(request, pending) => {
                let millis = resolution.max_measurement_time_millis() as u64;
                assert_eq!(request, Request::DelayMillis(millis));
                pending
            }
            other => panic!("expected a delay, got {:?}", other),
        };
        assert_eq!(pending.resume::<()>(Ok(())), Step::Finished(Ok(Output::Done)));
    }
}

#[test]
fn delay_for_twelve_bits_is_750_milliseconds() {
    let step: Step<()> = Resolution::Bits12.delay_for_measurement_time();
    assert!(matches!(step, Step::Perform(Request::DelayMillis(750), _)));
    let step: Step<()> = Resolution::Bits9.delay_for_measurement_time();
    assert!(matches!(step, Step::Perform(Request::DelayMillis(94), _)));
    let none: Option<Error<()>> = None;
    assert!(none.is_none());
}
