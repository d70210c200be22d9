//! The layout of the sensor's nine-byte scratchpad and what it decodes to.

use crate::resolution::Resolution;
use vstd::prelude::*;

verus! {

/// The byte with the same bit pattern as a signed value: the value itself
/// where it is not negative, and 256 more where it is.
pub open spec fn unsigned_byte(value: i8) -> u8 {
    if value >= 0 {
        value as u8
    } else {
        (value + 256) as u8
    }
}

/// The signed value with the same bit pattern as a byte: the byte itself
/// below 128, and 256 less from there on.
pub open spec fn signed_byte(byte: u8) -> i8 {
    if byte < 128 {
        byte as i8
    } else {
        (byte - 256) as i8
    }
}

/// The 16-bit number that two bytes spell, the low byte first.
pub open spec fn little_endian(low: u8, high: u8) -> u16 {
    (low + 256 * high) as u16
}

/// Reinterprets a signed value as the byte with the same bit pattern.
pub fn to_unsigned_byte(value: i8) -> (byte: u8)
    ensures
        byte == unsigned_byte(value),
{
    if value >= 0 {
        value as u8
    } else {
        (value as i16 + 256) as u8
    }
}

/// Reinterprets a byte as the signed value with the same bit pattern.
pub fn to_signed_byte(byte: u8) -> (value: i8)
    ensures
        value == signed_byte(byte),
{
    if byte < 128 {
        byte as i8
    } else {
        (byte as i16 - 256) as i8
    }
}

/// No information is lost between the two readings of a byte.
pub proof fn lemma_byte_round_trip(value: i8, byte: u8)
    ensures
        signed_byte(unsigned_byte(value)) == value,
        unsigned_byte(signed_byte(byte)) == byte,
{
}

/// Everything that one read of the scratchpad tells about the sensor.
///
/// The temperature is kept as the sensor stores it: `raw_temperature` counts
/// steps of which `resolution.steps_per_degree()` make one degree Celsius, so
/// the temperature in degrees is the quotient of the two. A freshly powered
/// sensor reports 85 degrees.
#[derive(Copy, Clone, Debug, PartialEq, Eq)]
pub struct SensorData {
    /// The temperature register, read as an unsigned 16-bit number.
    pub raw_temperature: u16,
    /// The resolution that the sensor is configured for.
    pub resolution: Resolution,
    /// Below this temperature, in whole degrees, the sensor raises its alarm.
    pub alarm_temp_low: i8,
    /// Above this temperature, in whole degrees, the sensor raises its alarm.
    pub alarm_temp_high: i8,
}

impl SensorData {
    /// What a scratchpad decodes to: the temperature register from bytes 0
    /// and 1, the high and low alarm thresholds from bytes 2 and 3, and the
    /// resolution from the configuration register in byte 4. There is nothing
    /// to decode where byte 4 selects no resolution.
    pub open spec fn of_scratchpad(scratchpad: Seq<u8>) -> Option<SensorData>
        recommends
            scratchpad.len() == 9,
    {
        match Resolution::of_config_register(scratchpad[4]) {
            Some(resolution) => Some(
                SensorData {
                    raw_temperature: little_endian(scratchpad[0], scratchpad[1]),
                    resolution,
                    alarm_temp_low: signed_byte(scratchpad[3]),
                    alarm_temp_high: signed_byte(scratchpad[2]),
                },
            ),
            None => None,
        }
    }

    /// The temperature in sixteenths of a degree Celsius.
    pub open spec fn sixteenths(self) -> int {
        self.raw_temperature * 16 / self.resolution.steps_per_degree()
    }

    /// Decodes a scratchpad whose checksum has been found correct.
    pub fn from_scratchpad(scratchpad: &[u8; 9]) -> (data: Option<SensorData>)
        ensures
            data == SensorData::of_scratchpad(scratchpad@),
    {
        match Resolution::from_config_register(scratchpad[4]) {
            Some(resolution) => {
                let low: u16 = scratchpad[0] as u16;
                let high: u16 = scratchpad[1] as u16;
                Some(
                    SensorData {
                        raw_temperature: high * 256 + low,
                        resolution,
                        alarm_temp_low: to_signed_byte(scratchpad[3]),
                        alarm_temp_high: to_signed_byte(scratchpad[2]),
                    },
                )
            },
            None => None,
        }
    }

    /// The number by which `raw_temperature` is divided to give degrees
    /// Celsius.
    pub fn temperature_divisor(&self) -> (divisor: u16)
        ensures
            divisor == self.resolution.steps_per_degree(),
    {
        self.resolution.temperature_divisor()
    }

    /// The temperature in sixteenths of a degree Celsius, which every
    /// resolution can express exactly.
    pub fn temperature_sixteenths(&self) -> (sixteenths: u32)
        ensures
            sixteenths == self.sixteenths(),
            sixteenths * self.resolution.steps_per_degree() == self.raw_temperature * 16,
    {
        let raw: u32 = self.raw_temperature as u32;
        let sixteenths: u32 = match self.resolution {
            Resolution::Bits9 => raw * 8,
            Resolution::Bits10 => raw * 4,
            Resolution::Bits11 => raw * 2,
            Resolution::Bits12 => raw,
        };
        let ghost steps = self.resolution.steps_per_degree();
        assert(sixteenths * steps == raw * 16) by (nonlinear_arith)
            requires
                (steps == 2 && sixteenths == raw * 8) || (steps == 4 && sixteenths == raw * 4) || (
                steps == 8 && sixteenths == raw * 2) || (steps == 16 && sixteenths == raw),
        ;
        sixteenths
    }
}

} // verus!
