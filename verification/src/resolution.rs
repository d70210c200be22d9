//! The four measurement resolutions of the sensor.

use crate::protocol::Finale;
use crate::protocol::Operation;
use crate::protocol::Request;
use crate::protocol::Step;
use vstd::prelude::*;

verus! {

/// How many bits of the temperature register a conversion fills.
#[derive(Copy, Clone, Debug, PartialEq, Eq, Structural)]
pub enum Resolution {
    Bits9,
    Bits10,
    Bits11,
    Bits12,
}

impl Resolution {
    /// The value of the configuration register that selects this resolution.
    pub open spec fn config_register(self) -> u8 {
        match self {
            Resolution::Bits9 => 0x1F,
            Resolution::Bits10 => 0x3F,
            Resolution::Bits11 => 0x5F,
            Resolution::Bits12 => 0x7F,
        }
    }

    /// The resolution that a configuration register value selects: the one
    /// resolution whose register value it is, if there is one.
    pub open spec fn of_config_register(config: u8) -> Option<Resolution> {
        if config == 0x1F {
            Some(Resolution::Bits9)
        } else if config == 0x3F {
            Some(Resolution::Bits10)
        } else if config == 0x5F {
            Some(Resolution::Bits11)
        } else if config == 0x7F {
            Some(Resolution::Bits12)
        } else {
            None
        }
    }

    /// The longest a conversion at this resolution takes, in milliseconds.
    pub open spec fn measurement_millis(self) -> int {
        match self {
            Resolution::Bits9 => 94,
            Resolution::Bits10 => 188,
            Resolution::Bits11 => 375,
            Resolution::Bits12 => 750,
        }
    }

    /// The number of temperature register steps in one degree Celsius.
    pub open spec fn steps_per_degree(self) -> int {
        match self {
            Resolution::Bits9 => 2,
            Resolution::Bits10 => 4,
            Resolution::Bits11 => 8,
            Resolution::Bits12 => 16,
        }
    }

    /// The longest a conversion at this resolution takes, in milliseconds.
    pub fn max_measurement_time_millis(&self) -> (millis: u16)
        ensures
            millis == self.measurement_millis(),
    {
        match self {
            Resolution::Bits9 => 94,
            Resolution::Bits10 => 188,
            Resolution::Bits11 => 375,
            Resolution::Bits12 => 750,
        }
    }

    /// Lets pass the time that a conversion at this resolution takes at most.
    pub fn delay_for_measurement_time<E>(&self) -> (step: Step<E>)
        ensures
            step.opens(
                seq![Request::DelayMillis(self.measurement_millis() as u64)],
                Finale::Done,
            ),
    {
        Operation::Delay { millis: self.max_measurement_time_millis() as u64 }.begin()
    }

    /// Decodes a configuration register value. A value that selects no
    /// resolution gives `None`.
    pub fn from_config_register(config: u8) -> (resolution: Option<Resolution>)
        ensures
            resolution == Resolution::of_config_register(config),
            resolution matches Some(r) ==> r.config_register() == config,
            resolution is None ==> forall|r: Resolution| r.config_register() != config,
    {
        match config {
            0x1F => Some(Resolution::Bits9),
            0x3F => Some(Resolution::Bits10),
            0x5F => Some(Resolution::Bits11),
            0x7F => Some(Resolution::Bits12),
            _ => None,
        }
    }

    /// The value of the configuration register that selects this resolution.
    pub fn to_config_register(&self) -> (config: u8)
        ensures
            config == self.config_register(),
    {
        match self {
            Resolution::Bits9 => 0x1F,
            Resolution::Bits10 => 0x3F,
            Resolution::Bits11 => 0x5F,
            Resolution::Bits12 => 0x7F,
        }
    }

    /// The number by which a raw temperature reading taken at this resolution
    /// is divided to give degrees Celsius.
    pub fn temperature_divisor(&self) -> (divisor: u16)
        ensures
            divisor == self.steps_per_degree(),
    {
        match self {
            Resolution::Bits9 => 2,
            Resolution::Bits10 => 4,
            Resolution::Bits11 => 8,
            Resolution::Bits12 => 16,
        }
    }
}

/// Decoding undoes encoding: the register value of a resolution decodes to
/// that resolution.
pub proof fn lemma_config_register_round_trip(resolution: Resolution)
    ensures
        Resolution::of_config_register(resolution.config_register()) == Some(resolution),
{
}

/// Encoding undoes decoding: a register value that decodes to a resolution is
/// the register value of that resolution, so no two resolutions share one.
pub proof fn lemma_config_register_decodes_uniquely(config: u8, resolution: Resolution)
    ensures
        Resolution::of_config_register(config) == Some(resolution)
            <==> resolution.config_register() == config,
{
}

} // verus!
