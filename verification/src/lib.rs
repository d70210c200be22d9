//! A driver for the DS18B20 one-wire temperature sensor.
//!
//! The driver decides what is sent to the sensor and what is made of its
//! answers; it does not move the wire. Every operation is handed out as a
//! [`Step`], which the owner of the bus carries out turn by turn.

pub mod commands;
mod device;
mod error;
pub mod onewire;
mod operations;
mod protocol;
mod resolution;
mod scratchpad;

pub use device::Ds18b20;
pub use error::Error;
pub use operations::read_data;
pub use operations::read_scratchpad;
pub use operations::recall_from_eeprom;
pub use operations::save_to_eeprom;
pub use operations::simultaneous_recall_from_eeprom;
pub use operations::simultaneous_save_to_eeprom;
pub use operations::start_simultaneous_temp_measurement;
pub use protocol::recall_poll_limit;
pub use protocol::recall_polls;
pub use protocol::recall_slots;
pub use protocol::Finale;
pub use protocol::Output;
pub use protocol::Pending;
pub use protocol::Polling;
pub use protocol::Reading;
pub use protocol::Readout;
pub use protocol::Request;
pub use protocol::Step;
pub use protocol::EEPROM_WRITE_MILLIS;
pub use protocol::RECALL_TIMEOUT_MICROS;
pub use resolution::lemma_config_register_decodes_uniquely;
pub use resolution::lemma_config_register_round_trip;
pub use resolution::Resolution;
pub use scratchpad::lemma_byte_round_trip;
pub use scratchpad::little_endian;
pub use scratchpad::signed_byte;
pub use scratchpad::to_signed_byte;
pub use scratchpad::to_unsigned_byte;
pub use scratchpad::unsigned_byte;
pub use scratchpad::SensorData;

use vstd::prelude::*;

verus! {

/// The family code that the address of every DS18B20 begins with.
pub const FAMILY_CODE: u8 = 0x28;

} // verus!
