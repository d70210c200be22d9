//! Function commands of the DS18B20, as the datasheet numbers them.

use vstd::prelude::*;

verus! {

/// Starts a temperature conversion.
pub const CONVERT_TEMP: u8 = 0x44;

/// Writes the two alarm thresholds and the configuration register to the scratchpad.
pub const WRITE_SCRATCHPAD: u8 = 0x4E;

/// Reads the nine bytes of the scratchpad.
pub const READ_SCRATCHPAD: u8 = 0xBE;

/// Copies the thresholds and the configuration register from the scratchpad to the EEPROM.
pub const COPY_SCRATCHPAD: u8 = 0x48;

/// Loads the thresholds and the configuration register from the EEPROM into the scratchpad.
pub const RECALL_EEPROM: u8 = 0xB8;

} // verus!
