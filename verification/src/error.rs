//! The ways in which an operation on the sensor can fail.

use vstd::prelude::*;

verus! {

/// Why an operation failed. `E` is the error of the bus that carries it.
#[derive(Debug, PartialEq, Eq)]
pub enum Error<E> {
    /// The bus reported a failure; it is handed on unchanged.
    Transport(E),
    /// The address does not belong to a DS18B20.
    FamilyCodeMismatch,
    /// The scratchpad arrived damaged: its checksum does not match, or its
    /// configuration register selects no resolution.
    CrcMismatch,
    /// The sensor did not signal the end of an EEPROM recall in time.
    Timeout,
}

} // verus!
