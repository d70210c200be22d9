//! The operations that need no device: those that address every sensor on
//! the bus at once, and those that take the address as it comes.

use crate::commands::CONVERT_TEMP;
use crate::commands::COPY_SCRATCHPAD;
use crate::commands::READ_SCRATCHPAD;
use crate::commands::RECALL_EEPROM;
use crate::protocol::Finale;
use crate::protocol::Operation;
use crate::protocol::Readout;
use crate::protocol::Request;
use crate::protocol::Step;
use crate::protocol::EEPROM_WRITE_MILLIS;
use one_wire_bus::Address;
use vstd::prelude::*;

verus! {

/// Starts a temperature conversion on every device on the bus at once.
pub fn start_simultaneous_temp_measurement<E>() -> (step: Step<E>)
    ensures
        step.opens(
            seq![Request::Reset, Request::SkipAddress, Request::WriteByte(CONVERT_TEMP)],
            Finale::Done,
        ),
{
    Operation::StartSimultaneousMeasurement.begin()
}

/// Loads the EEPROM of every device on the bus into its scratchpad.
pub fn simultaneous_recall_from_eeprom<E>() -> (step: Step<E>)
    ensures
        step.opens(
            seq![Request::SendCommand { command: RECALL_EEPROM, address: None }],
            Finale::Poll,
        ),
{
    recall_from_eeprom(None)
}

/// Copies the scratchpad of every device on the bus to its EEPROM.
pub fn simultaneous_save_to_eeprom<E>() -> (step: Step<E>)
    ensures
        step.opens(
            seq![
                Request::SendCommand { command: COPY_SCRATCHPAD, address: None },
                Request::DelayMillis(EEPROM_WRITE_MILLIS),
            ],
            Finale::Done,
        ),
{
    save_to_eeprom(None)
}

/// Reads the scratchpad of the device with this address and hands back its
/// nine bytes, provided that their checksum is correct.
pub fn read_scratchpad<E>(address: &Address) -> (step: Step<E>)
    ensures
        step.opens(
            seq![
                Request::Reset,
                Request::MatchAddress(*address),
                Request::WriteByte(READ_SCRATCHPAD),
            ],
            Finale::Read(Readout::Scratchpad),
        ),
{
    Operation::Read { address: *address, readout: Readout::Scratchpad }.begin()
}

/// Reads the scratchpad of the device with this address and decodes it.
pub fn read_data<E>(address: &Address) -> (step: Step<E>)
    ensures
        step.opens(
            seq![
                Request::Reset,
                Request::MatchAddress(*address),
                Request::WriteByte(READ_SCRATCHPAD),
            ],
            Finale::Read(Readout::Data),
        ),
{
    Operation::Read { address: *address, readout: Readout::Data }.begin()
}

/// Loads the EEPROM into the scratchpad, on the device with this address or
/// on every device, then polls the bus until a high bit signals that the
/// recall is over.
pub fn recall_from_eeprom<E>(address: Option<&Address>) -> (step: Step<E>)
    ensures
        step.opens(
            seq![
                Request::SendCommand {
                    command: RECALL_EEPROM,
                    address: match address {
                        Some(address) => Some(*address),
                        None => None,
                    },
                },
            ],
            Finale::Poll,
        ),
{
    let address = match address {
        Some(address) => Some(*address),
        None => None,
    };
    Operation::RecallFromEeprom { address }.begin()
}

/// Copies the scratchpad to the EEPROM, on the device with this address or on
/// every device, then lets pass the time that the write takes at most.
pub fn save_to_eeprom<E>(address: Option<&Address>) -> (step: Step<E>)
    ensures
        step.opens(
            seq![
                Request::SendCommand {
                    command: COPY_SCRATCHPAD,
                    address: match address {
                        Some(address) => Some(*address),
                        None => None,
                    },
                },
                Request::DelayMillis(EEPROM_WRITE_MILLIS),
            ],
            Finale::Done,
        ),
{
    let address = match address {
        Some(address) => Some(*address),
        None => None,
    };
    Operation::SaveToEeprom { address }.begin()
}

} // verus!
