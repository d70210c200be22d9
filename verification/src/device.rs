//! One sensor on the bus, known by its address.

use crate::commands::CONVERT_TEMP;
use crate::commands::COPY_SCRATCHPAD;
use crate::commands::READ_SCRATCHPAD;
use crate::commands::RECALL_EEPROM;
use crate::commands::WRITE_SCRATCHPAD;
use crate::error::Error;
use crate::onewire::family_code_of;
use crate::operations::read_data;
use crate::operations::recall_from_eeprom;
use crate::operations::save_to_eeprom;
use crate::protocol::Finale;
use crate::protocol::Operation;
use crate::protocol::Readout;
use crate::protocol::Request;
use crate::protocol::Step;
use crate::protocol::EEPROM_WRITE_MILLIS;
use crate::resolution::Resolution;
use crate::scratchpad::unsigned_byte;
use crate::FAMILY_CODE;
use one_wire_bus::Address;
use vstd::prelude::*;

verus! {

/// A DS18B20 with a given address. Its operations select this one device on
/// the bus.
#[derive(Debug)]
pub struct Ds18b20 {
    address: Address,
}

impl View for Ds18b20 {
    type V = Address;

    /// A device is its address.
    closed spec fn view(&self) -> Address {
        self.address
    }
}

impl Ds18b20 {
    /// The address of a device carries the family code of the DS18B20.
    #[verifier::type_invariant]
    spec fn well_formed(self) -> bool {
        family_code_of(self.address) == FAMILY_CODE
    }

    /// Makes a device of an address, which must carry the family code of the
    /// DS18B20. Nothing is sent over the bus.
    pub fn new<E>(address: Address) -> (device: Result<Ds18b20, Error<E>>)
        ensures
            family_code_of(address) == FAMILY_CODE ==> (device matches Ok(d) && d@ == address),
            family_code_of(address) != FAMILY_CODE ==> device matches Err(
                Error::FamilyCodeMismatch,
            ),
    {
        if address.family_code() == FAMILY_CODE {
            Ok(Ds18b20 { address })
        } else {
            Err(Error::FamilyCodeMismatch)
        }
    }

    /// The address of the device.
    pub fn address(&self) -> (address: &Address)
        ensures
            *address == self@,
            family_code_of(*address) == FAMILY_CODE,
    {
        proof {
            use_type_invariant(self);
        }
        &self.address
    }

    /// Starts a temperature conversion on this device. The operation is over
    /// once the command is sent; the conversion itself takes up to
    /// `max_measurement_time_millis` of the resolution that the device is
    /// configured for, and the caller waits that long before it reads.
    pub fn start_temp_measurement<E>(&self) -> (step: Step<E>)
        ensures
            step.opens(
                seq![Request::SendCommand { command: CONVERT_TEMP, address: Some(self@) }],
                Finale::Done,
            ),
    {
        Operation::StartMeasurement { address: self.address }.begin()
    }

    /// Reads the scratchpad of this device and decodes it.
    pub fn read_data<E>(&self) -> (step: Step<E>)
        ensures
            step.opens(
                seq![
                    Request::Reset,
                    Request::MatchAddress(self@),
                    Request::WriteByte(READ_SCRATCHPAD),
                ],
                Finale::Read(Readout::Data),
            ),
    {
        read_data(&self.address)
    }

    /// Writes the alarm thresholds and the resolution to the scratchpad of
    /// this device: after the command exactly three bytes, the high
    /// threshold, the low threshold and the configuration register. The
    /// EEPROM is left as it is.
    pub fn set_config<E>(
        &self,
        alarm_temp_low: i8,
        alarm_temp_high: i8,
        resolution: Resolution,
    ) -> (step: Step<E>)
        ensures
            step.opens(
                seq![
                    Request::SendCommand { command: WRITE_SCRATCHPAD, address: Some(self@) },
                    Request::WriteByte(unsigned_byte(alarm_temp_high)),
                    Request::WriteByte(unsigned_byte(alarm_temp_low)),
                    Request::WriteByte(resolution.config_register()),
                ],
                Finale::Done,
            ),
    {
        Operation::SetConfig {
            address: self.address,
            alarm_temp_low,
            alarm_temp_high,
            resolution,
        }.begin()
    }

    /// Copies the thresholds and the resolution from the scratchpad of this
    /// device to its EEPROM, and waits until the write is over.
    pub fn save_to_eeprom<E>(&self) -> (step: Step<E>)
        ensures
            step.opens(
                seq![
                    Request::SendCommand { command: COPY_SCRATCHPAD, address: Some(self@) },
                    Request::DelayMillis(EEPROM_WRITE_MILLIS),
                ],
                Finale::Done,
            ),
    {
        save_to_eeprom(Some(&self.address))
    }

    /// Loads the thresholds and the resolution from the EEPROM of this device
    /// into its scratchpad, and polls the bus until the device signals that
    /// it has done so.
    pub fn recall_from_eeprom<E>(&self) -> (step: Step<E>)
        ensures
            step.opens(
                seq![Request::SendCommand { command: RECALL_EEPROM, address: Some(self@) }],
                Finale::Poll,
            ),
    {
        recall_from_eeprom(Some(&self.address))
    }
}

} // verus!
