//! The driver as a machine that never touches the bus itself.
//!
//! An operation on the sensor is a short conversation: the driver asks for
//! something to be done on the bus, is told how that went, and decides what
//! comes next. A [`Step`] is one turn of that conversation. The caller owns
//! the bus: it does what the step asks, hands the outcome to the step's
//! continuation, and so gets the next step, until the operation has finished.
//! Every turn brings the end nearer, so the caller's loop comes to an end
//! whatever the bus answers.

use crate::commands::CONVERT_TEMP;
use crate::commands::COPY_SCRATCHPAD;
use crate::commands::READ_SCRATCHPAD;
use crate::commands::RECALL_EEPROM;
use crate::commands::WRITE_SCRATCHPAD;
use crate::error::Error;
use crate::onewire::crc8_passes;
use crate::onewire::read_slot_duration_micros;
use crate::onewire::READ_SLOT_MICROS;
use crate::resolution::Resolution;
use crate::scratchpad::little_endian;
use crate::scratchpad::signed_byte;
use crate::scratchpad::to_unsigned_byte;
use crate::scratchpad::unsigned_byte;
use crate::scratchpad::SensorData;
use one_wire_bus::Address;
use vstd::prelude::*;

verus! {

/// How long a recall from the EEPROM may take, in microseconds.
pub const RECALL_TIMEOUT_MICROS: u16 = 10000;

/// How long the sensor takes at most to write its EEPROM, in milliseconds.
pub const EEPROM_WRITE_MILLIS: u64 = 10;

/// Something for the caller to do that yields no value: it succeeds or the bus
/// reports a fault.
#[derive(Copy, Clone, Debug, PartialEq, Eq)]
pub enum Request {
    /// Send a reset pulse.
    Reset,
    /// Select the device with this address.
    MatchAddress(Address),
    /// Select every device on the bus.
    SkipAddress,
    /// Write one byte.
    WriteByte(u8),
    /// Reset the bus, select the device with this address, or every device
    /// where there is none, and write the command byte.
    SendCommand { command: u8, address: Option<Address> },
    /// Let this many milliseconds pass. This cannot fail.
    DelayMillis(u64),
}

/// What a scratchpad read is to hand back.
#[derive(Copy, Clone, Debug, PartialEq, Eq)]
pub enum Readout {
    /// The nine bytes as they came.
    Scratchpad,
    /// The bytes decoded.
    Data,
}

/// What an operation that succeeded hands back.
#[derive(Copy, Clone, Debug, PartialEq, Eq)]
pub enum Output {
    /// Nothing beyond the success.
    Done,
    /// The scratchpad, its checksum found correct.
    Scratchpad([u8; 9]),
    /// The decoded scratchpad.
    Data(SensorData),
}

/// One turn of an operation: what the caller is to do next, and the
/// continuation that takes the outcome.
#[derive(Debug, PartialEq, Eq)]
pub enum Step<E> {
    /// Carry out the request, then resume with whether it succeeded.
    Perform(Request, Pending),
    /// Read one bit from the bus, then resume with it.
    ReadBit(Polling),
    /// Read nine bytes from the bus, then resume with them.
    ReadScratchpad(Reading),
    /// The operation is over; nothing more is to be done on the bus.
    Finished(Result<Output, Error<E>>),
}

impl<E> Step<E> {
    /// Whether this step opens a run of exactly these requests: it asks for
    /// the first, the others are outstanding in this order, and the finale
    /// follows the last.
    pub open spec fn opens(self, requests: Seq<Request>, finale: Finale) -> bool {
        &&& requests.len() > 0
        &&& self matches Step::Perform(request, pending)
        &&& request == requests[0]
        &&& pending.outstanding() =~= requests.skip(1)
        &&& pending.finale() == finale
    }

    /// The most turns that the operation can still take, this one included.
    pub open spec fn turns_left(self) -> nat {
        match self {
            Step::Perform(_, pending) => pending.turns_left(),
            Step::ReadBit(polling) => polling.remaining(),
            Step::ReadScratchpad(_) => 1,
            Step::Finished(_) => 0,
        }
    }

    /// An operation takes at most one turn for each of its requests, and
    /// those of its finale.
    pub proof fn lemma_turns_of_opening(self, requests: Seq<Request>, finale: Finale)
        requires
            self.opens(requests, finale),
        ensures
            self.turns_left() == requests.len() + finale.turns(),
    {
    }
}

/// What follows once an operation has made its last request.
#[derive(Copy, Clone, Debug, PartialEq, Eq)]
pub enum Finale {
    /// Nothing: the operation has succeeded.
    Done,
    /// The scratchpad is read, and checked.
    Read(Readout),
    /// The bus is polled until the sensor signals that the recall is over.
    Poll,
}

impl Finale {
    /// Whether a step is the one that this finale begins with: the end of the
    /// operation, the read of the scratchpad, or the first poll of as many as
    /// a recall is allowed.
    pub open spec fn begins_with<E>(self, step: Step<E>) -> bool {
        match self {
            Finale::Done => step == Step::<E>::Finished(Ok(Output::Done)),
            Finale::Read(readout) => step matches Step::ReadScratchpad(reading)
                && reading.readout() == readout,
            Finale::Poll => step matches Step::ReadBit(polling) && polling.remaining()
                == recall_polls(),
        }
    }

    /// The most turns that the finale can take.
    pub open spec fn turns(self) -> nat {
        match self {
            Finale::Done => 0,
            Finale::Read(_) => 1,
            Finale::Poll => recall_polls(),
        }
    }
}

/// The least number of whole read slots that last as long as a recall may
/// take.
pub open spec fn recall_slots() -> nat {
    ((RECALL_TIMEOUT_MICROS + READ_SLOT_MICROS - 1) / (READ_SLOT_MICROS as int)) as nat
}

/// How often the bus is polled for the end of a recall before the sensor is
/// given up: once more than the read slots that a recall may take.
pub open spec fn recall_polls() -> nat {
    recall_slots() + 1
}

/// How often the bus is polled for the end of a recall before the sensor is
/// given up.
pub fn recall_poll_limit() -> (limit: u16)
    ensures
        limit == recall_polls(),
        (limit - 1) * READ_SLOT_MICROS >= RECALL_TIMEOUT_MICROS > (limit - 2) * READ_SLOT_MICROS,
{
    let slot: u16 = read_slot_duration_micros();
    (RECALL_TIMEOUT_MICROS + (slot - 1)) / slot + 1
}

/// An operation that waits for the outcome of a request. It can be resumed
/// once.
#[derive(Debug, PartialEq, Eq)]
pub struct Pending {
    operation: Operation,
    issued: usize,
}

impl Pending {
    /// The request that is waited for is one of those that the operation
    /// makes.
    #[verifier::type_invariant]
    spec fn well_formed(self) -> bool {
        1 <= self.issued <= self.operation.requests().len()
    }

    /// The requests that the operation has yet to make after the one it waits
    /// for, in order.
    pub closed spec fn outstanding(self) -> Seq<Request> {
        self.operation.requests().skip(self.issued as int)
    }

    /// What follows the last request.
    pub closed spec fn finale(self) -> Finale {
        self.operation.finale()
    }

    /// The most turns that the operation can still take: the request waited
    /// for, those outstanding, and the finale.
    pub open spec fn turns_left(self) -> nat {
        1 + self.outstanding().len() + self.finale().turns()
    }

    /// Takes the outcome of the request that was asked for. A fault ends the
    /// operation and is handed on as it is. After a success the next
    /// outstanding request is asked for, or the finale begins where there is
    /// none.
    pub fn resume<E>(self, outcome: Result<(), E>) -> (step: Step<E>)
        ensures
            match outcome {
                Err(fault) => step == Step::<E>::Finished(Err(Error::Transport(fault))),
                Ok(_) => if self.outstanding().len() > 0 {
                    step.opens(self.outstanding(), self.finale())
                } else {
                    self.finale().begins_with(step)
                },
            },
            step.turns_left() < self.turns_left(),
    {
        proof {
            use_type_invariant(&self);
        }
        match outcome {
            Err(fault) => Step::Finished(Err(Error::Transport(fault))),
            Ok(_) => self.operation.step_after(self.issued),
        }
    }
}

/// A recall that waits for the next bit from the bus. It can be resumed
/// once.
#[derive(Debug, PartialEq, Eq)]
pub struct Polling {
    remaining: u16,
}

impl Polling {
    /// The bit that is waited for is one of those that may be read.
    #[verifier::type_invariant]
    spec fn well_formed(self) -> bool {
        self.remaining >= 1
    }

    /// How many bits may still be read, the one waited for included.
    pub closed spec fn remaining(self) -> nat {
        self.remaining as nat
    }

    /// Takes the bit that was read. A fault ends the operation and is handed
    /// on as it is. A high bit is the sensor's signal that the recall is
    /// over. After a low bit the bus is polled again, unless this was the
    /// last bit allowed: then the operation has timed out.
    pub fn resume<E>(self, outcome: Result<bool, E>) -> (step: Step<E>)
        ensures
            match outcome {
                Err(fault) => step == Step::<E>::Finished(Err(Error::Transport(fault))),
                Ok(true) => step == Step::<E>::Finished(Ok(Output::Done)),
                Ok(false) => if self.remaining() > 1 {
                    step matches Step::ReadBit(next) && next.remaining() == self.remaining() - 1
                } else {
                    step == Step::<E>::Finished(Err(Error::Timeout))
                },
            },
            step.turns_left() < self.remaining(),
    {
        proof {
            use_type_invariant(&self);
        }
        match outcome {
            Err(fault) => Step::Finished(Err(Error::Transport(fault))),
            Ok(true) => Step::Finished(Ok(Output::Done)),
            Ok(false) => {
                if self.remaining > 1 {
                    Step::ReadBit(Polling { remaining: self.remaining - 1 })
                } else {
                    Step::Finished(Err(Error::Timeout))
                }
            },
        }
    }
}

/// A scratchpad read that waits for the nine bytes from the bus. It can be
/// resumed once.
#[derive(Debug, PartialEq, Eq)]
pub struct Reading {
    readout: Readout,
}

impl Reading {
    /// What the read is to hand back.
    pub closed spec fn readout(self) -> Readout {
        self.readout
    }

    /// What a scratchpad is accepted as, given whether its checksum passes.
    /// With a failing checksum nothing in it is looked at. With a passing one
    /// the bytes are handed back as they are, or decoded; a configuration
    /// register that selects no resolution then counts as damage too.
    pub open spec fn accepted<E>(self, scratchpad: [u8; 9], checksum_passes: bool) -> Result<
        Output,
        Error<E>,
    > {
        if !checksum_passes {
            Err(Error::CrcMismatch)
        } else {
            match self.readout() {
                Readout::Scratchpad => Ok(Output::Scratchpad(scratchpad)),
                Readout::Data => match SensorData::of_scratchpad(scratchpad@) {
                    Some(data) => Ok(Output::Data(data)),
                    None => Err(Error::CrcMismatch),
                },
            }
        }
    }

    /// Decides what becomes of a scratchpad that was read, given whether its
    /// checksum passes.
    ///
    /// A scratchpad whose checksum fails is refused, whatever it holds. One
    /// whose checksum passes is handed back as it is where the bytes were
    /// asked for. Where the data was asked for, it decodes to the resolution
    /// that its configuration register selects, with the temperature
    /// register and the thresholds as the bytes spell them; and it is refused
    /// where the register selects no resolution.
    pub fn conclude<E>(&self, scratchpad: [u8; 9], checksum_passes: bool) -> (outcome: Result<
        Output,
        Error<E>,
    >)
        ensures
            outcome == self.accepted::<E>(scratchpad, checksum_passes),
            !checksum_passes ==> outcome == Err::<Output, Error<E>>(Error::CrcMismatch),
            checksum_passes && self.readout() == Readout::Scratchpad ==> outcome == Ok::<
                Output,
                Error<E>,
            >(Output::Scratchpad(scratchpad)),
            checksum_passes && self.readout() == Readout::Data
                ==> match Resolution::of_config_register(scratchpad[4]) {
                Some(resolution) => {
                    &&& outcome matches Ok(Output::Data(data))
                    &&& data.resolution == resolution
                    &&& data.raw_temperature == little_endian(scratchpad[0], scratchpad[1])
                    &&& data.alarm_temp_high == signed_byte(scratchpad[2])
                    &&& data.alarm_temp_low == signed_byte(scratchpad[3])
                },
                None => outcome == Err::<Output, Error<E>>(Error::CrcMismatch),
            },
    {
        if !checksum_passes {
            return Err(Error::CrcMismatch);
        }
        match self.readout {
            Readout::Scratchpad => Ok(Output::Scratchpad(scratchpad)),
            Readout::Data => match SensorData::from_scratchpad(&scratchpad) {
                Some(data) => Ok(Output::Data(data)),
                None => Err(Error::CrcMismatch),
            },
        }
    }

    /// Takes the bytes that were read. A fault ends the operation and is
    /// handed on as it is. Otherwise the checksum is tested, and the
    /// operation ends with what the scratchpad is accepted as.
    pub fn resume<E>(self, outcome: Result<[u8; 9], E>) -> (step: Step<E>)
        ensures
            match outcome {
                Err(fault) => step == Step::<E>::Finished(Err(Error::Transport(fault))),
                Ok(scratchpad) => step == Step::<E>::Finished(
                    self.accepted::<E>(scratchpad, crc8_passes(scratchpad@)),
                ),
            },
            step.turns_left() == 0,
    {
        match outcome {
            Err(fault) => Step::Finished(Err(Error::Transport(fault))),
            Ok(scratchpad) => {
                let checksum_passes = match one_wire_bus::crc::check_crc8::<E>(
                    scratchpad.as_slice(),
                ) {
                    Ok(_) => true,
                    Err(_) => false,
                };
                Step::Finished(self.conclude(scratchpad, checksum_passes))
            },
        }
    }
}

/// The operations of the driver, with what each needs to know.
#[derive(Copy, Clone, Debug, PartialEq, Eq)]
#[allow(inconsistent_fields)]
pub(crate) enum Operation {
    StartMeasurement { address: Address },
    StartSimultaneousMeasurement,
    Read { address: Address, readout: Readout },
    SetConfig { address: Address, alarm_temp_low: i8, alarm_temp_high: i8, resolution: Resolution },
    SaveToEeprom { address: Option<Address> },
    RecallFromEeprom { address: Option<Address> },
    Delay { millis: u64 },
}

impl Operation {
    /// The requests that the operation makes, in order, as long as none fails.
    pub(crate) open spec fn requests(self) -> Seq<Request> {
        match self {
            Operation::StartMeasurement { address } => seq![
                Request::SendCommand { command: CONVERT_TEMP, address: Some(address) },
            ],
            Operation::StartSimultaneousMeasurement => seq![
                Request::Reset,
                Request::SkipAddress,
                Request::WriteByte(CONVERT_TEMP),
            ],
            Operation::Read { address, readout } => seq![
                Request::Reset,
                Request::MatchAddress(address),
                Request::WriteByte(READ_SCRATCHPAD),
            ],
            Operation::SetConfig { address, alarm_temp_low, alarm_temp_high, resolution } => seq![
                Request::SendCommand { command: WRITE_SCRATCHPAD, address: Some(address) },
                Request::WriteByte(unsigned_byte(alarm_temp_high)),
                Request::WriteByte(unsigned_byte(alarm_temp_low)),
                Request::WriteByte(resolution.config_register()),
            ],
            Operation::SaveToEeprom { address } => seq![
                Request::SendCommand { command: COPY_SCRATCHPAD, address },
                Request::DelayMillis(EEPROM_WRITE_MILLIS),
            ],
            Operation::RecallFromEeprom { address } => seq![
                Request::SendCommand { command: RECALL_EEPROM, address },
            ],
            Operation::Delay { millis } => seq![Request::DelayMillis(millis)],
        }
    }

    /// What follows the last request.
    pub(crate) open spec fn finale(self) -> Finale {
        match self {
            Operation::Read { address, readout } => Finale::Read(readout),
            Operation::RecallFromEeprom { address } => Finale::Poll,
            _ => Finale::Done,
        }
    }

    /// The request with this index, counted from 0, if the operation makes
    /// that many.
    fn request(&self, index: usize) -> (request: Option<Request>)
        ensures
            index < self.requests().len() ==> request == Some(self.requests()[index as int]),
            index >= self.requests().len() ==> request is None,
    {
        match *self {
            Operation::StartMeasurement { address } => match index {
                0 => Some(Request::SendCommand { command: CONVERT_TEMP, address: Some(address) }),
                _ => None,
            },
            Operation::StartSimultaneousMeasurement => match index {
                0 => Some(Request::Reset),
                1 => Some(Request::SkipAddress),
                2 => Some(Request::WriteByte(CONVERT_TEMP)),
                _ => None,
            },
            Operation::Read { address, readout } => match index {
                0 => Some(Request::Reset),
                1 => Some(Request::MatchAddress(address)),
                2 => Some(Request::WriteByte(READ_SCRATCHPAD)),
                _ => None,
            },
            Operation::SetConfig { address, alarm_temp_low, alarm_temp_high, resolution } => {
                match index {
                    0 => Some(
                        Request::SendCommand { command: WRITE_SCRATCHPAD, address: Some(address) },
                    ),
                    1 => Some(Request::WriteByte(to_unsigned_byte(alarm_temp_high))),
                    2 => Some(Request::WriteByte(to_unsigned_byte(alarm_temp_low))),
                    3 => Some(Request::WriteByte(resolution.to_config_register())),
                    _ => None,
                }
            },
            Operation::SaveToEeprom { address } => match index {
                0 => Some(Request::SendCommand { command: COPY_SCRATCHPAD, address }),
                1 => Some(Request::DelayMillis(EEPROM_WRITE_MILLIS)),
                _ => None,
            },
            Operation::RecallFromEeprom { address } => match index {
                0 => Some(Request::SendCommand { command: RECALL_EEPROM, address }),
                _ => None,
            },
            Operation::Delay { millis } => match index {
                0 => Some(Request::DelayMillis(millis)),
                _ => None,
            },
        }
    }

    /// The step that the operation takes once it has made `issued` requests
    /// and none has failed: the next request, or the finale after the last.
    fn step_after<E>(self, issued: usize) -> (step: Step<E>)
        requires
            issued <= self.requests().len(),
        ensures
            issued < self.requests().len() ==> step.opens(
                self.requests().skip(issued as int),
                self.finale(),
            ),
            issued == self.requests().len() ==> self.finale().begins_with(step),
            step.turns_left() == self.requests().len() - issued + self.finale().turns(),
    {
        match self.request(issued) {
            Some(request) => {
                let pending = Pending { operation: self, issued: issued + 1 };
                Step::Perform(request, pending)
            },
            None => match self {
                Operation::Read { address, readout } => Step::ReadScratchpad(Reading { readout }),
                Operation::RecallFromEeprom { address } => Step::ReadBit(
                    Polling { remaining: recall_poll_limit() },
                ),
                _ => Step::Finished(Ok(Output::Done)),
            },
        }
    }

    /// The first step of the operation.
    pub(crate) fn begin<E>(self) -> (step: Step<E>)
        ensures
            step.opens(self.requests(), self.finale()),
            step.turns_left() == self.requests().len() + self.finale().turns(),
    {
        self.step_after(0)
    }
}

} // verus!
