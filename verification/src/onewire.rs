//! What the driver takes from the one-wire bus crate: the device address, the
//! checksum test and the length of a read slot. Nothing here is proved; each
//! contract states what the bus crate's source shows.

use one_wire_bus::Address;
use one_wire_bus::OneWireError;
use vstd::prelude::*;

verus! {

/// The 64-bit address of a device on the bus: `one_wire_bus::Address`, a
/// public wrapper of one `u64`.
#[verifier::external_type_specification]
pub struct ExAddress(Address);

/// The error type of the bus crate: `one_wire_bus::OneWireError`.
#[verifier::external_type_specification]
#[verifier::reject_recursive_types(E)]
pub struct ExOneWireError<E>(OneWireError<E>);

/// The family code of an address: its least significant byte.
pub open spec fn family_code_of(address: Address) -> u8 {
    (address.0 % 256) as u8
}

/// `Address::family_code` returns the first byte of the address in
/// little-endian order, which is its least significant byte.
pub assume_specification[ Address::family_code ](address: &Address) -> (code: u8)
    ensures
        code == family_code_of(*address),
;

/// Whether a run of bytes that ends in its own CRC-8 passes the bus crate's
/// checksum test.
pub uninterp spec fn crc8_passes(data: Seq<u8>) -> bool;

/// `one_wire_bus::crc::check_crc8` computes the CRC-8 of the bytes, checksum
/// byte included, and succeeds exactly when it is zero. Its only error is
/// `CrcMismatch`.
pub assume_specification<E>[ one_wire_bus::crc::check_crc8::<E> ](data: &[u8]) -> (outcome: Result<
    (),
    OneWireError<E>,
>)
    ensures
        outcome is Ok <==> crc8_passes(data@),
        outcome matches Err(e) ==> e is CrcMismatch,
;

/// The length of one read slot on the bus, in microseconds.
pub const READ_SLOT_MICROS: u16 = 70;

/// Reads `one_wire_bus::READ_SLOT_DURATION_MICROS`, which the bus crate
/// defines as 70.
#[verifier::external_body]
pub(crate) fn read_slot_duration_micros() -> (micros: u16)
    ensures
        micros == READ_SLOT_MICROS,
{
    one_wire_bus::READ_SLOT_DURATION_MICROS
}

} // verus!
