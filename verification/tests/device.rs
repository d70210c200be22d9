use ds18b20::Ds18b20;
use ds18b20::Error;
use ds18b20::FAMILY_CODE;
use one_wire_bus::Address;

#[test]
fn family_code_is_0x28() {
    assert_eq!(FAMILY_CODE, 0x28);
}

#[test]
fn an_address_of_the_family_makes_a_device() {
    let address = Address(0xE800_000B_1FCD_1028);
    let device = Ds18b20::new::<()>(address).unwrap();
    assert_eq!(*device.address(), address);
}

#[test]
fn only_the_family_code_byte_is_looked_at() {
    for rest in [0u64, 1, 0x00FF_FFFF_FFFF_FFFF, 0x0012_3456_789A_BCDE, 0x0028_2828_2828_2800] {
        let address = Address((rest << 8) | 0x28);
        let device = Ds18b20::new::<()>(address).unwrap();
        assert_eq!(device.address().0, address.0);
    }
}

#[test]
fn an_address_of_another_family_is_refused() {
    for code in 0..=255u8 {
        let address = Address(0x7000_0008_AC85_1600 | code as u64);
        let device = Ds18b20::new::<()>(address);
        if code == 0x28 {
            assert!(device.is_ok());
        } else {
            assert!(matches!(device, Err(Error::FamilyCodeMismatch)));
        }
    }
}

#[test]
fn the_family_code_is_the_lowest_byte_not_the_highest() {
    let device = Ds18b20::new::<()>(Address(0x2800_0000_0000_0010));
    assert!(matches!(device, Err(Error::FamilyCodeMismatch)));
    let device = Ds18b20::new::<()>(Address(0x1000_0000_0000_0028));
    assert!(device.is_ok());
}
