use spd::{Function, Page};

#[test]
fn table() {
    assert_eq!(Function::Temperature(0).to_device_code(), Some(0b0011_000));
    assert_eq!(Function::Temperature(1).to_device_code(), Some(0b0011_001));
    assert_eq!(Function::Temperature(9).to_device_code(), None);
    assert_eq!(Function::Memory(0).to_device_code(), Some(0b1010_000));
    assert_eq!(Function::Memory(1).to_device_code(), Some(0b1010_001));
    assert_eq!(Function::Memory(9).to_device_code(), None);
}

#[test]
fn alladdr() {
    for i in 0..=0xff {
        if let Some(func) = Function::from_device_code(i) {
            println!("0x{:02x} {:?}", i, func);
            assert_eq!(func.to_device_code(), Some(i));
        }
    }
}

#[test]
fn every_select_address_has_its_code() {
    for addr in 0u8..8 {
        assert_eq!(Function::Temperature(addr).to_device_code(), Some(0x18 + addr));
        assert_eq!(Function::Memory(addr).to_device_code(), Some(0x50 + addr));
    }
}

#[test]
fn select_addresses_out_of_range_have_no_code() {
    assert_eq!(Function::Temperature(8).to_device_code(), None);
    assert_eq!(Function::Temperature(255).to_device_code(), None);
    assert_eq!(Function::Memory(8).to_device_code(), None);
    for addr in 8u8..=255 {
        assert_eq!(Function::Temperature(addr).to_device_code(), None);
        assert_eq!(Function::Memory(addr).to_device_code(), None);
    }
}

#[test]
fn protection_blocks_follow_the_table() {
    assert_eq!(Function::ProtectionStatus(0).to_device_code(), Some(0b0110_001));
    assert_eq!(Function::ProtectionStatus(1).to_device_code(), Some(0b0110_100));
    assert_eq!(Function::ProtectionStatus(2).to_device_code(), Some(0b0110_101));
    assert_eq!(Function::ProtectionStatus(3).to_device_code(), Some(0b0110_000));
    assert_eq!(Function::ProtectionStatus(0).to_device_code(), Some(0x31));
    assert_eq!(Function::ProtectionStatus(1).to_device_code(), Some(0x34));
    assert_eq!(Function::ProtectionStatus(2).to_device_code(), Some(0x35));
    assert_eq!(Function::ProtectionStatus(3).to_device_code(), Some(0x30));
}

#[test]
fn blocks_out_of_range_have_no_code() {
    for block in 4u8..=255 {
        assert_eq!(Function::ProtectionStatus(block).to_device_code(), None);
    }
}

#[test]
fn fixed_codes() {
    assert_eq!(Function::Temperature(0).to_device_code(), Some(0x18));
    assert_eq!(Function::Memory(1).to_device_code(), Some(0x51));
    assert_eq!(Function::ClearAllWriteProtection.to_device_code(), Some(0b0110_011));
    assert_eq!(Function::ClearAllWriteProtection.to_device_code(), Some(0x33));
}

#[test]
fn page_address_codes() {
    assert_eq!(Function::PageAddress(Page(0)).to_device_code(), Some(0b0110_110));
    assert_eq!(Function::PageAddress(Page(1)).to_device_code(), Some(0b0110_111));
    for number in 2u8..=255 {
        assert_eq!(Function::PageAddress(Page(number)).to_device_code(), None);
    }
}

#[test]
fn decode_follows_the_table() {
    assert_eq!(Function::from_device_code(0b0011_000), Some(Function::Temperature(0)));
    assert_eq!(Function::from_device_code(0b0011_111), Some(Function::Temperature(7)));
    assert_eq!(Function::from_device_code(0b1010_000), Some(Function::Memory(0)));
    assert_eq!(Function::from_device_code(0b1010_101), Some(Function::Memory(5)));
    assert_eq!(Function::from_device_code(0b0110_001), Some(Function::ProtectionStatus(0)));
    assert_eq!(Function::from_device_code(0b0110_100), Some(Function::ProtectionStatus(1)));
    assert_eq!(Function::from_device_code(0b0110_101), Some(Function::ProtectionStatus(2)));
    assert_eq!(Function::from_device_code(0b0110_000), Some(Function::ProtectionStatus(3)));
    assert_eq!(Function::from_device_code(0b0110_011), Some(Function::ClearAllWriteProtection));
    assert_eq!(Function::from_device_code(0b0110_110), Some(Function::PageAddress(Page(0))));
    assert_eq!(Function::from_device_code(0b0110_111), Some(Function::PageAddress(Page(1))));
}

#[test]
fn unassigned_codes_decode_to_nothing() {
    assert_eq!(Function::from_device_code(0b0110_010), None);
    for code in 0u8..=255 {
        let device_type = code >> 3;
        if device_type != 0b0011 && device_type != 0b1010 && device_type != 0b0110 {
            assert_eq!(Function::from_device_code(code), None);
        }
    }
    assert_eq!(Function::from_device_code(0x00), None);
    assert_eq!(Function::from_device_code(0x7f), None);
    assert_eq!(Function::from_device_code(0x98), None);
    assert_eq!(Function::from_device_code(0xff), None);
}

#[test]
fn exactly_twenty_three_codes_are_assigned() {
    let mut assigned: usize = 0;
    for code in 0u8..=255 {
        if Function::from_device_code(code).is_some() {
            assert!(code < 128);
            assigned += 1;
        }
    }
    assert_eq!(assigned, 23);
}

#[test]
fn decoding_an_encoded_function_gives_it_back() {
    let mut functions: Vec<Function> = vec![Function::ClearAllWriteProtection];
    for n in 0u8..=255 {
        functions.push(Function::Temperature(n));
        functions.push(Function::Memory(n));
        functions.push(Function::ProtectionStatus(n));
        functions.push(Function::PageAddress(Page(n)));
    }
    let mut encoded: usize = 0;
    for function in functions {
        if let Some(code) = function.to_device_code() {
            assert!(code < 128);
            assert_eq!(Function::from_device_code(code), Some(function));
            encoded += 1;
        }
    }
    assert_eq!(encoded, 23);
}
