use rustboy::cartridge::cartridge::{decode_cartridge, Cartridge};
use rustboy::error::Error;
use rustboy::memory::{region, MemorySpace, Region, BOOT_ROM};

fn image(cartridge_type: u8, ram_code: u8) -> Vec<u8> {
    let mut image = Vec::with_capacity(0x8000);
    for bank in 0..2u8 {
        image.extend(std::iter::repeat(0xA0 + bank).take(0x4000));
    }
    image[0x0147] = cartridge_type;
    image[0x0149] = ram_code;
    image
}

fn memory(cartridge_type: u8, ram_code: u8) -> MemorySpace {
    MemorySpace::new(decode_cartridge(image(cartridge_type, ram_code)).unwrap())
}

#[test]
fn every_address_has_one_region() {
    let bounds: [(u16, u16, Region); 10] = [
        (0x0000, 0x7FFF, Region::CartridgeRom),
        (0x8000, 0x9FFF, Region::VideoRam),
        (0xA000, 0xBFFF, Region::CartridgeRam),
        (0xC000, 0xDFFF, Region::WorkingRam),
        (0xE000, 0xFDFF, Region::EchoRam),
        (0xFE00, 0xFE9F, Region::ObjectAttributeMemory),
        (0xFEA0, 0xFEFF, Region::Unmapped),
        (0xFF00, 0xFF7F, Region::IoRegisters),
        (0xFF80, 0xFFFE, Region::HighRam),
        (0xFFFF, 0xFFFF, Region::InterruptEnable),
    ];
    for address in 0u16..=0xFFFF {
        let expected = bounds
            .iter()
            .find(|(first, last, _)| *first <= address && address <= *last)
            .map(|(_, _, region)| *region)
            .unwrap();
        assert_eq!(region(address), expected);
    }
}

#[test]
fn memories_start_zeroed() {
    let memory = memory(0x00, 0);
    for address in [0x8000u16, 0x9FFF, 0xC000, 0xDFFF, 0xE000, 0xFDFF, 0xFE00, 0xFE9F] {
        assert_eq!(memory.read(address), Ok(0));
    }
    assert_eq!(memory.read(0xFF50), Ok(0));
    assert_eq!(memory.cartridge_is_mapped(), false);
}

#[test]
fn boot_image_is_seen_until_the_boot_sequence_has_completed() {
    let mut memory = memory(0x00, 0);
    assert_eq!(memory.read(0x0000), Ok(0x31));
    assert_eq!(memory.read(0x0001), Ok(0xFE));
    assert_eq!(memory.read(0x00FF), Ok(0x50));
    for address in 0u16..0x0100 {
        assert_eq!(memory.read(address), Ok(BOOT_ROM[address as usize]));
    }
    // Beyond the boot image the cartridge is seen.
    assert_eq!(memory.read(0x0100), Ok(0xA0));
    assert_eq!(memory.read(0x4000), Ok(0xA1));

    assert_eq!(memory.write(0xFF50, 1), Ok(()));
    assert_eq!(memory.cartridge_is_mapped(), true);
    assert_eq!(memory.read(0xFF50), Ok(1));
    assert_eq!(memory.read(0x0000), Ok(0xA0));
    assert_eq!(memory.read(0x00FF), Ok(0xA0));

    // Only the value 1 marks the sequence as completed.
    assert_eq!(memory.write(0xFF50, 2), Ok(()));
    assert_eq!(memory.cartridge_is_mapped(), false);
    assert_eq!(memory.read(0x0000), Ok(0x31));
}

#[test]
fn ram_windows_store_bytes() {
    let mut memory = memory(0x00, 0);
    assert_eq!(memory.write(0x8000, 0x11), Ok(()));
    assert_eq!(memory.write(0x9FFF, 0x12), Ok(()));
    assert_eq!(memory.write(0xC000, 0x13), Ok(()));
    assert_eq!(memory.write(0xDFFF, 0x14), Ok(()));
    assert_eq!(memory.write(0xFE00, 0x15), Ok(()));
    assert_eq!(memory.write(0xFE9F, 0x16), Ok(()));
    assert_eq!(memory.read(0x8000), Ok(0x11));
    assert_eq!(memory.read(0x9FFF), Ok(0x12));
    assert_eq!(memory.read(0xC000), Ok(0x13));
    assert_eq!(memory.read(0xDFFF), Ok(0x14));
    assert_eq!(memory.read(0xFE00), Ok(0x15));
    assert_eq!(memory.read(0xFE9F), Ok(0x16));
    // Neighbours are untouched.
    assert_eq!(memory.read(0x8001), Ok(0));
    assert_eq!(memory.read(0xC001), Ok(0));
}

#[test]
fn echo_ram_is_a_second_view_of_working_ram() {
    let mut memory = memory(0x00, 0);
    assert_eq!(memory.write(0xC123, 0x42), Ok(()));
    assert_eq!(memory.read(0xE123), Ok(0x42));
    assert_eq!(memory.write(0xFDFF, 0x43), Ok(()));
    assert_eq!(memory.read(0xDDFF), Ok(0x43));
    assert_eq!(memory.write(0xE000, 0x44), Ok(()));
    assert_eq!(memory.read(0xC000), Ok(0x44));
}

#[test]
fn windows_that_are_not_served_are_invalid() {
    let mut memory = memory(0x00, 0);
    for address in [0xFEA0u16, 0xFEFF, 0xFF00, 0xFF4F, 0xFF51, 0xFF7F, 0xFF80, 0xFFFE, 0xFFFF] {
        assert_eq!(memory.read(address), Err(Error::InvalidAddress(address)));
        assert_eq!(memory.write(address, 1), Err(Error::InvalidAddress(address)));
    }
}

#[test]
fn writes_into_a_plain_rom_are_illegal() {
    let mut memory = memory(0x00, 0);
    assert_eq!(memory.write(0x0000, 1), Err(Error::IllegalWrite(0x0000)));
    assert_eq!(memory.write(0x7FFF, 1), Err(Error::IllegalWrite(0x7FFF)));
    assert_eq!(memory.write(0xA000, 1), Err(Error::IllegalWrite(0xA000)));
    assert_eq!(memory.read(0xA000), Err(Error::InvalidAddress(0xA000)));
}

#[test]
fn cartridge_windows_go_to_the_controller() {
    let mut memory = memory(0x03, 0x02);
    assert_eq!(memory.write(0xFF50, 1), Ok(()));
    assert_eq!(memory.read(0x4000), Ok(0xA1));
    // Bank 0 can not be selected; bank 2 is beyond this image.
    assert_eq!(memory.write(0x2000, 0x00), Ok(()));
    assert_eq!(memory.read(0x4000), Ok(0xA1));
    assert_eq!(memory.write(0x2000, 0x02), Ok(()));
    assert_eq!(memory.read(0x4000), Err(Error::InvalidAddress(0x4000)));
    // External RAM behind the enable switch.
    assert_eq!(memory.read(0xA000), Err(Error::InvalidAddress(0xA000)));
    assert_eq!(memory.write(0x0000, 0x0A), Ok(()));
    assert_eq!(memory.write(0xA000, 0x66), Ok(()));
    assert_eq!(memory.read(0xA000), Ok(0x66));
    assert_eq!(memory.write(0x6000, 0x07), Err(Error::InvalidBankingMode(0x07)));
    assert_eq!(memory.cartridge().read(0xA000), Ok(0x66));
}
