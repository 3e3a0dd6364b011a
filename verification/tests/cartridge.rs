use rgb_emu::cartridge::{from_rom, Cartridge, JsMoo, Mbc, Mbc1, NoMbc, RomError};

fn image(size_code: u8, mbc: u8, ram_code: u8) -> Vec<u8> {
    let mut rom = vec![0u8; 0x8000usize << size_code];
    rom[0x0147] = mbc;
    rom[0x0148] = size_code;
    rom[0x0149] = ram_code;
    rom
}

fn banked_image() -> Vec<u8> {
    // 128 KiB: eight banks, each filled with its own number.
    let mut rom = image(2, 0x01, 0x02);
    for bank in 1..8usize {
        for offset in 0..0x4000usize {
            rom[bank * 0x4000 + offset] = bank as u8;
        }
    }
    rom
}

fn error_of(rom: Vec<u8>) -> RomError {
    match from_rom(rom) {
        Ok(_) => panic!("image was accepted"),
        Err(error) => error,
    }
}

fn loaded(rom: Vec<u8>) -> Mbc {
    match from_rom(rom) {
        Ok(cartridge) => cartridge,
        Err(error) => panic!("image was refused: {}", error.reason()),
    }
}

#[test]
fn short_image_has_no_header() {
    assert_eq!(error_of(Vec::new()), RomError::HeaderMissing);
    assert_eq!(error_of(vec![0; 0x0149]), RomError::HeaderMissing);
}

#[test]
fn rom_size_above_eight_is_unknown() {
    let mut rom = image(0, 0, 0);
    rom[0x0148] = 9;
    assert_eq!(error_of(rom), RomError::RomSizeUnknown);
}

#[test]
fn rom_size_must_match_image_length() {
    let mut rom = image(0, 0, 0);
    rom[0x0148] = 1;
    assert_eq!(error_of(rom), RomError::RomSizeMismatch);
    let mut rom = image(1, 0, 0);
    rom.push(0);
    assert_eq!(error_of(rom), RomError::RomSizeMismatch);
    assert_eq!(error_of(vec![0; 0x014A]), RomError::RomSizeMismatch);
}

#[test]
fn ram_size_must_be_known() {
    assert_eq!(error_of(image(0, 0, 0x01)), RomError::RamSizeUnknown);
    assert_eq!(error_of(image(0, 0, 0x06)), RomError::RamSizeUnknown);
}

#[test]
fn controller_must_be_known() {
    assert_eq!(error_of(image(0, 0x02, 0)), RomError::MbcUnknown);
    assert_eq!(error_of(image(0, 0xFF, 0)), RomError::MbcUnknown);
}

#[test]
fn checks_come_in_order() {
    // Unknown ROM size wins over everything behind it.
    let mut rom = image(0, 0x55, 0x55);
    rom[0x0148] = 0x20;
    assert_eq!(error_of(rom), RomError::RomSizeUnknown);
    // A wrong length wins over unknown RAM and controller.
    let mut rom = image(0, 0x55, 0x55);
    rom[0x0148] = 0x01;
    assert_eq!(error_of(rom), RomError::RomSizeMismatch);
    // Unknown RAM wins over an unknown controller.
    assert_eq!(error_of(image(0, 0x55, 0x55)), RomError::RamSizeUnknown);
}

#[test]
fn every_error_has_a_reason() {
    assert_eq!(RomError::HeaderMissing.reason(), "Unable to find the cartridge header");
    assert_eq!(RomError::RomSizeUnknown.reason(), "Unknown ROM size in cartridge header");
    assert_eq!(
        RomError::RomSizeMismatch.reason(),
        "ROM size in cartridge header differs from the image's"
    );
    assert_eq!(RomError::RamSizeUnknown.reason(), "Unknown RAM size in cartridge header");
    assert_eq!(RomError::MbcUnknown.reason(), "Unknown MBC in cartridge header");
}

#[test]
fn every_rom_size_is_accepted() {
    for code in 0u8..=8 {
        let rom = image(code, 0x01, 0x00);
        let length = rom.len();
        assert_eq!(length, 1usize << (15 + u32::from(code)));
        match loaded(rom) {
            Mbc::Mbc1(cartridge) => {
                assert_eq!(cartridge.rom.len(), length);
                assert_eq!(cartridge.active_bank, 1);
                assert!(!cartridge.ram_enabled);
                assert!(cartridge.ram.is_none());
            }
            Mbc::NoMbc(_) => panic!("wrong controller"),
        }
    }
}

#[test]
fn ram_is_sized_by_header_and_zeroed() {
    for &(code, size) in &[(0x02u8, 0x2000usize), (0x03, 0x8000), (0x04, 0x2_0000), (0x05, 0x1_0000)] {
        match loaded(image(0, 0x00, code)) {
            Mbc::NoMbc(cartridge) => {
                let ram = cartridge.ram.expect("RAM was declared");
                assert_eq!(ram.len(), size);
                assert!(ram.iter().all(|&byte| byte == 0));
            }
            Mbc::Mbc1(_) => panic!("wrong controller"),
        }
    }
    match loaded(image(0, 0x00, 0x00)) {
        Mbc::NoMbc(cartridge) => assert!(cartridge.ram.is_none()),
        Mbc::Mbc1(_) => panic!("wrong controller"),
    }
}

#[test]
fn plain_cartridge_reads_rom_and_ignores_writes() {
    let mut rom = image(0, 0x00, 0x00);
    rom[0x0000] = 0x11;
    rom[0x4000] = 0x22;
    rom[0x7FFF] = 0x33;
    let mut cartridge = loaded(rom);
    assert_eq!(cartridge.read_byte(0x0000), 0x11);
    assert_eq!(cartridge.read_byte(0x4000), 0x22);
    assert_eq!(cartridge.read_byte(0x7FFF), 0x33);
    assert_eq!(cartridge.read_byte(0x0147), 0x00);
    cartridge.write_byte(0x0000, 0xAA);
    cartridge.write_byte(0x2000, 0x02);
    cartridge.write_byte(0x7FFF, 0xAA);
    assert_eq!(cartridge.read_byte(0x0000), 0x11);
    assert_eq!(cartridge.read_byte(0x4000), 0x22);
    assert_eq!(cartridge.read_byte(0x7FFF), 0x33);
}

#[test]
fn plain_cartridge_ram_window() {
    // Without RAM the window is open bus.
    let mut bare = loaded(image(0, 0x00, 0x00));
    assert_eq!(bare.read_byte(0xA000), 0xFF);
    assert_eq!(bare.read_byte(0xBFFF), 0xFF);
    bare.write_byte(0xA000, 0x12);
    assert_eq!(bare.read_byte(0xA000), 0xFF);
    // With declared RAM the window shows it; writes are still ignored.
    let mut with_ram = loaded(image(0, 0x00, 0x02));
    assert_eq!(with_ram.read_byte(0xA000), 0x00);
    assert_eq!(with_ram.read_byte(0xBFFF), 0x00);
    with_ram.write_byte(0xA000, 0x12);
    assert_eq!(with_ram.read_byte(0xA000), 0x00);
}

#[test]
fn plain_cartridge_is_total_on_short_images() {
    let cartridge = NoMbc { rom: vec![0x42; 16], ram: None };
    assert_eq!(cartridge.read_byte(0x000F), 0x42);
    assert_eq!(cartridge.read_byte(0x0010), 0xFF);
    assert_eq!(cartridge.read_byte(0x9000), 0xFF);
    assert_eq!(cartridge.read_byte(0xC000), 0xFF);
}

#[test]
fn mbc1_starts_on_bank_one() {
    let cartridge = loaded(banked_image());
    assert_eq!(cartridge.read_byte(0x0000), 0x00);
    assert_eq!(cartridge.read_byte(0x3FFF), 0x00);
    assert_eq!(cartridge.read_byte(0x4000), 0x01);
    assert_eq!(cartridge.read_byte(0x7FFF), 0x01);
}

#[test]
fn mbc1_switches_banks() {
    let mut cartridge = loaded(banked_image());
    for bank in 1u8..8 {
        cartridge.write_byte(0x2000, bank);
        assert_eq!(cartridge.read_byte(0x4000), bank);
        assert_eq!(cartridge.read_byte(0x7FFF), bank);
        assert_eq!(cartridge.read_byte(0x0000), 0x00);
        cartridge.write_byte(0x3FFF, bank);
        assert_eq!(cartridge.read_byte(0x5555), bank);
    }
}

#[test]
fn mbc1_bank_remap() {
    // Writing 0x20 selects a bank whose low five bits are zero: the
    // window shows the bank after it, never bank 0.
    let mut cartridge = loaded(banked_image());
    cartridge.write_byte(0x2000, 0x03);
    assert_eq!(cartridge.read_byte(0x4000), 0x03);
    cartridge.write_byte(0x2000, 0x20);
    assert_eq!(cartridge.read_byte(0x4000), 0x01);
    assert_ne!(cartridge.read_byte(0x4000), cartridge.read_byte(0x0000));
    cartridge.write_byte(0x2000, 0x00);
    assert_eq!(cartridge.read_byte(0x4000), 0x01);
    cartridge.write_byte(0x2000, 0x40);
    assert_eq!(cartridge.read_byte(0x4000), 0x01);
    cartridge.write_byte(0x2000, 0x60);
    assert_eq!(cartridge.read_byte(0x4000), 0x01);
}

#[test]
fn mbc1_bank_register_keeps_five_bits() {
    let mut cartridge = Mbc1 { rom: banked_image(), ram: None, active_bank: 1, ram_enabled: false };
    cartridge.write_byte(0x2000, 0xE5);
    assert_eq!(cartridge.active_bank, 0x05);
    cartridge.write_byte(0x2000, 0xE0);
    assert_eq!(cartridge.active_bank, 0x01);
    cartridge.write_byte(0x2000, 0x1F);
    assert_eq!(cartridge.active_bank, 0x1F);
}

#[test]
fn mbc1_quirk_banks_read_the_bank_after() {
    // A bank register that holds one of the four quirk values shows the
    // bank after it; banks past the image wrap around.
    let rom = banked_image();
    for &(register, shown) in &[(0x00u8, 1u8), (0x20, 0x21 % 8), (0x40, 0x41 % 8), (0x60, 0x61 % 8)] {
        let cartridge = Mbc1 { rom: rom.clone(), ram: None, active_bank: register, ram_enabled: false };
        assert_eq!(cartridge.read_byte(0x4000), shown);
    }
    let cartridge = Mbc1 { rom, ram: None, active_bank: 0x0B, ram_enabled: false };
    assert_eq!(cartridge.read_byte(0x4000), 0x03);
}

#[test]
fn mbc1_ram_enable_latch() {
    let mut cartridge = loaded(banked_image());
    assert_eq!(cartridge.read_byte(0xA000), 0xFF);
    cartridge.write_byte(0xA000, 0x12);
    cartridge.write_byte(0x0000, 0x0A);
    assert_eq!(cartridge.read_byte(0xA000), 0x00);
    cartridge.write_byte(0xA000, 0x12);
    cartridge.write_byte(0xBFFF, 0x34);
    assert_eq!(cartridge.read_byte(0xA000), 0x12);
    assert_eq!(cartridge.read_byte(0xBFFF), 0x34);
    // Only a low nibble of 0xA enables.
    cartridge.write_byte(0x1FFF, 0x0B);
    assert_eq!(cartridge.read_byte(0xA000), 0xFF);
    cartridge.write_byte(0xA000, 0x99);
    cartridge.write_byte(0x0000, 0xFA);
    assert_eq!(cartridge.read_byte(0xA000), 0x12);
    cartridge.write_byte(0x0000, 0x02);
    assert_eq!(cartridge.read_byte(0xA000), 0xFF);
    cartridge.write_byte(0x0000, 0x08);
    assert_eq!(cartridge.read_byte(0xA000), 0xFF);
}

#[test]
fn mbc1_ram_survives_bank_switches() {
    let mut cartridge = loaded(banked_image());
    cartridge.write_byte(0x0000, 0x0A);
    cartridge.write_byte(0xA123, 0x77);
    cartridge.write_byte(0x2000, 0x05);
    assert_eq!(cartridge.read_byte(0xA123), 0x77);
    assert_eq!(cartridge.read_byte(0x4000), 0x05);
}

#[test]
fn mbc1_without_ram_reads_open_bus() {
    let mut cartridge = loaded(image(2, 0x01, 0x00));
    cartridge.write_byte(0x0000, 0x0A);
    cartridge.write_byte(0xA000, 0x12);
    assert_eq!(cartridge.read_byte(0xA000), 0xFF);
}

#[test]
fn mbc1_ignores_other_writes_and_reads_open_bus_elsewhere() {
    let mut cartridge = loaded(banked_image());
    cartridge.write_byte(0x4000, 0x01);
    cartridge.write_byte(0x6000, 0x01);
    cartridge.write_byte(0x8000, 0x01);
    assert_eq!(cartridge.read_byte(0x4000), 0x01);
    assert_eq!(cartridge.read_byte(0x8000), 0xFF);
    assert_eq!(cartridge.read_byte(0xC000), 0xFF);
    assert_eq!(cartridge.read_byte(0xFFFF), 0xFF);
}

#[test]
fn flat_memory_reads_back_everywhere() {
    let mut memory = JsMoo::new();
    assert_eq!(memory.read_byte(0x0000), 0);
    assert_eq!(memory.read_byte(0xFFFF), 0);
    memory.write_byte(0x0000, 0x12);
    memory.write_byte(0x8000, 0x34);
    memory.write_byte(0xFFFF, 0x56);
    assert_eq!(memory.read_byte(0x0000), 0x12);
    assert_eq!(memory.read_byte(0x8000), 0x34);
    assert_eq!(memory.read_byte(0xFFFF), 0x56);
    assert_eq!(memory.read_byte(0x0001), 0);
}
