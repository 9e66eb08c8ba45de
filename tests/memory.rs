use gbemu::emulator::Emulator;
use gbemu::mbc::{BadMbcBuffer, Cartridge, CartridgeHeader, Mbc0, Mbc1, MbcType, new_mbc_from_buffer};
use gbemu::memory::{
    E_RAM_BANK_ADDR, ECHO_RAM_ADDR, H_RAM_ADDR, IE_REGISTER_ADDR, IO_REGISTERS_ADDR, OAM_ADDR,
    ROM_BANK_0_ADDR, ROM_BANK_X_ADDR, UNUSABLE_ADDR, V_RAM_ADDR, W_RAM_BANK_0_ADDR, W_RAM_BANK_X_ADDR,
};
use gbemu::serial::LogSerial;
use gbemu::system::System;

#[test]
fn test_rom_simple() {
    let mut mbc = Mbc1::new(4, 0, false);

    mbc.rom[0x0100] = 1;
    mbc.rom[0x4000] = 1;
    mbc.rom[0x4001] = 2;
    mbc.rom[0x8000] = 2;
    mbc.rom[0x8001] = 1;
    mbc.rom[0xC000] = 2;
    mbc.rom[0xC001] = 2;

    assert_eq!(mbc.rom(0x0100), 1);
    assert_eq!(mbc.rom(0x4000), 1);
    assert_eq!(mbc.rom(0x4001), 2);
    mbc.rom_write(0x2000, 0x02);
    assert_eq!(mbc.rom(0x2000), 0x00);
    assert_eq!(mbc.rom(0x4000), 2);
    assert_eq!(mbc.rom(0x4001), 1);
    mbc.rom_write(0x3FFF, 0x03);
    assert_eq!(mbc.rom(0x3FFF), 0x00);
    assert_eq!(mbc.rom(0x4000), 2);
    assert_eq!(mbc.rom(0x4001), 2);
}

#[test]
fn test_ram_simple() {
    let mut mbc = Mbc1::new(2, 4, false);

    mbc.ram[0x0000] = 1;
    mbc.ram[0x2000] = 1;
    mbc.ram[0x2001] = 2;
    mbc.ram[0x4000] = 2;
    mbc.ram[0x4001] = 1;
    mbc.ram[0x6000] = 2;
    mbc.ram[0x6001] = 2;

    assert_eq!(mbc.ram_read(0x0000), 0xFF);
    mbc.rom_write(0x0000, 0x0A);

    assert_eq!(mbc.ram_read(0x0000), 1);
    mbc.rom_write(0x4000, 0x01);
    assert_eq!(mbc.ram_read(0x0000), 1);
    assert_eq!(mbc.ram_read(0x0001), 2);
    mbc.rom_write(0x5000, 0x02);
    assert_eq!(mbc.rom(0x5000), 0x00);
    assert_eq!(mbc.ram_read(0x0000), 2);
    assert_eq!(mbc.ram_read(0x0001), 1);
    mbc.rom_write(0x5FFF, 0x03);
    assert_eq!(mbc.rom(0x5FFF), 0x00);
    assert_eq!(mbc.ram_read(0x0000), 2);
    assert_eq!(mbc.ram_read(0x0001), 2);
}

#[test]
fn test_memory_mapping() {
    assert_eq!(ROM_BANK_0_ADDR, 0x0000);
    assert_eq!(ROM_BANK_X_ADDR, 0x4000);
    assert_eq!(V_RAM_ADDR, 0x8000);
    assert_eq!(E_RAM_BANK_ADDR, 0xA000);
    assert_eq!(W_RAM_BANK_0_ADDR, 0xC000);
    assert_eq!(W_RAM_BANK_X_ADDR, 0xD000);
    assert_eq!(ECHO_RAM_ADDR, 0xE000);
    assert_eq!(OAM_ADDR, 0xFE00);
    assert_eq!(UNUSABLE_ADDR, 0xFEA0);
    assert_eq!(IO_REGISTERS_ADDR, 0xFF00);
    assert_eq!(H_RAM_ADDR, 0xFF80);
    assert_eq!(IE_REGISTER_ADDR, 0xFFFF);
}

fn bus() -> System {
    let cart = Cartridge::RomOnly(Mbc0::new().unwrap());
    System::new(cart, LogSerial::default())
}

#[test]
fn write_then_read_back_in_every_ram_region() {
    let mut sys = bus();
    for (addr, v) in [(0x8000u16, 0x11u8), (0x97FF, 0x12), (0x9800, 0x13), (0x9FFF, 0x14), (0xC000, 0x15),
        (0xDFFF, 0x16), (0xFE00, 0x17), (0xFE9F, 0x18), (0xFF80, 0x19), (0xFFFE, 0x1A), (0xFFFF, 0x1B)]
    {
        sys.write_byte(addr, v);
        assert_eq!(sys.read_byte(addr), v, "address {:04X}", addr);
    }
    sys.write_byte(0xE123, 0x5A);
    assert_eq!(sys.read_byte(0xC123), 0x5A);
    assert_eq!(sys.read_byte(0xE123), 0x5A);
}

#[test]
fn rom_and_unusable_writes_are_absorbed() {
    let mut sys = bus();
    sys.write_byte(0x0150, 0x77);
    assert_eq!(sys.read_byte(0x0150), 0x00);
    sys.write_byte(0xFEA0, 0x77);
    assert_eq!(sys.read_byte(0xFEA0), 0x00);
    assert_eq!(sys.read_byte(0xA000), 0xFF);
}

#[test]
fn ly_is_read_only_through_the_bus() {
    let mut sys = bus();
    sys.write_byte(0xFF44, 0x42);
    assert_eq!(sys.read_byte(0xFF44), 0x00);
    sys.write_byte(0xFF41, 0x03);
    assert_eq!(sys.read_byte(0xFF41) & 0x03, 0x02);
    assert_eq!(sys.read_byte(0xFF10), 0x00);
}

#[test]
fn dma_locks_the_bus_and_copies_oam() {
    let mut sys = bus();
    for i in 0..0xA0u16 {
        sys.write_byte(0xC000 + i, i as u8 ^ 0x5A);
    }
    sys.write_byte(0xFF90, 0x33);
    sys.write_byte(0xFF46, 0xC0);
    assert!(sys.oam_transfer);
    assert_eq!(sys.read_byte(0xC000), 0xFF);
    assert_eq!(sys.read_byte(0x0000), 0xFF);
    assert_eq!(sys.read_byte(0xFEA0), 0xFF);
    assert_eq!(sys.read_byte(0xFF90), 0x33);
    sys.write_byte(0xC000, 0x00);
    for _ in 0..162 {
        assert!(sys.oam_transfer);
        sys.oam_transfer_step();
    }
    sys.oam_transfer_step();
    assert!(!sys.oam_transfer);
    assert_eq!(sys.read_byte(0xC000), 0x5A);
    for i in 0..0xA0u16 {
        assert_eq!(sys.read_byte(0xFE00 + i), i as u8 ^ 0x5A);
    }
}

#[test]
fn header_parsing_and_bad_buffers() {
    let mut rom = vec![0u8; 0x8000];
    rom[0x0134] = b'T';
    rom[0x0135] = b'E';
    rom[0x0136] = 0;
    let h = CartridgeHeader::parse(&rom).unwrap();
    assert_eq!(h.title, b"TE".to_vec());
    assert_eq!(h.mbc_type, MbcType::Mbc0);
    assert_eq!(h.rom_banks, 2);
    assert_eq!(h.ram_banks, 0);

    let short = CartridgeHeader::parse(&vec![0u8; 0x20]).unwrap();
    assert_eq!(short.title, b"Unknown".to_vec());

    rom[0x0147] = 0x09;
    assert_eq!(new_mbc_from_buffer(rom.clone()).err().unwrap().reason, BadMbcBuffer::MbcType);
    rom[0x0147] = 0x01;
    rom[0x0148] = 0x09;
    assert_eq!(new_mbc_from_buffer(rom.clone()).err().unwrap().reason, BadMbcBuffer::RomSizeCode);
    rom[0x0148] = 0x01;
    rom[0x0149] = 0x07;
    assert_eq!(new_mbc_from_buffer(rom.clone()).err().unwrap().reason, BadMbcBuffer::RamSizeCode);
    rom[0x0149] = 0x03;
    assert!(matches!(new_mbc_from_buffer(rom.clone()), Ok(Cartridge::Mbc1(_))));
    rom[0x0147] = 0x00;
    rom[0x0149] = 0x00;
    let mut long = rom.clone();
    long.push(0);
    assert_eq!(new_mbc_from_buffer(long).err().unwrap().reason, BadMbcBuffer::RomSize);
    assert_eq!(Mbc1::new_from_buffer(vec![0u8; 0x4000 * 3], 0, false).err().unwrap().reason, BadMbcBuffer::RomBanks);
    assert_eq!(Mbc1::new_from_buffer(vec![0u8; 0x8000], 2, false).err().unwrap().reason, BadMbcBuffer::RamBanks);
    assert!(Emulator::new_from_buffer(vec![0u8; 0x10], false, None, None).is_err());
}

#[test]
fn mbc1_zero_bank_maps_to_one_and_masks_to_size() {
    let mut mbc = Mbc1::new(4, 0, false);
    mbc.rom[0x4000] = 0xA1;
    mbc.rom[0x8000] = 0xA2;
    mbc.rom_write(0x2000, 0x00);
    assert_eq!(mbc.rom(0x4000), 0xA1);
    mbc.rom_write(0x2000, 0x06);
    assert_eq!(mbc.rom(0x4000), 0xA2);
}

#[test]
fn header_is_read_from_a_buffer_of_0x14f_bytes() {
    let mut buf = vec![0u8; 0x14F];
    buf[0x0147] = 0x01;
    let h = CartridgeHeader::parse(&buf).unwrap();
    assert_eq!(h.mbc_type, MbcType::Mbc1 { ram: false, battery: false });
    let short = CartridgeHeader::parse(&vec![0u8; 0x14E]).unwrap();
    assert_eq!(short.mbc_type, MbcType::Mbc0);
    assert_eq!(short.title, b"Unknown".to_vec());
}
