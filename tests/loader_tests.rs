use nestacean::nes::bus::Bus;
use nestacean::nes::cart::{Cart, Mirroring};
use nestacean::nes::mem::{Memory, Read, Write};

fn ines(prg_pages: u8, chr_pages: u8, ctrl1: u8, ctrl2: u8, body: usize) -> Vec<u8> {
    let mut raw = vec![0x4E, 0x45, 0x53, 0x1A, prg_pages, chr_pages, ctrl1, ctrl2];
    raw.resize(16, 0);
    for i in 0..body {
        raw.push((i % 251) as u8);
    }
    raw
}

#[test]
fn cart_parses_rom_banks() {
    let raw = ines(1, 1, 0b0001_0001, 0b0010_0000, 16384 + 8192);
    let cart = Cart::new(&raw).unwrap();
    assert_eq!(cart.prg_rom.len(), 16384);
    assert_eq!(cart.chr_rom.len(), 8192);
    assert_eq!(cart.prg_rom[0], raw[16]);
    assert_eq!(cart.chr_rom[0], raw[16 + 16384]);
    assert_eq!(cart.mapper, 0x21);
    assert_eq!(cart.screen_mirroring, Mirroring::Vertical);
}

#[test]
fn cart_skips_trainer_and_prefers_four_screen() {
    let raw = ines(1, 0, 0b0000_1101, 0, 512 + 16384);
    let cart = Cart::new(&raw).unwrap();
    assert_eq!(cart.prg_rom[0], raw[16 + 512]);
    assert_eq!(cart.chr_rom.len(), 0);
    assert_eq!(cart.screen_mirroring, Mirroring::FourScreen);
    let raw = ines(0, 0, 0, 0, 0);
    assert_eq!(Cart::new(&raw).unwrap().screen_mirroring, Mirroring::Horizontal);
}

#[test]
fn cart_rejects_missing_tag() {
    let mut raw = ines(1, 0, 0, 0, 16384);
    raw[0] = 0x4F;
    assert_eq!(Cart::new(&raw).err().unwrap(), "File is not in iNES file format");
    assert_eq!(Cart::new(&vec![0x4E, 0x45]).err().unwrap(), "File is not in iNES file format");
}

#[test]
fn cart_rejects_nes2() {
    let raw = ines(1, 0, 0, 0b0000_1000, 16384);
    assert_eq!(Cart::new(&raw).err().unwrap(), "NES2.0 format not supported");
}

#[test]
fn cart_rejects_truncated_file() {
    let raw = ines(2, 0, 0, 0, 16384);
    assert_eq!(Cart::new(&raw).err().unwrap(), "File is shorter than its header announces");
}

#[test]
fn bus_mirrors_ram() {
    let cart = Cart::new(&ines(0, 0, 0, 0, 0)).unwrap();
    let mut bus = Bus::new(cart);
    bus.write(0x0801, 0x42);
    assert_eq!(bus.read(0x0001), 0x42);
    assert_eq!(bus.read(0x1801), 0x42);
    bus.write_u16(0x07FF, 0xBEEF);
    assert_eq!(bus.read(0x07FF), 0xEF);
    assert_eq!(bus.read(0x0800), 0xBE);
    assert_eq!(bus.read_u16(0x0FFF), 0xBEEF);
    bus.write(0x8000, 0x11);
    assert_eq!(bus.read(0x8000), 0x00);
}

#[test]
fn memory_resizes_with_zeros() {
    let m = Memory::<Vec<u8>>::rom().with_size(4);
    assert!(!m.is_ram());
    let mut m = m;
    m.resize(2);
    let n: Memory<Vec<u8>> = Memory::new();
    assert!(!n.is_ram());
}
