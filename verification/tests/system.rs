use emu6502::{Cartridge, Mirroring, BUS, RAM};

fn image(prg_banks: u8, chr_banks: u8, flags6: u8, flags7: u8) -> Vec<u8> {
    let prg = prg_banks as usize * 16384;
    let chr = chr_banks as usize * 8192;
    let mut raw = vec![0u8; 16 + prg + chr];
    raw[0] = 0x4E;
    raw[1] = 0x45;
    raw[2] = 0x53;
    raw[3] = 0x1A;
    raw[4] = prg_banks;
    raw[5] = chr_banks;
    raw[6] = flags6;
    raw[7] = flags7;
    raw
}

#[test]
fn cartridge_parses_a_minimal_image() {
    let mut raw = image(1, 1, 0x00, 0x00);
    raw[16] = 0xAA; // first PRG byte
    raw[16 + 16384] = 0xBB; // first CHR byte

    let cartridge = Cartridge::new(&raw).unwrap();

    assert_eq!(cartridge.prg.len(), 16384);
    assert_eq!(cartridge.chr.len(), 8192);
    assert_eq!(cartridge.prg[0], 0xAA);
    assert_eq!(cartridge.chr[0], 0xBB);
    assert_eq!(cartridge.mapper, 0);
    assert_eq!(cartridge.mirroring, Mirroring::Horizontal);
}

#[test]
fn cartridge_reads_mapper_and_mirroring() {
    let raw = image(1, 0, 0x11, 0x20);
    let cartridge = Cartridge::new(&raw).unwrap();
    assert_eq!(cartridge.mapper, 0x21);
    assert_eq!(cartridge.mirroring, Mirroring::Vertical);

    let raw = image(1, 0, 0x08, 0x00);
    let cartridge = Cartridge::new(&raw).unwrap();
    assert_eq!(cartridge.mirroring, Mirroring::FourScreen);
}

#[test]
fn cartridge_rejects_a_wrong_tag() {
    let mut raw = image(0, 0, 0, 0);
    raw[0] = 0x00;
    let err = Cartridge::new(&raw).unwrap_err();
    assert_eq!(err, "File is not in iNES file format");
}

#[test]
fn cartridge_rejects_the_second_format_version() {
    let raw = image(0, 0, 0x00, 0x08);
    let err = Cartridge::new(&raw).unwrap_err();
    assert_eq!(err, "NES2.0 format is not supported");
}

#[test]
fn ram_mirrors_every_two_kib() {
    let mut ram = RAM::new();
    ram.write_byte(0x0001, 0x42);
    assert_eq!(ram.read_byte(0x0001), 0x42);
    assert_eq!(ram.read_byte(0x0801), 0x42);
    assert_eq!(ram.read_byte(0x1801), 0x42);
}

#[test]
fn bus_maps_ram_and_prg() {
    let mut raw = image(1, 0, 0, 0);
    raw[16] = 0x11; // PRG offset 0x0000, visible at 0x8000 and 0xC000
    let cartridge = Cartridge::new(&raw).unwrap();
    let mut bus = BUS::new(cartridge);

    bus.write_byte(0x0000, 0x55);
    assert_eq!(bus.read_byte(0x0000), 0x55);
    assert_eq!(bus.read_byte(0x0800), 0x55); // RAM mirror
    assert_eq!(bus.read_byte(0x2000), 0x00); // ignored window
    assert_eq!(bus.read_byte(0x8000), 0x11);
    assert_eq!(bus.read_byte(0xC000), 0x11); // single bank mirrored
    assert_eq!(bus.read_prg(0xC000), 0x11);

    bus.write_byte(0x2345, 0x77); // swallowed
    assert_eq!(bus.read_byte(0x2345), 0x00);
}
