use rustynes::cartridge::nrom;
use rustynes::cartridge::uxrom;
use rustynes::cartridge::{copy_range, Board, Cartridge, Mirroring, Rom};
use rustynes::device::IOHandler;
use rustynes::memory::{Fault, MemoryRead, MemoryWrite};
use rustynes::ppu::{Tile, TileSize};

fn image(prg_banks: u8, chr_banks: u8, flags6: u8, flags7: u8) -> Vec<u8> {
    let mut raw = vec![0x4E, 0x45, 0x53, 0x1A, prg_banks, chr_banks, flags6, flags7];
    raw.resize(16, 0);
    if flags6 & 0x04 != 0 {
        for i in 0..512usize {
            raw.push((i % 251) as u8);
        }
    }
    for bank in 0..prg_banks as usize {
        for i in 0..0x4000usize {
            raw.push((bank as u8).wrapping_mul(16).wrapping_add((i % 13) as u8));
        }
    }
    for i in 0..(chr_banks as usize * 0x2000) {
        raw.push((i % 7) as u8 + 0x80);
    }
    raw
}

#[test]
fn wrong_magic_is_rejected() {
    let mut raw = image(1, 1, 0, 0);
    raw[3] = 0x00;
    assert!(Rom::is_complete(&raw));
    assert!(Rom::new(&raw).is_err());
    assert!(Rom::new(&vec![0x4E, 0x45, 0x53, 0x1B]).is_err());
}

#[test]
fn reserved_bits_are_rejected() {
    for flags7 in [0x04u8, 0x08, 0x0C] {
        let raw = image(1, 1, 0, flags7);
        assert!(Rom::new(&raw).is_err());
    }
}

#[test]
fn unknown_mappers_are_rejected() {
    for (flags6, flags7) in [(0x10u8, 0x00u8), (0x30, 0x00), (0x00, 0x10), (0x20, 0x40)] {
        let raw = image(1, 1, flags6, flags7);
        assert!(Rom::is_complete(&raw));
        assert!(Rom::new(&raw).is_err());
    }
    assert!(Rom::new(&image(1, 1, 0x00, 0x00)).is_ok());
    assert!(Rom::new(&image(1, 1, 0x20, 0x00)).is_ok());
}

#[test]
fn completeness_of_an_image() {
    assert!(!Rom::is_complete(&vec![0x4E, 0x45, 0x53]));
    assert!(!Rom::is_complete(&vec![0x4E, 0x45, 0x53, 0x1A, 1, 1, 0]));
    // a reserved bit ends the matter at the flag bytes
    assert!(Rom::is_complete(&vec![0x4E, 0x45, 0x53, 0x1A, 1, 1, 0, 0x04]));
    let mut raw = image(2, 1, 0x04, 0);
    assert_eq!(raw.len(), 16 + 512 + 0x8000 + 0x2000);
    assert!(Rom::is_complete(&raw));
    raw.pop();
    assert!(!Rom::is_complete(&raw));
    // an image without a program bank is complete all the same
    assert!(Rom::is_complete(&image(0, 1, 0x20, 0)));
    assert!(Rom::is_complete(&image(0, 1, 0x00, 0)));
}

#[test]
fn a_mapper_2_image_without_a_program_bank_loads() {
    let mut rom = Rom::new(&image(0, 1, 0x20, 0)).unwrap();
    assert_eq!(rom.info().mapper, 2);
    assert_eq!(rom.info().prg_rom_size, 0);
    match &rom.board {
        Board::Uxrom(board) => {
            assert!(board.prg_rom.is_empty());
            assert_eq!(board.bank, 0);
            assert_eq!(board.last_bank, 0);
        }
        Board::Nrom(_) => panic!("mapper 2 expected"),
    }
    // there is nothing to read from 0x8000 on
    assert_eq!(rom.read(0x8000), Err(Fault::OutOfRange(0x8000)));
    assert_eq!(rom.read(0xC000), Err(Fault::OutOfRange(0xC000)));
    assert_eq!(rom.read(0xFFFC), Err(Fault::OutOfRange(0xFFFC)));
    assert_eq!(rom.read(0x6000), Ok(MemoryRead::Value(0)));
    assert_eq!(rom.write(0x8000, 3), Ok(MemoryWrite::Value(3)));

    let board = uxrom::Rom::new(
        vec![1; 0x3FFF],
        Vec::new(),
        Vec::new(),
        Vec::new(),
        Mirroring::Horizontal,
        false,
    );
    assert_eq!(board.last_bank, 0);
    let board = uxrom::Rom::new(
        vec![1; 0xC000],
        Vec::new(),
        Vec::new(),
        Vec::new(),
        Mirroring::Horizontal,
        false,
    );
    assert_eq!(board.last_bank, 2);
}

#[test]
fn header_fields() {
    let rom = Rom::new(&image(2, 1, 0x01, 0x00)).unwrap();
    assert_eq!(rom.info().mapper, 0);
    assert_eq!(rom.info().mirroring, Mirroring::Vertical);
    assert_eq!(rom.info().prg_rom_size, 0x8000);
    assert_eq!(rom.info().chr_rom_size, 0x2000);
    assert!(!rom.chr_ram());

    let rom = Rom::new(&image(1, 0, 0x28, 0x00)).unwrap();
    assert_eq!(rom.info().mapper, 2);
    assert_eq!(rom.info().mirroring, Mirroring::FourScreen);
    assert_eq!(rom.info().chr_rom_size, 0);
    assert!(rom.chr_ram());
    assert_eq!(rom.chr_rom(), vec![0u8; 0x2000]);

    let rom = Rom::new(&image(1, 1, 0x00, 0x00)).unwrap();
    assert_eq!(rom.info().mirroring, Mirroring::Horizontal);
}

#[test]
fn sections_of_the_image() {
    let raw = image(2, 1, 0x04, 0x00);
    let rom = Rom::new(&raw).unwrap();
    match &rom.board {
        Board::Nrom(board) => {
            assert_eq!(board.trainer, raw[0x10..0x210].to_vec());
            assert_eq!(board.prg_rom, raw[0x210..0x8210].to_vec());
            assert_eq!(board.chr_rom, raw[0x8210..0xA210].to_vec());
            assert!(board.prg_ram.is_empty());
            assert!(!board.writable);
        }
        Board::Uxrom(_) => panic!("mapper 0 expected"),
    }
    assert_eq!(rom.chr_rom(), raw[0x8210..0xA210].to_vec());

    let raw = image(1, 1, 0x02, 0x00);
    let rom = Rom::new(&raw).unwrap();
    match &rom.board {
        Board::Nrom(board) => {
            assert!(board.trainer.is_empty());
            assert!(board.prg_ram.is_empty());
            assert_eq!(board.prg_rom, raw[0x10..0x4010].to_vec());
        }
        Board::Uxrom(_) => panic!("mapper 0 expected"),
    }
    assert_eq!(copy_range(&raw, 4, 3), vec![1, 1, 0x02]);
}

#[test]
fn nrom_maps_one_bank_twice() {
    let raw = image(1, 1, 0, 0);
    let rom = Rom::new(&raw).unwrap();
    assert_eq!(rom.memory_read(0x8000), MemoryRead::Value(raw[0x10]));
    assert_eq!(rom.memory_read(0xC000), MemoryRead::Value(raw[0x10]));
    assert_eq!(rom.memory_read(0xBFFF), MemoryRead::Value(raw[0x400F]));
    assert_eq!(rom.memory_read(0xFFFF), MemoryRead::Value(raw[0x400F]));
    assert_eq!(rom.memory_read(0x5FFF), MemoryRead::Pass);
    assert_eq!(rom.memory_read(0x6000), MemoryRead::Value(0));

    let raw = image(2, 1, 0, 0);
    let rom = Rom::new(&raw).unwrap();
    assert_eq!(rom.memory_read(0xC000), MemoryRead::Value(raw[0x4010]));
    assert_eq!(rom.memory_read(0xFFFF), MemoryRead::Value(raw[0x800F]));
    assert_ne!(raw[0x10], raw[0x4010]);
}

#[test]
fn nrom_writes() {
    let mut rom = Rom::new(&image(1, 1, 0, 0)).unwrap();
    assert_eq!(rom.memory_write(0x6000, 1), MemoryWrite::Block);
    assert_eq!(rom.memory_write(0x8000, 1), MemoryWrite::Block);
    assert_eq!(rom.memory_write(0x0000, 1), MemoryWrite::Block);
    assert_eq!(rom.ppu_write(0x0010, 9), MemoryWrite::Block);

    // character RAM
    let mut rom = Rom::new(&image(1, 0, 0, 0)).unwrap();
    assert_eq!(rom.ppu_write(0x0010, 9), MemoryWrite::Value(9));
    assert_eq!(rom.ppu_read(0x0010), MemoryRead::Value(9));
    assert_eq!(rom.ppu_write(0x2000, 9), MemoryWrite::Block);
    assert_eq!(rom.ppu_read(0x2000), MemoryRead::Pass);
    assert_eq!(rom.memory_write(0x6004, 7), MemoryWrite::Value(7));
    assert_eq!(rom.ppu_read(0x0004), MemoryRead::Value(7));

    // work RAM
    let mut board = nrom::Rom::new(
        vec![1; 0x4000],
        vec![2; 0x2000],
        Vec::new(),
        vec![0; 0x2000],
        Mirroring::Horizontal,
        false,
    );
    assert_eq!(board.memory_write(0x7FFF, 0x5A), MemoryWrite::Value(0x5A));
    assert_eq!(board.memory_read(0x7FFF), MemoryRead::Value(0x5A));
    assert_eq!(board.memory_read(0x8000), MemoryRead::Value(1));
    assert!(board.can_read(0x7FFF) && board.can_write(0x7FFF));
}

#[test]
fn uxrom_switches_the_low_bank_and_fixes_the_last() {
    let raw = image(4, 0, 0x20, 0);
    let mut rom = Rom::new(&raw).unwrap();
    let bank = |n: usize| 0x10 + n * 0x4000;
    assert_eq!(rom.memory_read(0x8000), MemoryRead::Value(raw[bank(0)]));
    assert_eq!(rom.memory_read(0xC000), MemoryRead::Value(raw[bank(3)]));
    assert_eq!(rom.memory_read(0xFFFF), MemoryRead::Value(raw[bank(3) + 0x3FFF]));

    assert_eq!(rom.memory_write(0x8000, 0xF2), MemoryWrite::Value(0xF2));
    assert_eq!(rom.memory_read(0x8000), MemoryRead::Value(raw[bank(2)]));
    assert_eq!(rom.memory_read(0xBFFF), MemoryRead::Value(raw[bank(2) + 0x3FFF]));
    assert_eq!(rom.memory_read(0xC000), MemoryRead::Value(raw[bank(3)]));
    assert_eq!(rom.memory_write(0xFFFF, 0x01), MemoryWrite::Value(0x01));
    assert_eq!(rom.memory_read(0x8001), MemoryRead::Value(raw[bank(1) + 1]));
    assert_ne!(raw[bank(1)], raw[bank(2)]);
    assert_eq!(rom.memory_write(0x5000, 0x01), MemoryWrite::Block);

    // a bank that the cartridge does not have
    assert_eq!(rom.write(0x8000, 0x07), Ok(MemoryWrite::Value(0x07)));
    assert!(!rom.can_read(0x8000));
    assert!(rom.can_read(0xC000));
    assert_eq!(rom.read(0x8000), Err(Fault::OutOfRange(0x8000)));
    assert_eq!(rom.read(0xC000), Ok(MemoryRead::Value(raw[bank(3)])));
}

#[test]
fn uxrom_board_directly() {
    let mut board = uxrom::Rom::new(
        vec![3; 0x8000],
        vec![0; 0x2000],
        Vec::new(),
        Vec::new(),
        Mirroring::Vertical,
        true,
    );
    assert_eq!(board.bank, 0);
    assert_eq!(board.last_bank, 1);
    // without work RAM the byte lands in character RAM
    assert_eq!(board.memory_write(0x6001, 0x44), MemoryWrite::Value(0x44));
    assert_eq!(board.ppu_read(0x0001), MemoryRead::Value(0x44));
    assert_eq!(board.ppu_write(0x0001, 0x55), MemoryWrite::Value(0x55));
    assert_eq!(board.memory_read(0x6001), MemoryRead::Value(0));
    assert_eq!(board.memory_read(0x1000), MemoryRead::Pass);

    // character ROM takes no writes from either side
    let mut board = uxrom::Rom::new(
        vec![3; 0x4000],
        vec![9; 0x2000],
        Vec::new(),
        Vec::new(),
        Mirroring::Vertical,
        false,
    );
    assert_eq!(board.memory_write(0x6001, 0x44), MemoryWrite::Block);
    assert_eq!(board.ppu_write(0x0001, 0x55), MemoryWrite::Block);
    assert_eq!(board.ppu_read(0x0001), MemoryRead::Value(9));
    assert_eq!(board.memory_read(0xC000), MemoryRead::Value(3));
}

#[test]
fn cartridge_as_a_bus_handler() {
    let raw = image(1, 1, 0, 0);
    let mut rom = Rom::new(&raw).unwrap();
    assert_eq!(rom.read(0x8000), Ok(MemoryRead::Value(raw[0x10])));
    assert_eq!(rom.read(0x1234), Ok(MemoryRead::Pass));
    assert_eq!(rom.write(0x8000, 1), Ok(MemoryWrite::Block));

    let mut empty = Rom::empty();
    assert_eq!(empty.read(0xFFFC), Err(Fault::OutOfRange(0xFFFC)));
    assert_eq!(empty.read(0x6000), Ok(MemoryRead::Value(0)));
    assert_eq!(empty.write(0x6000, 1), Ok(MemoryWrite::Block));

    // character RAM of a mapper-0 cartridge takes writes at 0x6000, as far as
    // it reaches
    let mut rom = Rom::new(&image(1, 0, 0, 0)).unwrap();
    assert_eq!(rom.write(0x7FFF, 3), Ok(MemoryWrite::Value(3)));
    assert_eq!(rom.ppu_read(0x1FFF), MemoryRead::Value(3));
}

#[test]
fn tiles_are_cut_from_character_memory() {
    let raw = image(1, 1, 0, 0);
    let rom = Rom::new(&raw).unwrap();
    let chr = rom.chr_rom();
    match rom.tile(32, TileSize::Tile8) {
        Tile::Tile8(bytes) => assert_eq!(bytes, chr[32..48].to_vec()),
        Tile::Tile16(_) => panic!("an 8 x 8 tile expected"),
    }
    match rom.tile(0x1FE0, TileSize::Tile16) {
        Tile::Tile16(bytes) => assert_eq!(bytes, chr[0x1FE0..0x2000].to_vec()),
        Tile::Tile8(_) => panic!("an 8 x 16 tile expected"),
    }
}
