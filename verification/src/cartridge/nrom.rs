use vstd::prelude::*;
use crate::cartridge::{Cartridge, Mirroring, PRG_ROM_BANK_SIZE};
use crate::memory::{MemoryRead, MemoryWrite};
use crate::ppu::{Tile, TileSize};

verus! {

/// A mapper-0 board: program ROM at a fixed place, no bank switching.
pub struct Rom {
    pub prg_rom: Vec<u8>,
    pub chr_rom: Vec<u8>,
    pub trainer: Vec<u8>,
    pub prg_ram: Vec<u8>,
    pub mirroring: Mirroring,
    pub writable: bool,
}

/// What a mapper-0 board holds.
pub struct RomState {
    pub prg_rom: Seq<u8>,
    pub chr_rom: Seq<u8>,
    pub trainer: Seq<u8>,
    pub prg_ram: Seq<u8>,
    pub mirroring: Mirroring,
    pub writable: bool,
}

impl View for Rom {
    type V = RomState;

    open spec fn view(&self) -> RomState {
        RomState {
            prg_rom: self.prg_rom@,
            chr_rom: self.chr_rom@,
            trainer: self.trainer@,
            prg_ram: self.prg_ram@,
            mirroring: self.mirroring,
            writable: self.writable,
        }
    }
}

impl RomState {
    /// Where in program ROM a CPU address at or above 0x8000 lands: a ROM of
    /// one bank or less shows in both halves, a larger one runs through.
    pub open spec fn prg_index(self, address: u16) -> int {
        if address >= 0xC000 && self.prg_rom.len() <= 0x4000 {
            address - 0xC000
        } else {
            address - 0x8000
        }
    }

    /// A CPU read of `address` stays inside the storage behind it.
    pub open spec fn backs_read(self, address: u16) -> bool {
        if address < 0x6000 {
            true
        } else if address < 0x8000 {
            self.prg_ram.len() == 0 || address - 0x6000 < self.prg_ram.len()
        } else {
            self.prg_index(address) < self.prg_rom.len()
        }
    }

    /// What a CPU read of `address` returns: work RAM (or zero where the
    /// board has none) from 0x6000, program ROM from 0x8000, nothing below.
    pub open spec fn memory_read(self, address: u16) -> MemoryRead {
        if address < 0x6000 {
            MemoryRead::Pass
        } else if address < 0x8000 {
            if self.prg_ram.len() != 0 {
                MemoryRead::Value(self.prg_ram[address - 0x6000])
            } else {
                MemoryRead::Value(0)
            }
        } else {
            MemoryRead::Value(self.prg_rom[self.prg_index(address)])
        }
    }

    /// A CPU write to `address` stays inside the storage behind it.
    pub open spec fn backs_write(self, address: u16) -> bool {
        if 0x6000 <= address < 0x8000 {
            if self.prg_ram.len() != 0 {
                address - 0x6000 < self.prg_ram.len()
            } else if self.writable {
                address - 0x6000 < self.chr_rom.len()
            } else {
                true
            }
        } else {
            true
        }
    }

    /// The board after a CPU write, and its answer. Only 0x6000..0x8000
    /// takes writes: into work RAM where there is some, else into writable
    /// character memory; everything else is blocked.
    pub open spec fn memory_write(self, address: u16, value: u8) -> (MemoryWrite, RomState) {
        if 0x6000 <= address < 0x8000 {
            if self.prg_ram.len() != 0 {
                (
                    MemoryWrite::Value(value),
                    RomState { prg_ram: self.prg_ram.update(address - 0x6000, value), ..self },
                )
            } else if self.writable {
                (
                    MemoryWrite::Value(value),
                    RomState { chr_rom: self.chr_rom.update(address - 0x6000, value), ..self },
                )
            } else {
                (MemoryWrite::Block, self)
            }
        } else {
            (MemoryWrite::Block, self)
        }
    }

    /// What the PPU reads at `address`: character memory below 0x2000.
    pub open spec fn ppu_read(self, address: u16) -> MemoryRead {
        if address < 0x2000 {
            MemoryRead::Value(self.chr_rom[address as int])
        } else {
            MemoryRead::Pass
        }
    }

    /// The board after a PPU write, and its answer: character memory takes
    /// the byte only where it is RAM.
    pub open spec fn ppu_write(self, address: u16, value: u8) -> (MemoryWrite, RomState) {
        if address < 0x2000 && self.writable {
            (
                MemoryWrite::Value(value),
                RomState { chr_rom: self.chr_rom.update(address as int, value), ..self },
            )
        } else {
            (MemoryWrite::Block, self)
        }
    }
}

impl Rom {
    pub fn new(
        prg_rom: Vec<u8>,
        chr_rom: Vec<u8>,
        trainer: Vec<u8>,
        prg_ram: Vec<u8>,
        mirroring: Mirroring,
        writable: bool,
    ) -> (r: Self)
        ensures
            r@ == (RomState {
                prg_rom: prg_rom@,
                chr_rom: chr_rom@,
                trainer: trainer@,
                prg_ram: prg_ram@,
                mirroring,
                writable,
            }),
    {
        Self { prg_rom, chr_rom, prg_ram, trainer, mirroring, writable }
    }
}

impl Cartridge for Rom {
    open spec fn backs_read(&self, address: u16) -> bool {
        self@.backs_read(address)
    }

    open spec fn backs_write(&self, address: u16) -> bool {
        self@.backs_write(address)
    }

    open spec fn chr(&self) -> Seq<u8> {
        self.chr_rom@
    }

    open spec fn chr_writable(&self) -> bool {
        self.writable
    }

    fn can_read(&self, address: u16) -> (b: bool) {
        if address < 0x6000 {
            true
        } else if address < 0x8000 {
            self.prg_ram.len() == 0 || ((address - 0x6000) as usize) < self.prg_ram.len()
        } else if address >= 0xC000 && self.prg_rom.len() <= PRG_ROM_BANK_SIZE {
            ((address - 0xC000) as usize) < self.prg_rom.len()
        } else {
            ((address - 0x8000) as usize) < self.prg_rom.len()
        }
    }

    fn can_write(&self, address: u16) -> (b: bool) {
        if 0x6000 <= address && address < 0x8000 {
            if self.prg_ram.len() != 0 {
                ((address - 0x6000) as usize) < self.prg_ram.len()
            } else if self.writable {
                ((address - 0x6000) as usize) < self.chr_rom.len()
            } else {
                true
            }
        } else {
            true
        }
    }

    fn memory_read(&self, address: u16) -> (r: MemoryRead)
        ensures
            r == self@.memory_read(address),
    {
        if address < 0x6000 {
            MemoryRead::Pass
        } else if address < 0x8000 {
            if self.prg_ram.len() != 0 {
                MemoryRead::Value(self.prg_ram[(address - 0x6000) as usize])
            } else {
                MemoryRead::Value(0)
            }
        } else if address < 0xC000 {
            MemoryRead::Value(self.prg_rom[(address - 0x8000) as usize])
        } else if self.prg_rom.len() <= PRG_ROM_BANK_SIZE {
            MemoryRead::Value(self.prg_rom[(address - 0xC000) as usize])
        } else {
            MemoryRead::Value(self.prg_rom[(address - 0x8000) as usize])
        }
    }

    fn memory_write(&mut self, address: u16, value: u8) -> (r: MemoryWrite)
        ensures
            (r, final(self)@) == old(self)@.memory_write(address, value),
    {
        if 0x6000 <= address && address < 0x8000 {
            if self.prg_ram.len() != 0 {
                self.prg_ram[(address - 0x6000) as usize] = value;
            } else if self.writable {
                self.chr_rom[(address - 0x6000) as usize] = value;
            } else {
                return MemoryWrite::Block;
            }
            MemoryWrite::Value(value)
        } else {
            MemoryWrite::Block
        }
    }

    fn tile(&self, idx: usize, size: TileSize) -> (r: Tile) {
        match size {
            TileSize::Tile8 => Tile::Tile8(crate::cartridge::copy_range(&self.chr_rom, idx, 16)),
            TileSize::Tile16 => Tile::Tile16(crate::cartridge::copy_range(&self.chr_rom, idx, 32)),
        }
    }

    fn ppu_read(&self, address: u16) -> (r: MemoryRead)
        ensures
            r == self@.ppu_read(address),
    {
        if address < 0x2000 {
            MemoryRead::Value(self.chr_rom[address as usize])
        } else {
            MemoryRead::Pass
        }
    }

    fn ppu_write(&mut self, address: u16, value: u8) -> (r: MemoryWrite)
        ensures
            (r, final(self)@) == old(self)@.ppu_write(address, value),
    {
        if address < 0x2000 {
            if self.writable {
                self.chr_rom[address as usize] = value;
                MemoryWrite::Value(value)
            } else {
                MemoryWrite::Block
            }
        } else {
            MemoryWrite::Block
        }
    }
}

} // verus!
