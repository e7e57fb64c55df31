use vstd::prelude::*;
use crate::bits::lemma_and_bounds_u8;
use crate::cartridge::{Cartridge, Mirroring, PRG_ROM_BANK_SIZE};
use crate::memory::{MemoryRead, MemoryWrite};
use crate::ppu::{Tile, TileSize};

verus! {

/// A mapper-2 board: a switchable 16 KiB program bank at 0x8000 and the last
/// bank fixed at 0xC000.
pub struct Rom {
    pub prg_rom: Vec<u8>,
    pub chr_rom: Vec<u8>,
    pub trainer: Vec<u8>,
    pub prg_ram: Vec<u8>,
    pub mirroring: Mirroring,
    pub writable: bool,
    pub bank: usize,
    pub last_bank: usize,
}

/// What a mapper-2 board holds.
pub struct RomState {
    pub prg_rom: Seq<u8>,
    pub chr_rom: Seq<u8>,
    pub trainer: Seq<u8>,
    pub prg_ram: Seq<u8>,
    pub mirroring: Mirroring,
    pub writable: bool,
    pub bank: usize,
    pub last_bank: usize,
}

impl View for Rom {
    type V = RomState;

    open spec fn view(&self) -> RomState {
        RomState {
            prg_rom: self.prg_rom@,
            chr_rom: self.chr_rom@,
            trainer: self.trainer@,
            prg_ram: self.prg_ram@,
            mirroring: self.mirroring,
            writable: self.writable,
            bank: self.bank,
            last_bank: self.last_bank,
        }
    }
}

impl RomState {
    /// Where in program ROM a CPU address at or above 0x8000 lands: the
    /// selected bank below 0xC000, the last bank from there on.
    pub open spec fn prg_index(self, address: u16) -> int {
        if address < 0xC000 {
            self.bank * 0x4000 + (address - 0x8000)
        } else {
            self.last_bank * 0x4000 + (address - 0xC000)
        }
    }

    /// A CPU read of `address` stays inside the storage behind it.
    pub open spec fn backs_read(self, address: u16) -> bool {
        if address < 0x6000 {
            true
        } else if address < 0x8000 {
            self.prg_ram.len() == 0 || address - 0x6000 < self.prg_ram.len()
        } else {
            self.prg_index(address) < self.prg_rom.len()
        }
    }

    /// What a CPU read of `address` returns: work RAM (or zero where the
    /// board has none) from 0x6000, banked program ROM from 0x8000, nothing
    /// below.
    pub open spec fn memory_read(self, address: u16) -> MemoryRead {
        if address < 0x6000 {
            MemoryRead::Pass
        } else if address < 0x8000 {
            if self.prg_ram.len() != 0 {
                MemoryRead::Value(self.prg_ram[address - 0x6000])
            } else {
                MemoryRead::Value(0)
            }
        } else {
            MemoryRead::Value(self.prg_rom[self.prg_index(address)])
        }
    }

    /// A CPU write to `address` stays inside the storage behind it.
    pub open spec fn backs_write(self, address: u16) -> bool {
        if 0x6000 <= address < 0x8000 {
            if self.prg_ram.len() != 0 {
                address - 0x6000 < self.prg_ram.len()
            } else if self.writable {
                address - 0x6000 < self.chr_rom.len()
            } else {
                true
            }
        } else {
            true
        }
    }

    /// The board after a CPU write, and its answer. 0x6000..0x8000 stores
    /// the byte, in work RAM where there is some, else in writable character
    /// memory; from 0x8000 the low nibble of the byte selects the bank;
    /// everything else is blocked.
    pub open spec fn memory_write(self, address: u16, value: u8) -> (MemoryWrite, RomState) {
        if address < 0x6000 {
            (MemoryWrite::Block, self)
        } else if address < 0x8000 {
            if self.prg_ram.len() != 0 {
                (
                    MemoryWrite::Value(value),
                    RomState { prg_ram: self.prg_ram.update(address - 0x6000, value), ..self },
                )
            } else if self.writable {
                (
                    MemoryWrite::Value(value),
                    RomState { chr_rom: self.chr_rom.update(address - 0x6000, value), ..self },
                )
            } else {
                (MemoryWrite::Block, self)
            }
        } else {
            (MemoryWrite::Value(value), RomState { bank: (value & 0x0F) as usize, ..self })
        }
    }

    /// What the PPU reads at `address`: character memory below 0x2000.
    pub open spec fn ppu_read(self, address: u16) -> MemoryRead {
        if address < 0x2000 {
            MemoryRead::Value(self.chr_rom[address as int])
        } else {
            MemoryRead::Pass
        }
    }

    /// The board after a PPU write, and its answer: character memory takes
    /// the byte only where it is RAM.
    pub open spec fn ppu_write(self, address: u16, value: u8) -> (MemoryWrite, RomState) {
        if address < 0x2000 && self.writable {
            (
                MemoryWrite::Value(value),
                RomState { chr_rom: self.chr_rom.update(address as int, value), ..self },
            )
        } else {
            (MemoryWrite::Block, self)
        }
    }
}

/// The number of the last bank of a program ROM of `len` bytes; a ROM that
/// holds no whole bank has none, and the number is 0.
pub open spec fn last_bank_of(len: int) -> usize {
    if len / 0x4000 == 0 {
        0
    } else {
        (len / 0x4000 - 1) as usize
    }
}

impl Rom {
    pub fn new(
        prg_rom: Vec<u8>,
        chr_rom: Vec<u8>,
        trainer: Vec<u8>,
        prg_ram: Vec<u8>,
        mirroring: Mirroring,
        writable: bool,
    ) -> (r: Self)
        ensures
            r@ == (RomState {
                prg_rom: prg_rom@,
                chr_rom: chr_rom@,
                trainer: trainer@,
                prg_ram: prg_ram@,
                mirroring,
                writable,
                bank: 0,
                last_bank: last_bank_of(prg_rom.len() as int),
            }),
    {
        let banks = prg_rom.len() / PRG_ROM_BANK_SIZE;
        let last_bank = if banks == 0 {
            0
        } else {
            banks - 1
        };
        Self { prg_rom, chr_rom, prg_ram, trainer, mirroring, writable, bank: 0, last_bank }
    }
}

impl Cartridge for Rom {
    open spec fn backs_read(&self, address: u16) -> bool {
        self@.backs_read(address)
    }

    open spec fn backs_write(&self, address: u16) -> bool {
        self@.backs_write(address)
    }

    open spec fn chr(&self) -> Seq<u8> {
        self.chr_rom@
    }

    open spec fn chr_writable(&self) -> bool {
        self.writable
    }

    fn can_read(&self, address: u16) -> (b: bool) {
        if address < 0x6000 {
            true
        } else if address < 0x8000 {
            self.prg_ram.len() == 0 || ((address - 0x6000) as usize) < self.prg_ram.len()
        } else {
            let (bank, offset) = if address < 0xC000 {
                (self.bank, (address - 0x8000) as usize)
            } else {
                (self.last_bank, (address - 0xC000) as usize)
            };
            // The product is never formed before it is known to fit.
            bank <= self.prg_rom.len() / PRG_ROM_BANK_SIZE && bank * PRG_ROM_BANK_SIZE + offset
                < self.prg_rom.len()
        }
    }

    fn can_write(&self, address: u16) -> (b: bool) {
        if 0x6000 <= address && address < 0x8000 {
            if self.prg_ram.len() != 0 {
                ((address - 0x6000) as usize) < self.prg_ram.len()
            } else if self.writable {
                ((address - 0x6000) as usize) < self.chr_rom.len()
            } else {
                true
            }
        } else {
            true
        }
    }

    fn memory_read(&self, address: u16) -> (r: MemoryRead)
        ensures
            r == self@.memory_read(address),
    {
        if address < 0x6000 {
            MemoryRead::Pass
        } else if address < 0x8000 {
            if self.prg_ram.len() != 0 {
                MemoryRead::Value(self.prg_ram[(address - 0x6000) as usize])
            } else {
                MemoryRead::Value(0)
            }
        } else if address < 0xC000 {
            assert(self@.prg_index(address) < self.prg_rom.len());
            let base = self.bank * PRG_ROM_BANK_SIZE;
            let offset = (address - 0x8000) as usize;
            MemoryRead::Value(self.prg_rom[base + offset])
        } else {
            assert(self@.prg_index(address) < self.prg_rom.len());
            let base = self.last_bank * PRG_ROM_BANK_SIZE;
            let offset = (address - 0xC000) as usize;
            MemoryRead::Value(self.prg_rom[base + offset])
        }
    }

    fn memory_write(&mut self, address: u16, value: u8) -> (r: MemoryWrite)
        ensures
            (r, final(self)@) == old(self)@.memory_write(address, value),
    {
        if address < 0x6000 {
            MemoryWrite::Block
        } else if address < 0x8000 {
            if self.prg_ram.len() != 0 {
                self.prg_ram[(address - 0x6000) as usize] = value;
            } else if self.writable {
                self.chr_rom[(address - 0x6000) as usize] = value;
            } else {
                return MemoryWrite::Block;
            }
            MemoryWrite::Value(value)
        } else {
            proof {
                lemma_and_bounds_u8(value, 0x0F);
            }
            self.bank = (value & 0x0F) as usize;
            MemoryWrite::Value(value)
        }
    }

    fn tile(&self, idx: usize, size: TileSize) -> (r: Tile) {
        match size {
            TileSize::Tile8 => Tile::Tile8(crate::cartridge::copy_range(&self.chr_rom, idx, 16)),
            TileSize::Tile16 => Tile::Tile16(crate::cartridge::copy_range(&self.chr_rom, idx, 32)),
        }
    }

    fn ppu_read(&self, address: u16) -> (r: MemoryRead)
        ensures
            r == self@.ppu_read(address),
    {
        if address < 0x2000 {
            MemoryRead::Value(self.chr_rom[address as usize])
        } else {
            MemoryRead::Pass
        }
    }

    fn ppu_write(&mut self, address: u16, value: u8) -> (r: MemoryWrite)
        ensures
            (r, final(self)@) == old(self)@.ppu_write(address, value),
    {
        if address < 0x2000 {
            if self.writable {
                self.chr_rom[address as usize] = value;
                MemoryWrite::Value(value)
            } else {
                MemoryWrite::Block
            }
        } else {
            MemoryWrite::Block
        }
    }
}

} // verus!
