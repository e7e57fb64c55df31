use vstd::prelude::*;
use crate::bits::lemma_and_bounds_u8;
use crate::cartridge::Mirroring;
use crate::ppu::TileSize;

verus! {

/// The PPU's control byte.
#[derive(Clone, Copy, PartialEq, Eq, Structural, Debug)]
pub struct ControllRegister {
    pub bits: u8,
}

impl ControllRegister {
    pub const NAMETABLE1: u8 = 0b0000_0001;

    pub const NAMETABLE2: u8 = 0b0000_0010;

    pub const VRAM_ADD_INCREMENT: u8 = 0b0000_0100;

    pub const SPRITE_PATTERN_ADDR: u8 = 0b0000_1000;

    pub const BACKGROUND_PATTERN_ADDR: u8 = 0b0001_0000;

    pub const SPRITE_SIZE: u8 = 0b0010_0000;

    pub const MASTER_SLAVE_SELECT: u8 = 0b0100_0000;

    pub const GENERATE_NMI: u8 = 0b1000_0000;

    /// Every bit of `mask` is set.
    pub open spec fn has(self, mask: u8) -> bool {
        self.bits & mask == mask
    }

    /// How far the VRAM address moves after each access to the data port.
    pub open spec fn increment(self) -> u8 {
        if self.has(Self::VRAM_ADD_INCREMENT) {
            32
        } else {
            1
        }
    }

    /// Which of the physical nametables the two select bits name under
    /// `mirroring`: under vertical mirroring the low bit decides, under
    /// horizontal mirroring the high bit, and with four screens both do.
    pub open spec fn nametable_index(self, mirroring: Mirroring) -> int {
        let select = self.bits & 0x03;
        match mirroring {
            Mirroring::Vertical => if select == 1 || select == 3 { 1 } else { 0 },
            Mirroring::Horizontal => if select == 2 || select == 3 { 1 } else { 0 },
            Mirroring::FourScreen => select as int,
        }
    }

    pub fn new() -> (r: Self)
        ensures
            r.bits == 0,
    {
        ControllRegister { bits: 0 }
    }

    pub fn bits(&self) -> (r: u8)
        ensures
            r == self.bits,
    {
        self.bits
    }

    pub fn contains(&self, mask: u8) -> (r: bool)
        ensures
            r == self.has(mask),
    {
        self.bits & mask == mask
    }

    pub fn vram_addr_increment(&self) -> (r: u8)
        ensures
            r == self.increment(),
    {
        if !self.contains(Self::VRAM_ADD_INCREMENT) {
            1
        } else {
            32
        }
    }

    pub fn sprite_pattern_addr(&self) -> (r: u16)
        ensures
            r == if self.has(Self::SPRITE_PATTERN_ADDR) { 0x1000u16 } else { 0u16 },
    {
        if !self.contains(Self::SPRITE_PATTERN_ADDR) {
            0
        } else {
            0x1000
        }
    }

    pub fn background_pattern_addr(&self) -> (r: u16)
        ensures
            r == if self.has(Self::BACKGROUND_PATTERN_ADDR) { 0x1000u16 } else { 0u16 },
    {
        if !self.contains(Self::BACKGROUND_PATTERN_ADDR) {
            0
        } else {
            0x1000
        }
    }

    pub fn sprite_size(&self) -> (r: TileSize)
        ensures
            r == if self.has(Self::SPRITE_SIZE) { TileSize::Tile16 } else { TileSize::Tile8 },
    {
        if !self.contains(Self::SPRITE_SIZE) {
            TileSize::Tile8
        } else {
            TileSize::Tile16
        }
    }

    pub fn master_slave_select(&self) -> (r: u8)
        ensures
            r == if self.has(Self::MASTER_SLAVE_SELECT) { 1u8 } else { 0u8 },
    {
        if !self.contains(Self::MASTER_SLAVE_SELECT) {
            0
        } else {
            1
        }
    }

    pub fn nametable(&self, mirroring: Mirroring) -> (r: u16)
        ensures
            r == self.nametable_index(mirroring) * 0x400,
    {
        let select = self.bits & 0x03;
        proof {
            lemma_and_bounds_u8(self.bits, 0x03);
        }
        let index: u16 = match mirroring {
            Mirroring::Vertical => if select == 1 || select == 3 { 1 } else { 0 },
            Mirroring::Horizontal => if select == 2 || select == 3 { 1 } else { 0 },
            Mirroring::FourScreen => select as u16,
        };
        index * 0x400
    }

    pub fn generate_vblank_nmi(&self) -> (r: bool)
        ensures
            r == self.has(Self::GENERATE_NMI),
    {
        self.contains(Self::GENERATE_NMI)
    }

    pub fn update(&mut self, data: u8)
        ensures
            final(self).bits == data,
    {
        self.bits = data;
    }
}

} // verus!
