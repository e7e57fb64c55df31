use vstd::prelude::*;

verus! {

/// The PPU's mask byte, one rendering switch per bit.
#[derive(Clone, Copy, PartialEq, Eq, Structural, Debug)]
pub struct MaskRegister {
    pub bits: u8,
}

impl MaskRegister {
    pub const GRAYSCALE: u8 = 0b0000_0001;

    pub const BACKGROUND_LEFT: u8 = 0b0000_0010;

    pub const SPRITE_LEFT: u8 = 0b0000_0100;

    pub const BACKGROUND: u8 = 0b0000_1000;

    pub const SPRITE: u8 = 0b0001_0000;

    pub const EMPHASIZE_RED: u8 = 0b0010_0000;

    pub const EMPHASIZE_GREEN: u8 = 0b0100_0000;

    pub const EMPHASIZE_BLUE: u8 = 0b1000_0000;

    /// Every bit of `mask` is set.
    pub open spec fn has(self, mask: u8) -> bool {
        self.bits & mask == mask
    }

    pub fn new() -> (r: Self)
        ensures
            r.bits == 0,
    {
        MaskRegister { bits: 0 }
    }

    pub fn bits(&self) -> (r: u8)
        ensures
            r == self.bits,
    {
        self.bits
    }

    pub fn contains(&self, mask: u8) -> (r: bool)
        ensures
            r == self.has(mask),
    {
        self.bits & mask == mask
    }

    pub fn update(&mut self, data: u8)
        ensures
            final(self).bits == data,
    {
        self.bits = data;
    }
}

} // verus!
