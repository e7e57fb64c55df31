use vstd::prelude::*;

verus! {

/// The PPU's status byte: bit 7 VBlank, bit 6 sprite-0 hit, bit 5 sprite
/// overflow; the five low bits echo the bus.
#[derive(Clone, Copy, PartialEq, Eq, Structural, Debug)]
pub struct StatusRegister(pub u8);

impl StatusRegister {
    /// The byte with its VBlank bit forced to `flag`.
    pub open spec fn with_vblank(self, flag: bool) -> StatusRegister {
        if flag {
            StatusRegister(self.0 | 0b1000_0000)
        } else {
            StatusRegister(self.0 & 0b0111_1111)
        }
    }

    /// The byte with its sprite-0 bit forced to `flag`.
    pub open spec fn with_sprite_0_hit(self, flag: bool) -> StatusRegister {
        if flag {
            StatusRegister(self.0 | 0b0100_0000)
        } else {
            StatusRegister(self.0 & 0b1011_1111)
        }
    }

    pub open spec fn in_vblank(self) -> bool {
        self.0 & 0b1000_0000 != 0
    }

    pub fn new() -> (r: Self)
        ensures
            r == StatusRegister(0),
    {
        Self(0)
    }

    pub fn update(&mut self, data: u8)
        ensures
            *final(self) == StatusRegister(data),
    {
        self.0 = data;
    }

    pub fn get(&self) -> (r: u8)
        ensures
            r == self.0,
    {
        self.0
    }

    pub fn bus(&self) -> (r: u8)
        ensures
            r == self.0 & 0b0001_1111,
    {
        self.0 & 0b0001_1111
    }

    pub fn sprite_overflow(&self) -> (r: bool)
        ensures
            r == (self.0 & 0b0010_0000 != 0),
    {
        self.0 & 0b0010_0000 != 0
    }

    pub fn sprite_0_hit(&self) -> (r: bool)
        ensures
            r == (self.0 & 0b0100_0000 != 0),
    {
        self.0 & 0b0100_0000 != 0
    }

    pub fn vblank(&self) -> (r: bool)
        ensures
            r == self.in_vblank(),
    {
        self.0 & 0b1000_0000 != 0
    }

    pub fn set_vblank(&mut self, flag: bool)
        ensures
            *final(self) == old(self).with_vblank(flag),
    {
        self.0 = if flag {
            self.0 | 0b1000_0000
        } else {
            self.0 & 0b0111_1111
        }
    }

    pub fn set_sprite_0_hit(&mut self, flag: bool)
        ensures
            *final(self) == old(self).with_sprite_0_hit(flag),
    {
        self.0 = if flag {
            self.0 | 0b0100_0000
        } else {
            self.0 & 0b1011_1111
        }
    }
}

/// Setting a flag makes its getter answer with what was set, and leaves the
/// other flag as it was.
pub proof fn lemma_status_flags(s: StatusRegister, flag: bool)
    ensures
        s.with_vblank(flag).in_vblank() == flag,
        (s.with_vblank(flag).0 & 0b0100_0000 != 0) == (s.0 & 0b0100_0000 != 0),
        (s.with_sprite_0_hit(flag).0 & 0b0100_0000 != 0) == flag,
        s.with_sprite_0_hit(flag).in_vblank() == s.in_vblank(),
{
    let b = s.0;
    assert((b | 0b1000_0000) & 0b1000_0000 != 0 && (b & 0b0111_1111) & 0b1000_0000 == 0
        && (b | 0b1000_0000) & 0b0100_0000 == b & 0b0100_0000
        && (b & 0b0111_1111) & 0b0100_0000 == b & 0b0100_0000
        && (b | 0b0100_0000) & 0b0100_0000 != 0 && (b & 0b1011_1111) & 0b0100_0000 == 0
        && (b | 0b0100_0000) & 0b1000_0000 == b & 0b1000_0000
        && (b & 0b1011_1111) & 0b1000_0000 == b & 0b1000_0000) by (bit_vector);
}

} // verus!
