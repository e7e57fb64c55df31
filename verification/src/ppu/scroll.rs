use vstd::prelude::*;

verus! {

/// The PPU's scroll port: two byte writes, x first, behind a latch of its own.
#[derive(Clone, Copy, PartialEq, Eq, Structural, Debug)]
pub struct ScrollRegister {
    pub x: u8,
    pub y: u8,
    pub toggle: bool,
}

impl ScrollRegister {
    /// The register after one byte write: the first write sets x, the second
    /// y, and each flips the latch.
    pub open spec fn updated(self, value: u8) -> ScrollRegister {
        if !self.toggle {
            ScrollRegister { x: value, y: self.y, toggle: true }
        } else {
            ScrollRegister { x: self.x, y: value, toggle: false }
        }
    }

    pub fn new() -> (r: Self)
        ensures
            r == (ScrollRegister { x: 0, y: 0, toggle: false }),
    {
        Self { x: 0, y: 0, toggle: false }
    }

    pub fn update(&mut self, value: u8)
        ensures
            *final(self) == old(self).updated(value),
    {
        if !self.toggle {
            self.x = value;
        } else {
            self.y = value;
        }
        self.toggle = !self.toggle;
    }

    pub fn reset_latch(&mut self)
        ensures
            *final(self) == (ScrollRegister { x: old(self).x, y: old(self).y, toggle: false }),
    {
        self.toggle = false;
    }
}

} // verus!
