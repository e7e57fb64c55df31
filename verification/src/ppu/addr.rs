use vstd::prelude::*;

verus! {

/// The PPU's VRAM address port: a 14-bit address filled by two byte writes,
/// high byte first.
#[derive(Clone, Copy, PartialEq, Eq, Structural, Debug)]
pub struct AddressRegister {
    pub value: u16,
    pub hi_ptr: bool,
}

impl AddressRegister {
    /// The register after one byte write: the byte replaces the high or the
    /// low half, the result is cut to 14 bits, and the latch flips.
    pub open spec fn updated(self, data: u8) -> AddressRegister {
        if self.hi_ptr {
            AddressRegister {
                value: (((data as u16) << 8) | (self.value & 0xFF)) & 0x3FFF,
                hi_ptr: false,
            }
        } else {
            AddressRegister {
                value: ((data as u16) | (self.value & 0xFF00)) & 0x3FFF,
                hi_ptr: true,
            }
        }
    }

    /// The register after the address moved on by `inc`, wrapping at 16 bits
    /// and cut to 14.
    pub open spec fn incremented(self, inc: u8) -> AddressRegister {
        AddressRegister {
            value: (((self.value + inc) % 0x10000) as u16) & 0x3FFF,
            hi_ptr: self.hi_ptr,
        }
    }

    pub fn new() -> (r: Self)
        ensures
            r == (AddressRegister { value: 0, hi_ptr: true }),
    {
        Self { value: 0, hi_ptr: true }
    }

    pub fn set(&mut self, data: u16)
        ensures
            *final(self) == (AddressRegister { value: data, hi_ptr: old(self).hi_ptr }),
    {
        self.value = data
    }

    pub fn update(&mut self, data: u8)
        ensures
            *final(self) == old(self).updated(data),
    {
        let data = data as u16;
        if self.hi_ptr {
            self.value = (data << 8) | (self.value & 0xFF);
        } else {
            self.value = data | (self.value & 0xFF00);
        }
        self.value = self.value & 0x3FFF;
        self.hi_ptr = !self.hi_ptr;
    }

    pub fn increment(&mut self, inc: u8)
        ensures
            *final(self) == old(self).incremented(inc),
    {
        self.value = self.value.wrapping_add(inc as u16);
        self.value = self.value & 0x3FFF;
    }

    pub fn reset_latch(&mut self)
        ensures
            *final(self) == (AddressRegister { value: old(self).value, hi_ptr: true }),
    {
        self.hi_ptr = true;
    }

    pub fn get(&self) -> (r: u16)
        ensures
            r == self.value,
    {
        self.value
    }
}

/// Two byte writes through a reset latch leave the 14 low bits of
/// `hi << 8 | lo` in the register, whatever it held before, and the latch
/// reset again.
pub proof fn lemma_two_writes_load_address(reg: AddressRegister, hi: u8, lo: u8)
    requires
        reg.hi_ptr,
    ensures
        reg.updated(hi).updated(lo) == (AddressRegister {
            value: (((hi as u16) << 8) | (lo as u16)) & 0x3FFF,
            hi_ptr: true,
        }),
{
    let v = reg.value;
    assert(((lo as u16) | (((((hi as u16) << 8) | (v & 0xFF)) & 0x3FFF) & 0xFF00)) & 0x3FFF
        == (((hi as u16) << 8) | (lo as u16)) & 0x3FFF) by (bit_vector);
}

/// A stored address never leaves the 14-bit space once a byte write or an
/// increment has passed over it.
pub proof fn lemma_address_in_range(reg: AddressRegister, data: u8)
    ensures
        reg.updated(data).value < 0x4000,
        reg.incremented(data).value < 0x4000,
{
    let v = reg.value;
    let w = ((v + data) % 0x10000) as u16;
    assert(forall|x: u16| #[trigger] (x & 0x3FFF) < 0x4000) by (bit_vector);
}

} // verus!
