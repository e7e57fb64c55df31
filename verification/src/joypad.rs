use vstd::prelude::*;
use crate::device::{DeviceKind, IOHandler};
use crate::memory::{Fault, MemoryRead, MemoryWrite};

verus! {

/// The buttons of one controller that are held down, one bit each.
#[derive(Clone, Copy, PartialEq, Eq, Structural, Debug)]
pub struct JoypadButton {
    pub bits: u8,
}

#[allow(non_upper_case_globals)]
impl JoypadButton {
    pub const Right: u8 = 0b1000_0000;

    pub const Left: u8 = 0b0100_0000;

    pub const Down: u8 = 0b0010_0000;

    pub const Up: u8 = 0b0001_0000;

    pub const Start: u8 = 0b0000_1000;

    pub const Select: u8 = 0b0000_0100;

    pub const ButtonB: u8 = 0b0000_0010;

    pub const ButtonA: u8 = 0b0000_0001;

    /// Every bit of `mask` is set.
    pub open spec fn has(self, mask: u8) -> bool {
        self.bits & mask == mask
    }

    pub fn from_bits_truncate(bits: u8) -> (r: Self)
        ensures
            r.bits == bits,
    {
        JoypadButton { bits }
    }

    pub fn bits(&self) -> (r: u8)
        ensures
            r == self.bits,
    {
        self.bits
    }

    pub fn contains(&self, mask: u8) -> (r: bool)
        ensures
            r == self.has(mask),
    {
        self.bits & mask == mask
    }
}

/// The two controllers and the serial port through which they are read.
#[derive(Clone, Copy, Debug)]
pub struct Joypad {
    pub status: [JoypadButton; 2],
    pub index: [u8; 2],
    pub ctrl: u8,
}

/// What the controller port holds.
pub struct JoypadState {
    pub status: Seq<JoypadButton>,
    pub index: Seq<u8>,
    pub ctrl: u8,
}

impl View for Joypad {
    type V = JoypadState;

    open spec fn view(&self) -> JoypadState {
        JoypadState { status: self.status@, index: self.index@, ctrl: self.ctrl }
    }
}

impl JoypadState {
    /// The bit that a serial read of controller `idx` returns, and the port
    /// after it. Bit `index` of the buttons comes out, lowest first, and the
    /// index moves on unless the strobe is held; once eight bits are out
    /// every read returns 1.
    pub open spec fn get(self, idx: int) -> (u8, JoypadState) {
        if self.index[idx] > 7 {
            (1u8, self)
        } else {
            (
                (self.status[idx].bits >> self.index[idx]) & 0x01,
                if self.ctrl & 0x01 == 0 {
                    JoypadState {
                        index: self.index.update(idx, (self.index[idx] + 1) as u8),
                        ..self
                    }
                } else {
                    self
                },
            )
        }
    }

    /// The answer to a bus read, and the port after it: 0x4016 reads the
    /// first controller, 0x4017 the second, anything else is passed on.
    pub open spec fn read(self, address: u16) -> (MemoryRead, JoypadState) {
        if address == 0x4016 || address == 0x4017 {
            let (bit, next) = self.get(address - 0x4016);
            (MemoryRead::Value(bit), next)
        } else {
            (MemoryRead::Pass, self)
        }
    }

    /// The answer to a bus write, and the port after it: 0x4016 takes the
    /// three low bits as control, and bit 0 set starts both controllers over
    /// at their first bit; anything else is passed on.
    pub open spec fn write(self, address: u16, value: u8) -> (MemoryWrite, JoypadState) {
        if address == 0x4016 {
            (
                MemoryWrite::Value(value),
                JoypadState {
                    ctrl: value & 0b0000_0111,
                    index: if value & 0x01 != 0 {
                        seq![0u8, 0u8]
                    } else {
                        self.index
                    },
                    ..self
                },
            )
        } else {
            (MemoryWrite::Pass, self)
        }
    }
}

impl Joypad {
    pub fn new() -> (r: Self)
        ensures
            r@ == (JoypadState {
                status: seq![JoypadButton { bits: 0 }, JoypadButton { bits: 0 }],
                index: seq![0u8, 0u8],
                ctrl: 0,
            }),
    {
        let r = Self { status: [JoypadButton::from_bits_truncate(0x00); 2], index: [0; 2], ctrl: 0 };
        assert(r.status@ =~= seq![JoypadButton { bits: 0 }, JoypadButton { bits: 0 }]);
        assert(r.index@ =~= seq![0u8, 0u8]);
        r
    }

    pub fn update(&mut self, first: JoypadButton, second: JoypadButton)
        ensures
            final(self)@ == (JoypadState { status: seq![first, second], ..old(self)@ }),
    {
        self.status[0] = first;
        self.status[1] = second;
        assert(self.status@ =~= seq![first, second]);
    }

    pub fn get(&mut self, idx: usize) -> (r: u8)
        requires
            idx < 2,
        ensures
            (r, final(self)@) == old(self)@.get(idx as int),
    {
        if self.index[idx] > 7 {
            1
        } else {
            let value = (self.status[idx].bits() >> self.index[idx]) & 0x01;
            if self.ctrl & 0x01 == 0 {
                self.index[idx] = self.index[idx] + 1;
            }
            value
        }
    }
}

impl IOHandler for Joypad {
    type State = JoypadState;

    open spec fn device_kind() -> DeviceKind {
        DeviceKind::Joypad
    }

    open spec fn state(&self) -> JoypadState {
        self@
    }

    open spec fn answer_read(state: JoypadState, address: u16) -> (
        Result<MemoryRead, Fault>,
        JoypadState,
    ) {
        (Ok(state.read(address).0), state.read(address).1)
    }

    open spec fn answer_write(state: JoypadState, address: u16, value: u8) -> (
        Result<MemoryWrite, Fault>,
        JoypadState,
    ) {
        (Ok(state.write(address, value).0), state.write(address, value).1)
    }

    fn kind() -> (k: DeviceKind) {
        DeviceKind::Joypad
    }

    fn read(&mut self, address: u16) -> (r: Result<MemoryRead, Fault>) {
        if address == 0x4016 || address == 0x4017 {
            Ok(MemoryRead::Value(self.get((address - 0x4016) as usize)))
        } else {
            Ok(MemoryRead::Pass)
        }
    }

    fn write(&mut self, address: u16, value: u8) -> (r: Result<MemoryWrite, Fault>) {
        if address == 0x4016 {
            self.ctrl = value & 0b0000_0111;
            if value & 0x01 != 0 {
                self.index[0] = 0;
                self.index[1] = 0;
                assert(self.index@ =~= seq![0u8, 0u8]);
            }
            Ok(MemoryWrite::Value(value))
        } else {
            Ok(MemoryWrite::Pass)
        }
    }
}

} // verus!
