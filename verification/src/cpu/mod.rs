use vstd::prelude::*;
use crate::bits::lemma_low_mask_u16;
use crate::memory::{Bus, BusState, MemoryBus};

pub mod opcode;
pub mod run;
pub mod table;

verus! {

/// The page that holds the stack.
pub const STACK: u16 = 0x0100;

/// How an instruction finds its operand.
#[derive(Clone, Copy, PartialEq, Eq, Structural, Debug)]
pub enum AddressingMode {
    Immediate,
    ZeroPage,
    ZeroPageX,
    ZeroPageY,
    Absolute,
    AbsoluteX,
    AbsoluteY,
    IndirectX,
    IndirectY,
    NoneAddressing,
}

/// The processor status: one flag per bit.
#[derive(Clone, Copy, PartialEq, Eq, Structural, Debug)]
pub struct Status {
    pub bits: u8,
}

impl Status {
    pub const CARRY: u8 = 0b0000_0001;

    pub const ZERO: u8 = 0b0000_0010;

    pub const INT: u8 = 0b0000_0100;

    pub const DEC: u8 = 0b0000_1000;

    pub const BRK: u8 = 0b0001_0000;

    pub const BRK2: u8 = 0b0010_0000;

    pub const OVF: u8 = 0b0100_0000;

    pub const NEG: u8 = 0b1000_0000;

    pub const DEFAULT: u8 = 0b0010_0100;

    /// Every bit of `mask` is set.
    pub open spec fn has(self, mask: u8) -> bool {
        self.bits & mask == mask
    }

    /// The status with the bits of `mask` switched on or off.
    pub open spec fn with(self, mask: u8, on: bool) -> Status {
        if on {
            Status { bits: self.bits | mask }
        } else {
            Status { bits: self.bits & !mask }
        }
    }

    /// The status with the zero and negative flags set from `value`: zero
    /// where it is 0, negative where its top bit is set.
    pub open spec fn with_zn(self, value: u8) -> Status {
        self.with(Status::ZERO, value == 0).with(Status::NEG, value & 0b1000_0000 != 0)
    }

    pub fn from_bits_truncate(bits: u8) -> (r: Self)
        ensures
            r.bits == bits,
    {
        Status { bits }
    }

    /// Every byte is a status: each of its eight bits is a flag.
    pub fn from_bits(bits: u8) -> (r: Option<Self>)
        ensures
            r == Some(Status { bits }),
    {
        Some(Status { bits })
    }

    pub fn bits(&self) -> (r: u8)
        ensures
            r == self.bits,
    {
        self.bits
    }

    pub fn contains(&self, mask: u8) -> (r: bool)
        ensures
            r == self.has(mask),
    {
        self.bits & mask == mask
    }

    pub fn set(&mut self, mask: u8, on: bool)
        ensures
            *final(self) == old(self).with(mask, on),
    {
        if on {
            self.bits = self.bits | mask;
        } else {
            self.bits = self.bits & !mask;
        }
    }

    pub fn insert(&mut self, mask: u8)
        ensures
            *final(self) == old(self).with(mask, true),
    {
        self.bits = self.bits | mask;
    }

    pub fn remove(&mut self, mask: u8)
        ensures
            *final(self) == old(self).with(mask, false),
    {
        self.bits = self.bits & !mask;
    }

    /// Sets the zero and negative flags from `value`.
    pub fn set_zn(&mut self, value: u8)
        ensures
            *final(self) == old(self).with_zn(value),
    {
        self.set(Status::ZERO, value == 0);
        self.set(Status::NEG, value & 0b1000_0000 != 0);
    }
}

/// Switching one flag makes that flag read as it was set and leaves every
/// other flag as it was.
pub proof fn lemma_flag_set(status: Status, bit: u8, other: u8, on: bool)
    requires
        bit < 8,
        other < 8,
        bit != other,
    ensures
        status.with(1u8 << bit, on).has(1u8 << bit) == on,
        status.with(1u8 << bit, on).has(1u8 << other) == status.has(1u8 << other),
{
    let b = status.bits;
    assert(((b | (1u8 << bit)) & (1u8 << bit) == (1u8 << bit)) && ((b & !(1u8 << bit)) & (1u8
        << bit) != (1u8 << bit)) && ((b | (1u8 << bit)) & (1u8 << other) == b & (1u8 << other))
        && ((b & !(1u8 << bit)) & (1u8 << other) == b & (1u8 << other))) by (bit_vector)
        requires
            bit < 8,
            other < 8,
            bit != other,
    ;
}

/// A decoded instruction as it stands in memory, for display.
pub struct Instruction {
    pub byte: u8,
    pub size: u8,
    pub mnemonic: &'static str,
    pub mode: AddressingMode,
    pub pc: u16,
}

/// The registers of the processor.
#[derive(Clone, Copy, PartialEq, Eq, Structural, Debug)]
pub struct Cpu2A03 {
    pub a: u8,
    pub x: u8,
    pub y: u8,
    pub sp: u8,
    pub pc: u16,
    pub status: Status,
}

/// The instructions by name. The last stands for every opcode that has no
/// routine.
#[derive(Clone, Copy, PartialEq, Eq, Structural, Debug)]
pub enum Assembly {
    ADC,
    AND,
    ASL,
    BCC,
    BCS,
    BEQ,
    BIT,
    BMI,
    BNE,
    BPL,
    BRK,
    BVC,
    BVS,
    CLC,
    CLD,
    CLI,
    CLV,
    CMP,
    CPX,
    CPY,
    DEC,
    DEX,
    DEY,
    EOR,
    INC,
    INX,
    INY,
    JMP,
    JSR,
    LDA,
    LDX,
    LDY,
    LSR,
    NOP,
    ORA,
    PHA,
    PHP,
    PLA,
    PLP,
    ROL,
    ROR,
    RTI,
    RTS,
    SBC,
    SEC,
    SED,
    SEI,
    STA,
    STX,
    STY,
    TAX,
    TAY,
    TSX,
    TXA,
    TXS,
    TYA,
    ALR,
    ANC,
    ARR,
    AXS,
    LAX,
    SAX,
    DCP,
    ISC,
    RLA,
    RRA,
    SLO,
    SRE,
    AHX,
    LAS,
    SHX,
    SHY,
    TAS,
    XAA,
    STP,
    UDF,
}

/// The two addresses lie on different pages: their high bytes differ.
pub open spec fn page_crossed(addr1: int, addr2: int) -> bool {
    addr1 / 256 != addr2 / 256
}

/// `address` moved on by `offset`, wrapping round at the top of memory.
pub open spec fn offset_address(address: u16, offset: int) -> u16 {
    ((address + offset) % 0x10000) as u16
}

/// The low eight bits of a number.
pub open spec fn wrap8(value: int) -> u8 {
    (value % 256) as u8
}

/// Moves an address on by `by`, wrapping round at the top of memory.
pub fn moved(address: u16, by: u16) -> (r: u16)
    ensures
        r == offset_address(address, by as int),
{
    address.wrapping_add(by)
}

/// Adds two bytes within the byte.
pub fn wrapped(value: u8, by: u8) -> (r: u8)
    ensures
        r == wrap8(value + by),
{
    value.wrapping_add(by)
}

/// The word made of a high and a low byte.
pub open spec fn word(high: u8, low: u8) -> u16 {
    ((high as u16) << 8) | (low as u16)
}

impl AddressingMode {
    /// The effective address of the operand of the instruction at the
    /// program counter, whether finding it crossed a page, and the bus after
    /// the reads that it took.
    ///
    /// Immediate: the byte after the opcode itself. Zero page: the address
    /// in that byte, with X or Y added within the page where indexed, which
    /// never leaves the page and so crosses none. Absolute: the word after
    /// the opcode, with X or Y added where indexed. Indirect X: the word
    /// that the zero page holds at the operand byte plus X. Indirect Y: the
    /// word that the zero page holds at the operand byte, plus Y. Pointers
    /// in the zero page wrap within it.
    pub open spec fn operand_address(self, cpu: Cpu2A03, bus: BusState) -> (u16, bool, BusState) {
        let at = offset_address(cpu.pc, 1);
        match self {
            AddressingMode::Immediate => (at, false, bus),
            AddressingMode::ZeroPage => {
                let (zp, next) = bus.read(at);
                (zp as u16, false, next)
            },
            AddressingMode::ZeroPageX => {
                let (zp, next) = bus.read(at);
                (wrap8(zp + cpu.x) as u16, false, next)
            },
            AddressingMode::ZeroPageY => {
                let (zp, next) = bus.read(at);
                (wrap8(zp + cpu.y) as u16, false, next)
            },
            AddressingMode::Absolute => {
                let (base, next) = bus.read_word(at);
                (base, false, next)
            },
            AddressingMode::AbsoluteX => {
                let (base, next) = bus.read_word(at);
                let addr = offset_address(base, cpu.x as int);
                (addr, page_crossed(base as int, addr as int), next)
            },
            AddressingMode::AbsoluteY => {
                let (base, next) = bus.read_word(at);
                let addr = offset_address(base, cpu.y as int);
                (addr, page_crossed(base as int, addr as int), next)
            },
            AddressingMode::IndirectX => {
                let (zp, first) = bus.read(at);
                let ptr = wrap8(zp + cpu.x);
                let (low, second) = first.read(ptr as u16);
                let (high, third) = second.read(wrap8(ptr + 1) as u16);
                (word(high, low), false, third)
            },
            AddressingMode::IndirectY => {
                let (zp, first) = bus.read(at);
                let (low, second) = first.read(zp as u16);
                let (high, third) = second.read(wrap8(zp + 1) as u16);
                let base = word(high, low);
                let addr = offset_address(base, cpu.y as int);
                (addr, page_crossed(base as int, addr as int), third)
            },
            AddressingMode::NoneAddressing => (0u16, false, bus),
        }
    }

    /// The operand of the instruction at the program counter, whether
    /// finding it crossed a page, where it lies, and the bus after the reads
    /// that it took.
    pub open spec fn operand(self, cpu: Cpu2A03, bus: BusState) -> (u8, bool, u16, BusState) {
        let (address, crossed, found) = self.operand_address(cpu, bus);
        let (value, next) = found.read(address);
        (value, crossed, address, next)
    }

    pub fn fetch_addr(&self, cpu: &Cpu2A03, mmu: &mut MemoryBus) -> (r: (u16, bool))
        requires
            !(*self is NoneAddressing),
        ensures
            (r.0, r.1, final(mmu)@) == self.operand_address(*cpu, old(mmu)@),
            final(mmu)@.follows(old(mmu)@),
    {
        let at = moved(cpu.pc, 1);
        match self {
            AddressingMode::Immediate => (at, false),
            AddressingMode::ZeroPage => (mmu.read_byte(at) as u16, false),
            AddressingMode::ZeroPageX => zero_page_indexed(mmu, at, cpu.x),
            AddressingMode::ZeroPageY => zero_page_indexed(mmu, at, cpu.y),
            AddressingMode::Absolute => (mmu.read_word(at), false),
            AddressingMode::AbsoluteX => absolute_indexed(mmu, at, cpu.x),
            AddressingMode::AbsoluteY => absolute_indexed(mmu, at, cpu.y),
            AddressingMode::IndirectX => indexed_indirect(mmu, at, cpu.x),
            AddressingMode::IndirectY => indirect_indexed(mmu, at, cpu.y),
            AddressingMode::NoneAddressing => (0, false),
        }
    }
}

/// The address that the zero page holds at the byte at `at` plus `index`.
fn indexed_indirect(mmu: &mut MemoryBus, at: u16, index: u8) -> (r: (u16, bool))
    ensures
        ({
            let (zp, first) = old(mmu)@.read(at);
            let ptr = wrap8(zp + index);
            let (low, second) = first.read(ptr as u16);
            let (high, third) = second.read(wrap8(ptr + 1) as u16);
            (r.0, r.1, final(mmu)@) == ((word(high, low), false, third))
        }),
        final(mmu)@.follows(old(mmu)@),
{
    let base = mmu.read_byte(at);
    (zero_page_word(mmu, wrapped(base, index)), false)
}

/// The address that the zero page holds at the byte at `at`, moved on by
/// `index`, and whether that left the page.
fn indirect_indexed(mmu: &mut MemoryBus, at: u16, index: u8) -> (r: (u16, bool))
    ensures
        ({
            let (zp, first) = old(mmu)@.read(at);
            let (low, second) = first.read(zp as u16);
            let (high, third) = second.read(wrap8(zp + 1) as u16);
            let base = word(high, low);
            let addr = offset_address(base, index as int);
            (r.0, r.1, final(mmu)@) == ((addr, page_crossed(base as int, addr as int), third))
        }),
        final(mmu)@.follows(old(mmu)@),
{
    let base = mmu.read_byte(at);
    let base = zero_page_word(mmu, base);
    let addr = moved(base, index as u16);
    (addr, page_cross(base, addr))
}

/// The zero-page address in the byte at `at`, moved on by `index` within the
/// page; no page is crossed.
fn zero_page_indexed(mmu: &mut MemoryBus, at: u16, index: u8) -> (r: (u16, bool))
    ensures
        ({
            let (zp, next) = old(mmu)@.read(at);
            (r.0, r.1, final(mmu)@) == ((wrap8(zp + index) as u16, false, next))
        }),
        final(mmu)@.follows(old(mmu)@),
{
    let zp = mmu.read_byte(at);
    (wrapped(zp, index) as u16, false)
}

/// The address in the word at `at`, moved on by `index`, and whether that
/// left the page.
fn absolute_indexed(mmu: &mut MemoryBus, at: u16, index: u8) -> (r: (u16, bool))
    ensures
        ({
            let (base, next) = old(mmu)@.read_word(at);
            let addr = offset_address(base, index as int);
            (r.0, r.1, final(mmu)@) == ((addr, page_crossed(base as int, addr as int), next))
        }),
        final(mmu)@.follows(old(mmu)@),
{
    let base = mmu.read_word(at);
    let addr = moved(base, index as u16);
    (addr, page_cross(base, addr))
}

/// The word that the zero page holds at `ptr`; the high byte of a word at
/// the page's last address comes from its first.
fn zero_page_word(mmu: &mut MemoryBus, ptr: u8) -> (r: u16)
    ensures
        ({
            let (low, first) = old(mmu)@.read(ptr as u16);
            let (high, second) = first.read(wrap8(ptr + 1) as u16);
            (r, final(mmu)@) == ((word(high, low), second))
        }),
        final(mmu)@.follows(old(mmu)@),
{
    let low = mmu.read_byte(ptr as u16) as u16;
    let high = mmu.read_byte(wrapped(ptr, 1) as u16) as u16;
    (high << 8) | low
}

/// Tells whether two addresses lie on different pages.
pub fn page_cross(addr1: u16, addr2: u16) -> (r: bool)
    ensures
        r == page_crossed(addr1 as int, addr2 as int),
{
    proof {
        lemma_low_mask_u16(addr1);
        lemma_low_mask_u16(addr2);
    }
    (addr1 & 0xFF00) != (addr2 & 0xFF00)
}

impl Cpu2A03 {
    /// The registers at reset, but for the program counter.
    pub open spec fn power_on() -> Cpu2A03 {
        Cpu2A03 { a: 0, x: 0, y: 0, sp: 0xFD, pc: 0, status: Status { bits: Status::DEFAULT } }
    }

    /// Where the stack pointer points.
    pub open spec fn stack_address(self) -> u16 {
        (0x0100 + self.sp) as u16
    }

    /// The processor and the bus after a byte was pushed: it is written
    /// where the stack pointer points, and the pointer moves down, wrapping
    /// within its page.
    pub open spec fn pushed8(self, bus: BusState, value: u8) -> (Cpu2A03, BusState) {
        (
            Cpu2A03 { sp: wrap8(self.sp + 255), ..self },
            bus.write(self.stack_address(), value),
        )
    }

    /// The byte popped, and the processor and the bus after it: the stack
    /// pointer moves up, wrapping within its page, and the byte is read
    /// where it then points.
    pub open spec fn popped8(self, bus: BusState) -> (u8, Cpu2A03, BusState) {
        let cpu = Cpu2A03 { sp: wrap8(self.sp + 1), ..self };
        let (value, next) = bus.read(cpu.stack_address());
        (value, cpu, next)
    }

    /// The processor and the bus after a word was pushed, high byte first.
    pub open spec fn pushed16(self, bus: BusState, value: u16) -> (Cpu2A03, BusState) {
        let (cpu, next) = self.pushed8(bus, (value >> 8) as u8);
        cpu.pushed8(next, (value & 0xFF) as u8)
    }

    /// The word popped, low byte first, and the processor and the bus after
    /// it.
    pub open spec fn popped16(self, bus: BusState) -> (u16, Cpu2A03, BusState) {
        let (low, first, next) = self.popped8(bus);
        let (high, second, last) = first.popped8(next);
        (word(high, low), second, last)
    }

    /// The processor and the bus after a reset: registers cleared, stack
    /// pointer at 0xFD, interrupts disabled, and the program counter loaded
    /// from the vector at 0xFFFC.
    pub open spec fn reset_from(bus: BusState) -> (Cpu2A03, BusState) {
        let (pc, next) = bus.read_word(0xFFFC);
        (Cpu2A03 { pc, ..Cpu2A03::power_on() }, next)
    }

    /// The processor and the bus after an NMI was taken: the program counter
    /// and the status (break clear, bit 5 set) are pushed, interrupts are
    /// disabled, and the program counter is loaded from the vector at
    /// 0xFFFA.
    pub open spec fn interrupted(self, bus: BusState) -> (Cpu2A03, BusState) {
        let (first, pushed_pc) = self.pushed16(bus, self.pc);
        let flags = self.status.with(Status::BRK, false).with(Status::BRK2, true);
        let (second, pushed) = first.pushed8(pushed_pc, flags.bits);
        let (pc, last) = pushed.read_word(0xFFFA);
        (Cpu2A03 { pc, status: self.status.with(Status::INT, true), ..second }, last)
    }

    pub fn new() -> (r: Self)
        ensures
            r == Cpu2A03::power_on(),
    {
        Self { a: 0, x: 0, y: 0, sp: 0xFD, pc: 0, status: Status { bits: Status::DEFAULT } }
    }

    pub fn reset(&mut self, mmu: &mut MemoryBus)
        ensures
            (*final(self), final(mmu)@) == Cpu2A03::reset_from(old(mmu)@),
            final(mmu)@.follows(old(mmu)@),
    {
        self.a = 0;
        self.x = 0;
        self.y = 0;
        self.status = Status { bits: Status::DEFAULT };
        self.sp = 0xFD;
        self.pc = mmu.read_word(0xFFFC);
    }

    /// Reads the opcode at the program counter.
    pub fn fetch(&mut self, mmu: &mut MemoryBus) -> (r: u8)
        ensures
            (r, final(mmu)@) == old(mmu)@.read(old(self).pc),
            *final(self) == *old(self),
            final(mmu)@.follows(old(mmu)@),
    {
        mmu.read_byte(self.pc)
    }

    pub fn push8(&mut self, mmu: &mut MemoryBus, value: u8)
        ensures
            (*final(self), final(mmu)@) == old(self).pushed8(old(mmu)@, value),
            final(mmu)@.follows(old(mmu)@),
    {
        mmu.write_byte(STACK + self.sp as u16, value);
        self.sp = wrapped(self.sp, 255);
    }

    pub fn pop8(&mut self, mmu: &mut MemoryBus) -> (r: u8)
        ensures
            (r, *final(self), final(mmu)@) == old(self).popped8(old(mmu)@),
            final(mmu)@.follows(old(mmu)@),
    {
        self.sp = wrapped(self.sp, 1);
        mmu.read_byte(STACK + self.sp as u16)
    }

    pub fn push16(&mut self, mmu: &mut MemoryBus, value: u16)
        ensures
            (*final(self), final(mmu)@) == old(self).pushed16(old(mmu)@, value),
            final(mmu)@.follows(old(mmu)@),
    {
        proof {
            lemma_low_mask_u16(value);
        }
        self.push8(mmu, (value >> 8) as u8);
        self.push8(mmu, (value & 0xFF) as u8);
    }

    pub fn pop16(&mut self, mmu: &mut MemoryBus) -> (r: u16)
        ensures
            (r, *final(self), final(mmu)@) == old(self).popped16(old(mmu)@),
            final(mmu)@.follows(old(mmu)@),
    {
        let low = self.pop8(mmu) as u16;
        let high = self.pop8(mmu) as u16;
        (high << 8) | low
    }

    /// Takes a non-maskable interrupt; it costs two cycles.
    pub fn nmi(&mut self, mmu: &mut MemoryBus) -> (cycles: u8)
        ensures
            cycles == 2,
            (*final(self), final(mmu)@) == old(self).interrupted(old(mmu)@),
            final(mmu)@.follows(old(mmu)@),
    {
        self.push16(mmu, self.pc);
        let mut flag = self.status;
        flag.set(Status::BRK, false);
        flag.set(Status::BRK2, true);

        self.push8(mmu, flag.bits());
        self.status.insert(Status::INT);
        self.pc = mmu.read_word(0xFFFA);
        2
    }
}

impl Instruction {
    pub fn new(byte: u8, size: u8, mnemonic: &'static str, mode: AddressingMode, pc: u16) -> (r:
        Self)
        ensures
            r.byte == byte,
            r.size == size,
            r.mnemonic == mnemonic,
            r.mode == mode,
            r.pc == pc,
    {
        Self { byte, size, mnemonic, mode, pc }
    }
}

} // verus!
