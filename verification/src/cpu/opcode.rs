use vstd::prelude::*;
use crate::cpu::{
    moved, offset_address, page_cross, page_crossed, word, wrap8, wrapped, AddressingMode,
    Assembly, Cpu2A03, Status,
};
use crate::memory::{following, next_address, Bus, BusState, MemoryBus};

verus! {

/// One entry of the opcode table: the name for display, the instruction's
/// length in bytes, how it finds its operand, and the routine that runs it.
#[derive(Clone, Copy, Debug)]
pub struct OpCode {
    pub mnemonic: &'static str,
    pub size: u8,
    pub mode: AddressingMode,
    pub execute: Assembly,
}

/// What running one instruction comes to: the processor and the bus after
/// it, the cycles it cost, and whether it set the program counter itself.
pub struct Outcome {
    pub cpu: Cpu2A03,
    pub bus: BusState,
    pub cycles: u8,
    pub branched: bool,
}

impl Outcome {
    /// A routine that returned `r` and left `cpu` and `bus` behind came to
    /// this outcome.
    pub open spec fn is(self, r: Result<(u8, bool), ()>, cpu: Cpu2A03, bus: BusState) -> bool {
        r == Ok::<(u8, bool), ()>((self.cycles, self.branched)) && cpu == self.cpu && bus
            == self.bus
    }
}

/// `base` cycles, and one more where a page was crossed.
pub open spec fn penalized(base: u8, crossed: bool) -> u8 {
    if crossed {
        (base + 1) as u8
    } else {
        base
    }
}

/// What an instruction that reads its operand costs. Indexed reads pay one
/// cycle more for crossing a page.
pub open spec fn read_cost(mode: AddressingMode, crossed: bool) -> u8 {
    match mode {
        AddressingMode::Immediate => 2,
        AddressingMode::ZeroPage => 3,
        AddressingMode::ZeroPageX => 4,
        AddressingMode::ZeroPageY => 4,
        AddressingMode::Absolute => 4,
        AddressingMode::AbsoluteX => penalized(4, crossed),
        AddressingMode::AbsoluteY => penalized(4, crossed),
        AddressingMode::IndirectX => 6,
        AddressingMode::IndirectY => penalized(5, crossed),
        AddressingMode::NoneAddressing => 2,
    }
}

/// What an instruction that reads, changes and writes back its operand
/// costs.
pub open spec fn modify_cost(mode: AddressingMode) -> u8 {
    match mode {
        AddressingMode::ZeroPage => 5,
        AddressingMode::ZeroPageX => 6,
        AddressingMode::Absolute => 6,
        AddressingMode::AbsoluteX => 7,
        _ => 2,
    }
}

/// What a store costs. A store pays nothing extra for crossing a page.
pub open spec fn store_cost(mode: AddressingMode) -> u8 {
    match mode {
        AddressingMode::ZeroPage => 3,
        AddressingMode::ZeroPageX => 4,
        AddressingMode::ZeroPageY => 4,
        AddressingMode::Absolute => 4,
        AddressingMode::AbsoluteX => 5,
        AddressingMode::AbsoluteY => 5,
        AddressingMode::IndirectX => 6,
        AddressingMode::IndirectY => 6,
        _ => 2,
    }
}

/// What a no-operation costs: as much as a read through the same mode that
/// crosses no page, but two cycles where the operand is immediate, indexed
/// off the zero page by Y, or absent.
pub open spec fn idle_cost(mode: AddressingMode) -> u8 {
    match mode {
        AddressingMode::ZeroPage => 3,
        AddressingMode::ZeroPageX => 4,
        AddressingMode::Absolute => 4,
        AddressingMode::AbsoluteX => 4,
        AddressingMode::AbsoluteY => 4,
        AddressingMode::IndirectX => 6,
        AddressingMode::IndirectY => 5,
        _ => 2,
    }
}

/// The modes in which a read finds its operand anywhere in memory.
pub open spec fn reads_anywhere(mode: AddressingMode) -> bool {
    match mode {
        AddressingMode::ZeroPageY | AddressingMode::NoneAddressing => false,
        _ => true,
    }
}

/// The modes in which an operand is changed in memory.
pub open spec fn modifies_memory(mode: AddressingMode) -> bool {
    match mode {
        AddressingMode::ZeroPage | AddressingMode::ZeroPageX | AddressingMode::Absolute
        | AddressingMode::AbsoluteX => true,
        _ => false,
    }
}

/// The modes in which a register is compared or a bit is tested in full.
pub open spec fn reads_plainly(mode: AddressingMode) -> bool {
    match mode {
        AddressingMode::Immediate | AddressingMode::ZeroPage | AddressingMode::Absolute => true,
        _ => false,
    }
}

/// Routine `op` has a case for `mode`.
#[verifier::opaque]
pub open spec fn supports(op: Assembly, mode: AddressingMode) -> bool {
    match op {
        Assembly::ADC | Assembly::AND | Assembly::CMP | Assembly::EOR | Assembly::LDA
        | Assembly::ORA | Assembly::SBC => reads_anywhere(mode),
        Assembly::ASL | Assembly::LSR | Assembly::ROL | Assembly::ROR => mode is NoneAddressing
            || modifies_memory(mode),
        Assembly::DEC | Assembly::INC => modifies_memory(mode),
        Assembly::BIT => mode is ZeroPage || mode is Absolute,
        Assembly::CPX | Assembly::CPY => reads_plainly(mode),
        Assembly::LDX => reads_plainly(mode) || mode is ZeroPageY || mode is AbsoluteY,
        Assembly::LDY => reads_plainly(mode) || mode is ZeroPageX || mode is AbsoluteX,
        Assembly::STA => reads_anywhere(mode) && !(mode is Immediate),
        Assembly::STX => mode is ZeroPage || mode is ZeroPageY || mode is Absolute,
        Assembly::STY => mode is ZeroPage || mode is ZeroPageX || mode is Absolute,
        Assembly::JMP => mode is Immediate || mode is Absolute,
        Assembly::JSR | Assembly::BCC | Assembly::BCS | Assembly::BEQ | Assembly::BMI
        | Assembly::BNE | Assembly::BPL | Assembly::BVC | Assembly::BVS => !(mode
            is NoneAddressing),
        Assembly::BRK | Assembly::CLC | Assembly::CLD | Assembly::CLI | Assembly::CLV
        | Assembly::DEX | Assembly::DEY | Assembly::INX | Assembly::INY | Assembly::NOP
        | Assembly::PHA | Assembly::PHP | Assembly::PLA | Assembly::PLP | Assembly::RTI
        | Assembly::RTS | Assembly::SEC | Assembly::SED | Assembly::SEI | Assembly::TAX
        | Assembly::TAY | Assembly::TSX | Assembly::TXA | Assembly::TXS | Assembly::TYA => true,
        _ => false,
    }
}

/// Where a branch at `pc` with the signed offset byte `offset` lands: the
/// offset counts from the instruction after the branch.
pub open spec fn branch_target(pc: u16, offset: u8) -> u16 {
    offset_address(
        pc,
        2 + (if offset < 0x80 {
            offset as int
        } else {
            offset - 256
        }),
    )
}

impl Cpu2A03 {
    /// The carry flag as a number.
    pub open spec fn carry(self) -> int {
        if self.status.has(Status::CARRY) {
            1
        } else {
            0
        }
    }

    /// The processor after `m` and the carry were added to the accumulator.
    /// Carry is the carry out of bit 7; overflow says that the sum of two
    /// numbers of one sign has the other sign.
    pub open spec fn added(self, m: u8) -> Cpu2A03 {
        let sum = self.a + m + self.carry();
        let res = (sum % 256) as u8;
        Cpu2A03 {
            a: res,
            status: self.status.with(Status::CARRY, sum > 255).with(Status::ZERO, res == 0).with(
                Status::OVF,
                (m ^ res) & (self.a ^ res) & 0x80 != 0,
            ).with(Status::NEG, res & 0b1000_0000 != 0),
            ..self
        }
    }

    /// The flags after `register` was compared with `m`: carry where the
    /// register is not below `m`, zero and negative from their difference.
    pub open spec fn compared(self, register: u8, m: u8) -> Cpu2A03 {
        let res = ((register + 256 - m) % 256) as u8;
        Cpu2A03 {
            status: self.status.with(Status::CARRY, register >= m).with(
                Status::ZERO,
                res == 0,
            ).with(Status::NEG, res & 0b1000_0000 != 0),
            ..self
        }
    }

    /// The flags after the bits of `m` were tested against the accumulator:
    /// zero where they share none, overflow and negative from bits 6 and 7
    /// of `m`.
    pub open spec fn bit_tested(self, m: u8) -> Cpu2A03 {
        Cpu2A03 {
            status: self.status.with(Status::ZERO, m & self.a == 0).with(
                Status::OVF,
                m & 0b0100_0000 != 0,
            ).with(Status::NEG, m & 0b1000_0000 != 0),
            ..self
        }
    }

    /// The processor with `value` in the accumulator and the zero and
    /// negative flags set from it.
    pub open spec fn with_a(self, value: u8) -> Cpu2A03 {
        Cpu2A03 { a: value, status: self.status.with_zn(value), ..self }
    }

    /// The processor with `value` in X and the zero and negative flags set
    /// from it.
    pub open spec fn with_x(self, value: u8) -> Cpu2A03 {
        Cpu2A03 { x: value, status: self.status.with_zn(value), ..self }
    }

    /// The processor with `value` in Y and the zero and negative flags set
    /// from it.
    pub open spec fn with_y(self, value: u8) -> Cpu2A03 {
        Cpu2A03 { y: value, status: self.status.with_zn(value), ..self }
    }

    /// The processor with one flag switched.
    pub open spec fn with_flag(self, mask: u8, on: bool) -> Cpu2A03 {
        Cpu2A03 { status: self.status.with(mask, on), ..self }
    }
}

/// Routine `op` reads its operand and works it into the registers.
pub open spec fn reads_operand(op: Assembly) -> bool {
    match op {
        Assembly::ADC | Assembly::AND | Assembly::BIT | Assembly::CMP | Assembly::CPX
        | Assembly::CPY | Assembly::EOR | Assembly::LDA | Assembly::LDX | Assembly::LDY
        | Assembly::ORA | Assembly::SBC => true,
        _ => false,
    }
}

/// The registers after routine `op` has worked the operand `m` into them.
/// Subtraction adds the complement.
pub open spec fn worked(op: Assembly, cpu: Cpu2A03, m: u8) -> Cpu2A03 {
    match op {
        Assembly::ADC => cpu.added(m),
        Assembly::SBC => cpu.added(!m),
        Assembly::AND => cpu.with_a(cpu.a & m),
        Assembly::EOR => cpu.with_a(cpu.a ^ m),
        Assembly::ORA => cpu.with_a(cpu.a | m),
        Assembly::BIT => cpu.bit_tested(m),
        Assembly::CMP => cpu.compared(cpu.a, m),
        Assembly::CPX => cpu.compared(cpu.x, m),
        Assembly::CPY => cpu.compared(cpu.y, m),
        Assembly::LDA => cpu.with_a(m),
        Assembly::LDX => cpu.with_x(m),
        Assembly::LDY => cpu.with_y(m),
        _ => cpu,
    }
}

/// The outcome of an instruction that reads its operand and works it into
/// the registers.
#[verifier::opaque]
pub open spec fn read_outcome(op: Assembly, cpu: Cpu2A03, bus: BusState, mode: AddressingMode) -> Outcome {
    let (m, crossed, address, next) = mode.operand(cpu, bus);
    Outcome { cpu: worked(op, cpu, m), bus: next, cycles: read_cost(mode, crossed), branched: false }
}

/// Routine `op` only changes registers.
pub open spec fn changes_registers(op: Assembly) -> bool {
    match op {
        Assembly::CLC | Assembly::CLD | Assembly::CLI | Assembly::CLV | Assembly::SEC
        | Assembly::SED | Assembly::SEI | Assembly::DEX | Assembly::DEY | Assembly::INX
        | Assembly::INY | Assembly::TAX | Assembly::TAY | Assembly::TSX | Assembly::TXA
        | Assembly::TXS | Assembly::TYA => true,
        _ => false,
    }
}

/// The registers after a routine that only changes registers: a flag is
/// cleared or set, an index register steps up or down within the byte, or
/// one register is copied to another. But for the copy to the stack
/// pointer, steps and copies set the zero and negative flags.
pub open spec fn changed(op: Assembly, cpu: Cpu2A03) -> Cpu2A03 {
    match op {
        Assembly::CLC => cpu.with_flag(Status::CARRY, false),
        Assembly::CLD => cpu.with_flag(Status::DEC, false),
        Assembly::CLI => cpu.with_flag(Status::INT, false),
        Assembly::CLV => cpu.with_flag(Status::OVF, false),
        Assembly::SEC => cpu.with_flag(Status::CARRY, true),
        Assembly::SED => cpu.with_flag(Status::DEC, true),
        Assembly::SEI => cpu.with_flag(Status::INT, true),
        Assembly::DEX => cpu.with_x(wrap8(cpu.x + 255)),
        Assembly::DEY => cpu.with_y(wrap8(cpu.y + 255)),
        Assembly::INX => cpu.with_x(wrap8(cpu.x + 1)),
        Assembly::INY => cpu.with_y(wrap8(cpu.y + 1)),
        Assembly::TAX => cpu.with_x(cpu.a),
        Assembly::TAY => cpu.with_y(cpu.a),
        Assembly::TSX => cpu.with_x(cpu.sp),
        Assembly::TXA => cpu.with_a(cpu.x),
        Assembly::TXS => Cpu2A03 { sp: cpu.x, ..cpu },
        Assembly::TYA => cpu.with_a(cpu.y),
        _ => cpu,
    }
}

/// The outcome of an instruction that only changes registers; it costs two
/// cycles.
#[verifier::opaque]
pub open spec fn register_outcome(op: Assembly, cpu: Cpu2A03, bus: BusState) -> Outcome {
    Outcome { cpu: changed(op, cpu), bus, cycles: 2, branched: false }
}

/// Routine `op` stores a register.
pub open spec fn stores(op: Assembly) -> bool {
    match op {
        Assembly::STA | Assembly::STX | Assembly::STY => true,
        _ => false,
    }
}

/// The register that a store writes.
pub open spec fn stored(op: Assembly, cpu: Cpu2A03) -> u8 {
    match op {
        Assembly::STA => cpu.a,
        Assembly::STX => cpu.x,
        _ => cpu.y,
    }
}

/// The outcome of a store.
#[verifier::opaque]
pub open spec fn store_outcome(op: Assembly, cpu: Cpu2A03, bus: BusState, mode: AddressingMode) -> Outcome {
    let (address, crossed, found) = mode.operand_address(cpu, bus);
    Outcome {
        cpu,
        bus: found.write(address, stored(op, cpu)),
        cycles: store_cost(mode),
        branched: false,
    }
}

/// Routine `op` is a branch.
pub open spec fn branches(op: Assembly) -> bool {
    match op {
        Assembly::BCC | Assembly::BCS | Assembly::BEQ | Assembly::BMI | Assembly::BNE
        | Assembly::BPL | Assembly::BVC | Assembly::BVS => true,
        _ => false,
    }
}

/// Branch `op` is taken under `status`.
pub open spec fn taken(op: Assembly, status: Status) -> bool {
    match op {
        Assembly::BCC => !status.has(Status::CARRY),
        Assembly::BCS => status.has(Status::CARRY),
        Assembly::BEQ => status.has(Status::ZERO),
        Assembly::BNE => !status.has(Status::ZERO),
        Assembly::BMI => status.has(Status::NEG),
        Assembly::BPL => !status.has(Status::NEG),
        Assembly::BVC => !status.has(Status::OVF),
        _ => status.has(Status::OVF),
    }
}

/// The outcome of a branch. A branch not taken costs two cycles and reads
/// nothing; one taken reads its offset and costs a cycle more, and yet
/// another where it lands on a page other than that of the next
/// instruction.
#[verifier::opaque]
pub open spec fn branch_outcome(cpu: Cpu2A03, bus: BusState, mode: AddressingMode, taken: bool) -> Outcome {
    if taken {
        let (offset, crossed, address, next) = mode.operand(cpu, bus);
        let target = branch_target(cpu.pc, offset);
        Outcome {
            cpu: Cpu2A03 { pc: target, ..cpu },
            bus: next,
            cycles: penalized(3, page_crossed(target as int, offset_address(cpu.pc, 2) as int)),
            branched: true,
        }
    } else {
        Outcome { cpu, bus, cycles: 2, branched: false }
    }
}

/// Routine `op` is a shift or a rotate.
pub open spec fn shifts(op: Assembly) -> bool {
    match op {
        Assembly::ASL | Assembly::LSR | Assembly::ROL | Assembly::ROR => true,
        _ => false,
    }
}

/// The value of a shift or rotate of `m`, and the carry that it leaves.
pub open spec fn shifted(op: Assembly, m: u8, status: Status) -> (u8, bool) {
    match op {
        Assembly::ASL => (m << 1, m & 0b1000_0000 != 0),
        Assembly::LSR => (m >> 1, m & 0b0000_0001 != 0),
        Assembly::ROL => ((m << 1) | (status.bits & 0x01), m & 0b1000_0000 != 0),
        _ => ((m >> 1) | ((status.bits & 0x01) << 7), m & 0b0000_0001 != 0),
    }
}

/// The flags after a shift or rotate that left `res` and the carry `carry`.
/// A rotate in memory leaves the zero flag alone.
pub open spec fn shift_flags(op: Assembly, status: Status, res: u8, carry: bool, in_memory: bool) -> Status {
    let base = status.with(Status::CARRY, carry).with(Status::NEG, res & 0b1000_0000 != 0);
    if in_memory && (op is ROL || op is ROR) {
        base
    } else {
        base.with(Status::ZERO, res == 0)
    }
}

/// The outcome of a shift or rotate, on the accumulator where there is no
/// operand, else in memory, where the operand is looked up once to read it
/// and once more to write it back.
#[verifier::opaque]
pub open spec fn shift_outcome(op: Assembly, cpu: Cpu2A03, bus: BusState, mode: AddressingMode) -> Outcome {
    if mode is NoneAddressing {
        let (res, carry) = shifted(op, cpu.a, cpu.status);
        Outcome {
            cpu: Cpu2A03 { a: res, status: shift_flags(op, cpu.status, res, carry, false), ..cpu },
            bus,
            cycles: 2,
            branched: false,
        }
    } else {
        let (m, crossed, address, read) = mode.operand(cpu, bus);
        let (res, carry) = shifted(op, m, cpu.status);
        let (target, again, found) = mode.operand_address(cpu, read);
        Outcome {
            cpu: Cpu2A03 { status: shift_flags(op, cpu.status, res, carry, true), ..cpu },
            bus: found.write(target, res),
            cycles: modify_cost(mode),
            branched: false,
        }
    }
}

/// The outcome of an increment (`delta` 1) or decrement (`delta` 255) in
/// memory.
#[verifier::opaque]
pub open spec fn step_outcome(cpu: Cpu2A03, bus: BusState, mode: AddressingMode, delta: u8) -> Outcome {
    let (m, crossed, address, read) = mode.operand(cpu, bus);
    let res = wrap8(m + delta);
    Outcome {
        cpu: Cpu2A03 { status: cpu.status.with_zn(res), ..cpu },
        bus: read.write(address, res),
        cycles: modify_cost(mode),
        branched: false,
    }
}

/// The word that a jump through `base` finds: the high byte of a pointer at
/// the end of a page comes from the start of that same page.
pub open spec fn jump_pointer(bus: BusState, base: u16) -> (u16, BusState) {
    let (low, first) = bus.read(base);
    let (high, second) = first.read(
        if base & 0xFF == 0xFF {
            base & 0xFF00
        } else {
            next_address(base)
        },
    );
    (word(high, low), second)
}

/// The outcome of a break: the break flag is set, the program counter and
/// then the status are pushed, and the program counter is loaded from the
/// vector at 0xFFFE.
#[verifier::opaque]
pub open spec fn brk_outcome(cpu: Cpu2A03, bus: BusState) -> Outcome {
    let flagged = cpu.with_flag(Status::BRK, true);
    let (first, pushed_pc) = flagged.pushed16(bus, cpu.pc);
    let (second, pushed) = first.pushed8(pushed_pc, flagged.status.bits);
    let (pc, last) = pushed.read_word(0xFFFE);
    Outcome { cpu: Cpu2A03 { pc, ..second }, bus: last, cycles: 7, branched: true }
}

/// The outcome of a jump: to the word after the opcode, or, in the mode
/// called absolute, through the pointer that this word names.
#[verifier::opaque]
pub open spec fn jmp_outcome(cpu: Cpu2A03, bus: BusState, mode: AddressingMode) -> Outcome {
    let (base, read) = bus.read_word(offset_address(cpu.pc, 1));
    if mode is Immediate {
        Outcome { cpu: Cpu2A03 { pc: base, ..cpu }, bus: read, cycles: 3, branched: true }
    } else {
        let (pc, last) = jump_pointer(read, base);
        Outcome { cpu: Cpu2A03 { pc, ..cpu }, bus: last, cycles: 5, branched: true }
    }
}

/// The outcome of a call: the address of the call's last byte is pushed and
/// the program counter is loaded from the word at the operand.
#[verifier::opaque]
pub open spec fn jsr_outcome(cpu: Cpu2A03, bus: BusState, mode: AddressingMode) -> Outcome {
    let (address, crossed, found) = mode.operand_address(cpu, bus);
    let (target, read) = found.read_word(address);
    let (pushed, last) = cpu.pushed16(read, offset_address(cpu.pc, 2));
    Outcome { cpu: Cpu2A03 { pc: target, ..pushed }, bus: last, cycles: 6, branched: true }
}

/// The outcome of a push of the accumulator.
#[verifier::opaque]
pub open spec fn pha_outcome(cpu: Cpu2A03, bus: BusState) -> Outcome {
    let (pushed, next) = cpu.pushed8(bus, cpu.a);
    Outcome { cpu: pushed, bus: next, cycles: 3, branched: false }
}

/// The outcome of a push of the status, which goes out with the break flag
/// set.
#[verifier::opaque]
pub open spec fn php_outcome(cpu: Cpu2A03, bus: BusState) -> Outcome {
    let (pushed, next) = cpu.pushed8(bus, cpu.status.bits | 0b0001_0000);
    Outcome { cpu: pushed, bus: next, cycles: 3, branched: false }
}

/// The outcome of a pull into the accumulator, which sets the zero and
/// negative flags.
#[verifier::opaque]
pub open spec fn pla_outcome(cpu: Cpu2A03, bus: BusState) -> Outcome {
    let (value, popped, next) = cpu.popped8(bus);
    Outcome { cpu: popped.with_a(value), bus: next, cycles: 4, branched: false }
}

/// The outcome of a pull into the status: the break flag comes out clear
/// and bit 5 set.
#[verifier::opaque]
pub open spec fn plp_outcome(cpu: Cpu2A03, bus: BusState) -> Outcome {
    let (value, popped, next) = cpu.popped8(bus);
    Outcome {
        cpu: Cpu2A03 {
            status: (Status { bits: value }).with(Status::BRK, false).with(Status::BRK2, true),
            ..popped
        },
        bus: next,
        cycles: 4,
        branched: false,
    }
}

/// The outcome of a return from an interrupt: the status, with bit 5 set,
/// and then the program counter are pulled.
#[verifier::opaque]
pub open spec fn rti_outcome(cpu: Cpu2A03, bus: BusState) -> Outcome {
    let (value, first, popped) = cpu.popped8(bus);
    let (pc, second, last) = first.popped16(popped);
    Outcome {
        cpu: Cpu2A03 { pc, status: Status { bits: value | 0x20 }, ..second },
        bus: last,
        cycles: 6,
        branched: true,
    }
}

/// The outcome of a return from a call: the program counter is pulled and
/// moved on by one.
#[verifier::opaque]
pub open spec fn rts_outcome(cpu: Cpu2A03, bus: BusState) -> Outcome {
    let (pc, popped, next) = cpu.popped16(bus);
    Outcome {
        cpu: Cpu2A03 { pc: offset_address(pc, 1), ..popped },
        bus: next,
        cycles: 6,
        branched: true,
    }
}

/// The outcome of a no-operation: nothing is read and nothing changes.
#[verifier::opaque]
pub open spec fn nop_outcome(cpu: Cpu2A03, bus: BusState, mode: AddressingMode) -> Outcome {
    Outcome { cpu, bus, cycles: idle_cost(mode), branched: false }
}

/// What running routine `op` on `mode` comes to.
#[verifier::opaque]
pub open spec fn effect(op: Assembly, cpu: Cpu2A03, bus: BusState, mode: AddressingMode) -> Outcome {
    match op {
        Assembly::ADC | Assembly::AND | Assembly::BIT | Assembly::CMP | Assembly::CPX
        | Assembly::CPY | Assembly::EOR | Assembly::LDA | Assembly::LDX | Assembly::LDY
        | Assembly::ORA | Assembly::SBC => read_outcome(op, cpu, bus, mode),
        Assembly::CLC | Assembly::CLD | Assembly::CLI | Assembly::CLV | Assembly::SEC
        | Assembly::SED | Assembly::SEI | Assembly::DEX | Assembly::DEY | Assembly::INX
        | Assembly::INY | Assembly::TAX | Assembly::TAY | Assembly::TSX | Assembly::TXA
        | Assembly::TXS | Assembly::TYA => register_outcome(op, cpu, bus),
        Assembly::STA | Assembly::STX | Assembly::STY => store_outcome(op, cpu, bus, mode),
        Assembly::BCC | Assembly::BCS | Assembly::BEQ | Assembly::BMI | Assembly::BNE
        | Assembly::BPL | Assembly::BVC | Assembly::BVS => branch_outcome(
            cpu,
            bus,
            mode,
            taken(op, cpu.status),
        ),
        Assembly::ASL | Assembly::LSR | Assembly::ROL | Assembly::ROR => shift_outcome(
            op,
            cpu,
            bus,
            mode,
        ),
        Assembly::DEC => step_outcome(cpu, bus, mode, 255),
        Assembly::INC => step_outcome(cpu, bus, mode, 1),
        Assembly::BRK => brk_outcome(cpu, bus),
        Assembly::JMP => jmp_outcome(cpu, bus, mode),
        Assembly::JSR => jsr_outcome(cpu, bus, mode),
        Assembly::PHA => pha_outcome(cpu, bus),
        Assembly::PHP => php_outcome(cpu, bus),
        Assembly::PLA => pla_outcome(cpu, bus),
        Assembly::PLP => plp_outcome(cpu, bus),
        Assembly::RTI => rti_outcome(cpu, bus),
        Assembly::RTS => rts_outcome(cpu, bus),
        _ => nop_outcome(cpu, bus, mode),
    }
}

/// Reads the operand of the instruction at the program counter.
pub fn load_operand(cpu: &Cpu2A03, mmu: &mut MemoryBus, operend: AddressingMode) -> (r: (
    u8,
    bool,
    u16,
))
    requires
        !(operend is NoneAddressing),
    ensures
        (r.0, r.1, r.2, final(mmu)@) == operend.operand(*cpu, old(mmu)@),
        final(mmu)@.follows(old(mmu)@),
{
    let (ptr, page_crossed) = operend.fetch_addr(cpu, mmu);
    let value = mmu.read_byte(ptr);
    (value, page_crossed, ptr)
}

/// Looks up what a read through `operend` costs.
pub fn cost_of_read(operend: AddressingMode, crossed: bool) -> (r: u8)
    ensures
        r == read_cost(operend, crossed),
{
    let extra: u8 = if crossed {
        1
    } else {
        0
    };
    match operend {
        AddressingMode::Immediate => 2,
        AddressingMode::ZeroPage => 3,
        AddressingMode::ZeroPageX => 4,
        AddressingMode::ZeroPageY => 4,
        AddressingMode::Absolute => 4,
        AddressingMode::AbsoluteX => 4 + extra,
        AddressingMode::AbsoluteY => 4 + extra,
        AddressingMode::IndirectX => 6,
        AddressingMode::IndirectY => 5 + extra,
        AddressingMode::NoneAddressing => 2,
    }
}

/// Looks up what changing an operand in memory costs.
pub fn cost_of_modify(operend: AddressingMode) -> (r: u8)
    ensures
        r == modify_cost(operend),
{
    match operend {
        AddressingMode::ZeroPage => 5,
        AddressingMode::ZeroPageX => 6,
        AddressingMode::Absolute => 6,
        AddressingMode::AbsoluteX => 7,
        _ => 2,
    }
}

/// Looks up what a store through `operend` costs.
pub fn cost_of_store(operend: AddressingMode) -> (r: u8)
    ensures
        r == store_cost(operend),
{
    match operend {
        AddressingMode::ZeroPage => 3,
        AddressingMode::ZeroPageX => 4,
        AddressingMode::ZeroPageY => 4,
        AddressingMode::Absolute => 4,
        AddressingMode::AbsoluteX => 5,
        AddressingMode::AbsoluteY => 5,
        AddressingMode::IndirectX => 6,
        AddressingMode::IndirectY => 6,
        _ => 2,
    }
}

/// Adds `m` and the carry to the accumulator.
pub fn add_to_accumulator(cpu: &mut Cpu2A03, m: u8)
    ensures
        *final(cpu) == old(cpu).added(m),
{
    let carry: u16 = if cpu.status.contains(Status::CARRY) {
        1
    } else {
        0
    };
    let sum: u16 = cpu.a as u16 + m as u16 + carry;
    let res = (sum % 256) as u8;
    cpu.status.set(Status::CARRY, sum > 255);
    cpu.status.set(Status::ZERO, res == 0);
    cpu.status.set(Status::OVF, (m ^ res) & (cpu.a ^ res) & 0x80 != 0);
    cpu.status.set(Status::NEG, res & 0b1000_0000 != 0);
    cpu.a = res;
}

/// Sets the flags from a comparison of `register` with `m`.
pub fn compare_register(cpu: &mut Cpu2A03, register: u8, m: u8)
    ensures
        *final(cpu) == old(cpu).compared(register, m),
{
    let res = register.wrapping_sub(m);
    cpu.status.set(Status::CARRY, register >= m);
    cpu.status.set(Status::ZERO, res == 0);
    cpu.status.set(Status::NEG, res & 0b1000_0000 != 0);
}

pub fn adc(cpu: &mut Cpu2A03, mmu: &mut MemoryBus, operend: AddressingMode) -> (r: Result<
    (u8, bool),
    (),
>)
    requires
        supports(Assembly::ADC, operend),
    ensures
        read_outcome(Assembly::ADC, *old(cpu), old(mmu)@, operend).is(
            r,
            *final(cpu),
            final(mmu)@,
        ),
        final(mmu)@.follows(old(mmu)@),
{
    proof {
        reveal(supports);
        reveal(read_outcome);
    }
    let (rhs, page_crossed, _) = load_operand(cpu, mmu, operend);
    add_to_accumulator(cpu, rhs);
    Ok((cost_of_read(operend, page_crossed), false))
}

/// Where a branch at `pc` with the offset byte `offset` lands.
pub fn branch_to(pc: u16, offset: u8) -> (r: u16)
    ensures
        r == branch_target(pc, offset),
{
    let forward = pc.wrapping_add(2).wrapping_add(offset as u16);
    if offset >= 0x80 {
        forward.wrapping_sub(0x100)
    } else {
        forward
    }
}

/// Reads the offset of the branch at the program counter and jumps.
/// Returns whether the jump left the page of the next instruction.
pub fn take_branch(cpu: &mut Cpu2A03, mmu: &mut MemoryBus, operend: AddressingMode) -> (crossed:
    bool)
    requires
        !(operend is NoneAddressing),
    ensures
        ({
            let (offset, found, address, next) = operend.operand(*old(cpu), old(mmu)@);
            let target = branch_target(old(cpu).pc, offset);
            &&& *final(cpu) == (Cpu2A03 { pc: target, ..*old(cpu) })
            &&& final(mmu)@ == next
            &&& crossed == page_crossed(target as int, offset_address(old(cpu).pc, 2) as int)
        }),
        final(mmu)@.follows(old(mmu)@),
{
    let (offset, _, _) = load_operand(cpu, mmu, operend);
    let res = branch_to(cpu.pc, offset);
    let crossed = page_cross(res, moved(cpu.pc, 2));
    cpu.pc = res;
    crossed
}

/// Branches if `taken`.
pub fn branch(cpu: &mut Cpu2A03, mmu: &mut MemoryBus, operend: AddressingMode, taken: bool) -> (r:
    Result<(u8, bool), ()>)
    requires
        taken ==> !(operend is NoneAddressing),
    ensures
        branch_outcome(*old(cpu), old(mmu)@, operend, taken).is(r, *final(cpu), final(mmu)@),
        final(mmu)@.follows(old(mmu)@),
{
    proof {
        reveal(branch_outcome);
    }
    if taken {
        if take_branch(cpu, mmu, operend) {
            Ok((4, true))
        } else {
            Ok((3, true))
        }
    } else {
        Ok((2, false))
    }
}

/// Shifts or rotates the accumulator.
pub fn shift_accumulator(cpu: &mut Cpu2A03, op: Assembly)
    requires
        shifts(op),
    ensures
        ({
            let (res, carry) = shifted(op, old(cpu).a, old(cpu).status);
            *final(cpu) == (Cpu2A03 {
                a: res,
                status: shift_flags(op, old(cpu).status, res, carry, false),
                ..*old(cpu)
            })
        }),
{
    let (res, carry) = shift_value(op, cpu.a, cpu.status);
    cpu.status.set(Status::CARRY, carry);
    cpu.status.set(Status::NEG, res & 0b1000_0000 != 0);
    cpu.status.set(Status::ZERO, res == 0);
    cpu.a = res;
}

/// Computes a shift or rotate of `m` and the carry that it leaves.
pub fn shift_value(op: Assembly, m: u8, status: Status) -> (r: (u8, bool))
    requires
        shifts(op),
    ensures
        r == shifted(op, m, status),
{
    match op {
        Assembly::ASL => (m << 1, m & 0b1000_0000 != 0),
        Assembly::LSR => (m >> 1, m & 0b0000_0001 != 0),
        Assembly::ROL => ((m << 1) | (status.bits() & 0x01), m & 0b1000_0000 != 0),
        _ => ((m >> 1) | ((status.bits() & 0x01) << 7), m & 0b0000_0001 != 0),
    }
}

/// Shifts or rotates the operand in memory.
pub fn shift_memory(cpu: &mut Cpu2A03, mmu: &mut MemoryBus, operend: AddressingMode, op: Assembly)
    requires
        shifts(op),
        modifies_memory(operend),
    ensures
        shift_outcome(op, *old(cpu), old(mmu)@, operend).cpu == *final(cpu),
        shift_outcome(op, *old(cpu), old(mmu)@, operend).bus == final(mmu)@,
        final(mmu)@.follows(old(mmu)@),
{
    proof {
        reveal(shift_outcome);
    }
    let (rhs, _, _) = load_operand(cpu, mmu, operend);
    let (res, carry) = shift_value(op, rhs, cpu.status);
    store_result(cpu, mmu, operend, res);
    cpu.status.set(Status::CARRY, carry);
    cpu.status.set(Status::NEG, res & 0b1000_0000 != 0);
    match op {
        Assembly::ASL | Assembly::LSR => {
            cpu.status.set(Status::ZERO, res == 0);
        },
        _ => {},
    }
}

/// Looks the operand's address up and writes `value` there.
pub fn store_result(cpu: &Cpu2A03, mmu: &mut MemoryBus, operend: AddressingMode, value: u8)
    requires
        !(operend is NoneAddressing),
    ensures
        ({
            let (address, crossed, found) = operend.operand_address(*cpu, old(mmu)@);
            final(mmu)@ == found.write(address, value)
        }),
        final(mmu)@.follows(old(mmu)@),
{
    let (ptr, _) = operend.fetch_addr(cpu, mmu);
    mmu.write_byte(ptr, value);
}

/// Adds `delta` to the operand in memory, wrapping within the byte.
pub fn step_memory(cpu: &mut Cpu2A03, mmu: &mut MemoryBus, operend: AddressingMode, delta: u8) -> (r:
    Result<(u8, bool), ()>)
    requires
        modifies_memory(operend),
    ensures
        step_outcome(*old(cpu), old(mmu)@, operend, delta).is(r, *final(cpu), final(mmu)@),
        final(mmu)@.follows(old(mmu)@),
{
    proof {
        reveal(step_outcome);
    }
    let (rhs, _, ptr) = load_operand(cpu, mmu, operend);
    let res = wrapped(rhs, delta);
    cpu.status.set_zn(res);
    mmu.write_byte(ptr, res);
    Ok((cost_of_modify(operend), false))
}

/// Reads the word that a jump through `base` finds.
pub fn read_jump_pointer(mmu: &mut MemoryBus, base: u16) -> (r: u16)
    ensures
        (r, final(mmu)@) == jump_pointer(old(mmu)@, base),
        final(mmu)@.follows(old(mmu)@),
{
    let low = mmu.read_byte(base) as u16;
    let high = if base & 0xFF == 0xFF {
        mmu.read_byte(base & 0xFF00) as u16
    } else {
        mmu.read_byte(following(base)) as u16
    };
    (high << 8) | low
}

/// Reads the word that the operand's address holds.
pub fn load_target(cpu: &Cpu2A03, mmu: &mut MemoryBus, operend: AddressingMode) -> (r: u16)
    requires
        !(operend is NoneAddressing),
    ensures
        ({
            let (address, crossed, found) = operend.operand_address(*cpu, old(mmu)@);
            (r, final(mmu)@) == found.read_word(address)
        }),
        final(mmu)@.follows(old(mmu)@),
{
    let (addr, _) = operend.fetch_addr(cpu, mmu);
    mmu.read_word(addr)
}

pub fn and(cpu: &mut Cpu2A03, mmu: &mut MemoryBus, operend: AddressingMode) -> (r: Result<
    (u8, bool),
    (),
>)
    requires
        supports(Assembly::AND, operend),
    ensures
        read_outcome(Assembly::AND, *old(cpu), old(mmu)@, operend).is(r, *final(cpu), final(mmu)@),
        final(mmu)@.follows(old(mmu)@),
{
    proof {
        reveal(supports);
        reveal(read_outcome);
    }
    let (rhs, page_crossed, _) = load_operand(cpu, mmu, operend);
    cpu.a = cpu.a & rhs;
    cpu.status.set_zn(cpu.a);
    Ok((cost_of_read(operend, page_crossed), false))
}

pub fn asl(cpu: &mut Cpu2A03, mmu: &mut MemoryBus, operend: AddressingMode) -> (r: Result<
    (u8, bool),
    (),
>)
    requires
        supports(Assembly::ASL, operend),
    ensures
        shift_outcome(Assembly::ASL, *old(cpu), old(mmu)@, operend).is(r, *final(cpu), final(mmu)@),
        final(mmu)@.follows(old(mmu)@),
{
    proof {
        reveal(supports);
        reveal(shift_outcome);
    }
    if let AddressingMode::NoneAddressing = operend {
        shift_accumulator(cpu, Assembly::ASL);
        Ok((2, false))
    } else {
        shift_memory(cpu, mmu, operend, Assembly::ASL);
        Ok((cost_of_modify(operend), false))
    }
}

pub fn bcc(cpu: &mut Cpu2A03, mmu: &mut MemoryBus, operend: AddressingMode) -> (r: Result<
    (u8, bool),
    (),
>)
    requires
        taken(Assembly::BCC, old(cpu).status) ==> !(operend is NoneAddressing),
    ensures
        branch_outcome(
            *old(cpu),
            old(mmu)@,
            operend,
            taken(Assembly::BCC, old(cpu).status),
        ).is(r, *final(cpu), final(mmu)@),
        final(mmu)@.follows(old(mmu)@),
{
    proof {
        reveal(branch_outcome);
    }
    let is_branched = !cpu.status.contains(Status::CARRY);
    branch(cpu, mmu, operend, is_branched)
}

pub fn bcs(cpu: &mut Cpu2A03, mmu: &mut MemoryBus, operend: AddressingMode) -> (r: Result<
    (u8, bool),
    (),
>)
    requires
        taken(Assembly::BCS, old(cpu).status) ==> !(operend is NoneAddressing),
    ensures
        branch_outcome(
            *old(cpu),
            old(mmu)@,
            operend,
            taken(Assembly::BCS, old(cpu).status),
        ).is(r, *final(cpu), final(mmu)@),
        final(mmu)@.follows(old(mmu)@),
{
    proof {
        reveal(branch_outcome);
    }
    let is_branched = cpu.status.contains(Status::CARRY);
    branch(cpu, mmu, operend, is_branched)
}

pub fn beq(cpu: &mut Cpu2A03, mmu: &mut MemoryBus, operend: AddressingMode) -> (r: Result<
    (u8, bool),
    (),
>)
    requires
        taken(Assembly::BEQ, old(cpu).status) ==> !(operend is NoneAddressing),
    ensures
        branch_outcome(
            *old(cpu),
            old(mmu)@,
            operend,
            taken(Assembly::BEQ, old(cpu).status),
        ).is(r, *final(cpu), final(mmu)@),
        final(mmu)@.follows(old(mmu)@),
{
    proof {
        reveal(branch_outcome);
    }
    let is_branched = cpu.status.contains(Status::ZERO);
    branch(cpu, mmu, operend, is_branched)
}

pub fn bit(cpu: &mut Cpu2A03, mmu: &mut MemoryBus, operend: AddressingMode) -> (r: Result<
    (u8, bool),
    (),
>)
    requires
        supports(Assembly::BIT, operend),
    ensures
        read_outcome(Assembly::BIT, *old(cpu), old(mmu)@, operend).is(r, *final(cpu), final(mmu)@),
        final(mmu)@.follows(old(mmu)@),
{
    proof {
        reveal(supports);
        reveal(read_outcome);
    }
    let (rhs, page_crossed, _) = load_operand(cpu, mmu, operend);
    let res = rhs & cpu.a;
    cpu.status.set(Status::ZERO, res == 0);
    cpu.status.set(Status::OVF, rhs & 0b0100_0000 != 0);
    cpu.status.set(Status::NEG, rhs & 0b1000_0000 != 0);
    Ok((cost_of_read(operend, page_crossed), false))
}

pub fn bmi(cpu: &mut Cpu2A03, mmu: &mut MemoryBus, operend: AddressingMode) -> (r: Result<
    (u8, bool),
    (),
>)
    requires
        taken(Assembly::BMI, old(cpu).status) ==> !(operend is NoneAddressing),
    ensures
        branch_outcome(
            *old(cpu),
            old(mmu)@,
            operend,
            taken(Assembly::BMI, old(cpu).status),
        ).is(r, *final(cpu), final(mmu)@),
        final(mmu)@.follows(old(mmu)@),
{
    proof {
        reveal(branch_outcome);
    }
    let is_branched = cpu.status.contains(Status::NEG);
    branch(cpu, mmu, operend, is_branched)
}

pub fn bne(cpu: &mut Cpu2A03, mmu: &mut MemoryBus, operend: AddressingMode) -> (r: Result<
    (u8, bool),
    (),
>)
    requires
        taken(Assembly::BNE, old(cpu).status) ==> !(operend is NoneAddressing),
    ensures
        branch_outcome(
            *old(cpu),
            old(mmu)@,
            operend,
            taken(Assembly::BNE, old(cpu).status),
        ).is(r, *final(cpu), final(mmu)@),
        final(mmu)@.follows(old(mmu)@),
{
    proof {
        reveal(branch_outcome);
    }
    let is_branched = !cpu.status.contains(Status::ZERO);
    branch(cpu, mmu, operend, is_branched)
}

pub fn bpl(cpu: &mut Cpu2A03, mmu: &mut MemoryBus, operend: AddressingMode) -> (r: Result<
    (u8, bool),
    (),
>)
    requires
        taken(Assembly::BPL, old(cpu).status) ==> !(operend is NoneAddressing),
    ensures
        branch_outcome(
            *old(cpu),
            old(mmu)@,
            operend,
            taken(Assembly::BPL, old(cpu).status),
        ).is(r, *final(cpu), final(mmu)@),
        final(mmu)@.follows(old(mmu)@),
{
    proof {
        reveal(branch_outcome);
    }
    let is_branched = !cpu.status.contains(Status::NEG);
    branch(cpu, mmu, operend, is_branched)
}

pub fn brk(cpu: &mut Cpu2A03, mmu: &mut MemoryBus, operend: AddressingMode) -> (r: Result<
    (u8, bool),
    (),
>)
    ensures
        brk_outcome(*old(cpu), old(mmu)@).is(r, *final(cpu), final(mmu)@),
        final(mmu)@.follows(old(mmu)@),
{
    proof {
        reveal(brk_outcome);
    }
    cpu.status.set(Status::BRK, true);
    cpu.push16(mmu, cpu.pc);
    cpu.push8(mmu, cpu.status.bits());
    cpu.pc = mmu.read_word(0xFFFE);
    Ok((7, true))
}

pub fn bvc(cpu: &mut Cpu2A03, mmu: &mut MemoryBus, operend: AddressingMode) -> (r: Result<
    (u8, bool),
    (),
>)
    requires
        taken(Assembly::BVC, old(cpu).status) ==> !(operend is NoneAddressing),
    ensures
        branch_outcome(
            *old(cpu),
            old(mmu)@,
            operend,
            taken(Assembly::BVC, old(cpu).status),
        ).is(r, *final(cpu), final(mmu)@),
        final(mmu)@.follows(old(mmu)@),
{
    proof {
        reveal(branch_outcome);
    }
    let is_branched = !cpu.status.contains(Status::OVF);
    branch(cpu, mmu, operend, is_branched)
}

pub fn bvs(cpu: &mut Cpu2A03, mmu: &mut MemoryBus, operend: AddressingMode) -> (r: Result<
    (u8, bool),
    (),
>)
    requires
        taken(Assembly::BVS, old(cpu).status) ==> !(operend is NoneAddressing),
    ensures
        branch_outcome(
            *old(cpu),
            old(mmu)@,
            operend,
            taken(Assembly::BVS, old(cpu).status),
        ).is(r, *final(cpu), final(mmu)@),
        final(mmu)@.follows(old(mmu)@),
{
    proof {
        reveal(branch_outcome);
    }
    let is_branched = cpu.status.contains(Status::OVF);
    branch(cpu, mmu, operend, is_branched)
}

pub fn clc(cpu: &mut Cpu2A03, mmu: &mut MemoryBus, operend: AddressingMode) -> (r: Result<
    (u8, bool),
    (),
>)
    ensures
        register_outcome(Assembly::CLC, *old(cpu), old(mmu)@).is(r, *final(cpu), final(mmu)@),
        final(mmu)@.follows(old(mmu)@),
{
    proof {
        reveal(register_outcome);
    }
    cpu.status.set(Status::CARRY, false);
    Ok((2, false))
}

pub fn cld(cpu: &mut Cpu2A03, mmu: &mut MemoryBus, operend: AddressingMode) -> (r: Result<
    (u8, bool),
    (),
>)
    ensures
        register_outcome(Assembly::CLD, *old(cpu), old(mmu)@).is(r, *final(cpu), final(mmu)@),
        final(mmu)@.follows(old(mmu)@),
{
    proof {
        reveal(register_outcome);
    }
    cpu.status.set(Status::DEC, false);
    Ok((2, false))
}

pub fn cli(cpu: &mut Cpu2A03, mmu: &mut MemoryBus, operend: AddressingMode) -> (r: Result<
    (u8, bool),
    (),
>)
    ensures
        register_outcome(Assembly::CLI, *old(cpu), old(mmu)@).is(r, *final(cpu), final(mmu)@),
        final(mmu)@.follows(old(mmu)@),
{
    proof {
        reveal(register_outcome);
    }
    cpu.status.set(Status::INT, false);
    Ok((2, false))
}

pub fn clv(cpu: &mut Cpu2A03, mmu: &mut MemoryBus, operend: AddressingMode) -> (r: Result<
    (u8, bool),
    (),
>)
    ensures
        register_outcome(Assembly::CLV, *old(cpu), old(mmu)@).is(r, *final(cpu), final(mmu)@),
        final(mmu)@.follows(old(mmu)@),
{
    proof {
        reveal(register_outcome);
    }
    cpu.status.set(Status::OVF, false);
    Ok((2, false))
}

pub fn cmp(cpu: &mut Cpu2A03, mmu: &mut MemoryBus, operend: AddressingMode) -> (r: Result<
    (u8, bool),
    (),
>)
    requires
        supports(Assembly::CMP, operend),
    ensures
        read_outcome(Assembly::CMP, *old(cpu), old(mmu)@, operend).is(r, *final(cpu), final(mmu)@),
        final(mmu)@.follows(old(mmu)@),
{
    proof {
        reveal(supports);
        reveal(read_outcome);
    }
    let (rhs, page_crossed, _) = load_operand(cpu, mmu, operend);
    compare_register(cpu, cpu.a, rhs);
    Ok((cost_of_read(operend, page_crossed), false))
}

pub fn cpx(cpu: &mut Cpu2A03, mmu: &mut MemoryBus, operend: AddressingMode) -> (r: Result<
    (u8, bool),
    (),
>)
    requires
        supports(Assembly::CPX, operend),
    ensures
        read_outcome(Assembly::CPX, *old(cpu), old(mmu)@, operend).is(r, *final(cpu), final(mmu)@),
        final(mmu)@.follows(old(mmu)@),
{
    proof {
        reveal(supports);
        reveal(read_outcome);
    }
    let (rhs, page_crossed, _) = load_operand(cpu, mmu, operend);
    compare_register(cpu, cpu.x, rhs);
    Ok((cost_of_read(operend, page_crossed), false))
}

pub fn cpy(cpu: &mut Cpu2A03, mmu: &mut MemoryBus, operend: AddressingMode) -> (r: Result<
    (u8, bool),
    (),
>)
    requires
        supports(Assembly::CPY, operend),
    ensures
        read_outcome(Assembly::CPY, *old(cpu), old(mmu)@, operend).is(r, *final(cpu), final(mmu)@),
        final(mmu)@.follows(old(mmu)@),
{
    proof {
        reveal(supports);
        reveal(read_outcome);
    }
    let (rhs, page_crossed, _) = load_operand(cpu, mmu, operend);
    compare_register(cpu, cpu.y, rhs);
    Ok((cost_of_read(operend, page_crossed), false))
}

pub fn dec(cpu: &mut Cpu2A03, mmu: &mut MemoryBus, operend: AddressingMode) -> (r: Result<
    (u8, bool),
    (),
>)
    requires
        supports(Assembly::DEC, operend),
    ensures
        step_outcome(*old(cpu), old(mmu)@, operend, 255).is(r, *final(cpu), final(mmu)@),
        final(mmu)@.follows(old(mmu)@),
{
    proof {
        reveal(supports);
        reveal(step_outcome);
    }
    step_memory(cpu, mmu, operend, 255)
}

pub fn dex(cpu: &mut Cpu2A03, mmu: &mut MemoryBus, operend: AddressingMode) -> (r: Result<
    (u8, bool),
    (),
>)
    ensures
        register_outcome(Assembly::DEX, *old(cpu), old(mmu)@).is(r, *final(cpu), final(mmu)@),
        final(mmu)@.follows(old(mmu)@),
{
    proof {
        reveal(register_outcome);
    }
    let res = wrapped(cpu.x, 255);
    cpu.status.set_zn(res);
    cpu.x = res;
    Ok((2, false))
}

pub fn dey(cpu: &mut Cpu2A03, mmu: &mut MemoryBus, operend: AddressingMode) -> (r: Result<
    (u8, bool),
    (),
>)
    ensures
        register_outcome(Assembly::DEY, *old(cpu), old(mmu)@).is(r, *final(cpu), final(mmu)@),
        final(mmu)@.follows(old(mmu)@),
{
    proof {
        reveal(register_outcome);
    }
    let res = wrapped(cpu.y, 255);
    cpu.status.set_zn(res);
    cpu.y = res;
    Ok((2, false))
}

pub fn eor(cpu: &mut Cpu2A03, mmu: &mut MemoryBus, operend: AddressingMode) -> (r: Result<
    (u8, bool),
    (),
>)
    requires
        supports(Assembly::EOR, operend),
    ensures
        read_outcome(Assembly::EOR, *old(cpu), old(mmu)@, operend).is(r, *final(cpu), final(mmu)@),
        final(mmu)@.follows(old(mmu)@),
{
    proof {
        reveal(supports);
        reveal(read_outcome);
    }
    let (rhs, page_crossed, _) = load_operand(cpu, mmu, operend);
    cpu.a = cpu.a ^ rhs;
    cpu.status.set_zn(cpu.a);
    Ok((cost_of_read(operend, page_crossed), false))
}

pub fn inc(cpu: &mut Cpu2A03, mmu: &mut MemoryBus, operend: AddressingMode) -> (r: Result<
    (u8, bool),
    (),
>)
    requires
        supports(Assembly::INC, operend),
    ensures
        step_outcome(*old(cpu), old(mmu)@, operend, 1).is(r, *final(cpu), final(mmu)@),
        final(mmu)@.follows(old(mmu)@),
{
    proof {
        reveal(supports);
        reveal(step_outcome);
    }
    step_memory(cpu, mmu, operend, 1)
}

pub fn inx(cpu: &mut Cpu2A03, mmu: &mut MemoryBus, operend: AddressingMode) -> (r: Result<
    (u8, bool),
    (),
>)
    ensures
        register_outcome(Assembly::INX, *old(cpu), old(mmu)@).is(r, *final(cpu), final(mmu)@),
        final(mmu)@.follows(old(mmu)@),
{
    proof {
        reveal(register_outcome);
    }
    let res = wrapped(cpu.x, 1);
    cpu.status.set_zn(res);
    cpu.x = res;
    Ok((2, false))
}

pub fn iny(cpu: &mut Cpu2A03, mmu: &mut MemoryBus, operend: AddressingMode) -> (r: Result<
    (u8, bool),
    (),
>)
    ensures
        register_outcome(Assembly::INY, *old(cpu), old(mmu)@).is(r, *final(cpu), final(mmu)@),
        final(mmu)@.follows(old(mmu)@),
{
    proof {
        reveal(register_outcome);
    }
    let res = wrapped(cpu.y, 1);
    cpu.status.set_zn(res);
    cpu.y = res;
    Ok((2, false))
}

pub fn jmp(cpu: &mut Cpu2A03, mmu: &mut MemoryBus, operend: AddressingMode) -> (r: Result<
    (u8, bool),
    (),
>)
    requires
        supports(Assembly::JMP, operend),
    ensures
        jmp_outcome(*old(cpu), old(mmu)@, operend).is(r, *final(cpu), final(mmu)@),
        final(mmu)@.follows(old(mmu)@),
{
    proof {
        reveal(supports);
        reveal(jmp_outcome);
    }
    let base = mmu.read_word(moved(cpu.pc, 1));
    if let AddressingMode::Immediate = operend {
        cpu.pc = base;
        Ok((3, true))
    } else {
        cpu.pc = read_jump_pointer(mmu, base);
        Ok((5, true))
    }
}

pub fn jsr(cpu: &mut Cpu2A03, mmu: &mut MemoryBus, operend: AddressingMode) -> (r: Result<
    (u8, bool),
    (),
>)
    requires
        supports(Assembly::JSR, operend),
    ensures
        jsr_outcome(*old(cpu), old(mmu)@, operend).is(r, *final(cpu), final(mmu)@),
        final(mmu)@.follows(old(mmu)@),
{
    proof {
        reveal(supports);
        reveal(jsr_outcome);
    }
    let addr = load_target(cpu, mmu, operend);
    cpu.push16(mmu, moved(cpu.pc, 2));
    cpu.pc = addr;
    Ok((6, true))
}

pub fn lda(cpu: &mut Cpu2A03, mmu: &mut MemoryBus, operend: AddressingMode) -> (r: Result<
    (u8, bool),
    (),
>)
    requires
        supports(Assembly::LDA, operend),
    ensures
        read_outcome(Assembly::LDA, *old(cpu), old(mmu)@, operend).is(r, *final(cpu), final(mmu)@),
        final(mmu)@.follows(old(mmu)@),
{
    proof {
        reveal(supports);
        reveal(read_outcome);
    }
    let (rhs, page_crossed, _) = load_operand(cpu, mmu, operend);
    cpu.status.set_zn(rhs);
    cpu.a = rhs;
    Ok((cost_of_read(operend, page_crossed), false))
}

pub fn ldx(cpu: &mut Cpu2A03, mmu: &mut MemoryBus, operend: AddressingMode) -> (r: Result<
    (u8, bool),
    (),
>)
    requires
        supports(Assembly::LDX, operend),
    ensures
        read_outcome(Assembly::LDX, *old(cpu), old(mmu)@, operend).is(r, *final(cpu), final(mmu)@),
        final(mmu)@.follows(old(mmu)@),
{
    proof {
        reveal(supports);
        reveal(read_outcome);
    }
    let (rhs, page_crossed, _) = load_operand(cpu, mmu, operend);
    cpu.status.set_zn(rhs);
    cpu.x = rhs;
    Ok((cost_of_read(operend, page_crossed), false))
}

pub fn ldy(cpu: &mut Cpu2A03, mmu: &mut MemoryBus, operend: AddressingMode) -> (r: Result<
    (u8, bool),
    (),
>)
    requires
        supports(Assembly::LDY, operend),
    ensures
        read_outcome(Assembly::LDY, *old(cpu), old(mmu)@, operend).is(r, *final(cpu), final(mmu)@),
        final(mmu)@.follows(old(mmu)@),
{
    proof {
        reveal(supports);
        reveal(read_outcome);
    }
    let (rhs, page_crossed, _) = load_operand(cpu, mmu, operend);
    cpu.status.set_zn(rhs);
    cpu.y = rhs;
    Ok((cost_of_read(operend, page_crossed), false))
}

pub fn lsr(cpu: &mut Cpu2A03, mmu: &mut MemoryBus, operend: AddressingMode) -> (r: Result<
    (u8, bool),
    (),
>)
    requires
        supports(Assembly::LSR, operend),
    ensures
        shift_outcome(Assembly::LSR, *old(cpu), old(mmu)@, operend).is(r, *final(cpu), final(mmu)@),
        final(mmu)@.follows(old(mmu)@),
{
    proof {
        reveal(supports);
        reveal(shift_outcome);
    }
    if let AddressingMode::NoneAddressing = operend {
        shift_accumulator(cpu, Assembly::LSR);
        Ok((2, false))
    } else {
        shift_memory(cpu, mmu, operend, Assembly::LSR);
        Ok((cost_of_modify(operend), false))
    }
}

pub fn nop(cpu: &mut Cpu2A03, mmu: &mut MemoryBus, operend: AddressingMode) -> (r: Result<
    (u8, bool),
    (),
>)
    ensures
        nop_outcome(*old(cpu), old(mmu)@, operend).is(r, *final(cpu), final(mmu)@),
        final(mmu)@.follows(old(mmu)@),
{
    proof {
        reveal(nop_outcome);
    }
    Ok(
        match operend {
            AddressingMode::ZeroPage => (3, false),
            AddressingMode::ZeroPageX => (4, false),
            AddressingMode::Absolute => (4, false),
            AddressingMode::AbsoluteX => (4, false),
            AddressingMode::AbsoluteY => (4, false),
            AddressingMode::IndirectX => (6, false),
            AddressingMode::IndirectY => (5, false),
            _ => (2, false),
        },
    )
}

pub fn ora(cpu: &mut Cpu2A03, mmu: &mut MemoryBus, operend: AddressingMode) -> (r: Result<
    (u8, bool),
    (),
>)
    requires
        supports(Assembly::ORA, operend),
    ensures
        read_outcome(Assembly::ORA, *old(cpu), old(mmu)@, operend).is(r, *final(cpu), final(mmu)@),
        final(mmu)@.follows(old(mmu)@),
{
    proof {
        reveal(supports);
        reveal(read_outcome);
    }
    let (rhs, page_crossed, _) = load_operand(cpu, mmu, operend);
    cpu.a = cpu.a | rhs;
    cpu.status.set_zn(cpu.a);
    Ok((cost_of_read(operend, page_crossed), false))
}

pub fn pha(cpu: &mut Cpu2A03, mmu: &mut MemoryBus, operend: AddressingMode) -> (r: Result<
    (u8, bool),
    (),
>)
    ensures
        pha_outcome(*old(cpu), old(mmu)@).is(r, *final(cpu), final(mmu)@),
        final(mmu)@.follows(old(mmu)@),
{
    proof {
        reveal(pha_outcome);
    }
    cpu.push8(mmu, cpu.a);
    Ok((3, false))
}

pub fn php(cpu: &mut Cpu2A03, mmu: &mut MemoryBus, operend: AddressingMode) -> (r: Result<
    (u8, bool),
    (),
>)
    ensures
        php_outcome(*old(cpu), old(mmu)@).is(r, *final(cpu), final(mmu)@),
        final(mmu)@.follows(old(mmu)@),
{
    proof {
        reveal(php_outcome);
    }
    cpu.push8(mmu, cpu.status.bits() | 0b0001_0000);
    Ok((3, false))
}

pub fn pla(cpu: &mut Cpu2A03, mmu: &mut MemoryBus, operend: AddressingMode) -> (r: Result<
    (u8, bool),
    (),
>)
    ensures
        pla_outcome(*old(cpu), old(mmu)@).is(r, *final(cpu), final(mmu)@),
        final(mmu)@.follows(old(mmu)@),
{
    proof {
        reveal(pla_outcome);
    }
    cpu.a = cpu.pop8(mmu);
    cpu.status.set_zn(cpu.a);
    Ok((4, false))
}

pub fn plp(cpu: &mut Cpu2A03, mmu: &mut MemoryBus, operend: AddressingMode) -> (r: Result<
    (u8, bool),
    (),
>)
    ensures
        plp_outcome(*old(cpu), old(mmu)@).is(r, *final(cpu), final(mmu)@),
        final(mmu)@.follows(old(mmu)@),
{
    proof {
        reveal(plp_outcome);
    }
    let status = cpu.pop8(mmu);
    cpu.status = Status::from_bits_truncate(status);
    cpu.status.remove(Status::BRK);
    cpu.status.insert(Status::BRK2);
    Ok((4, false))
}

pub fn rol(cpu: &mut Cpu2A03, mmu: &mut MemoryBus, operend: AddressingMode) -> (r: Result<
    (u8, bool),
    (),
>)
    requires
        supports(Assembly::ROL, operend),
    ensures
        shift_outcome(Assembly::ROL, *old(cpu), old(mmu)@, operend).is(r, *final(cpu), final(mmu)@),
        final(mmu)@.follows(old(mmu)@),
{
    proof {
        reveal(supports);
        reveal(shift_outcome);
    }
    if let AddressingMode::NoneAddressing = operend {
        shift_accumulator(cpu, Assembly::ROL);
        Ok((2, false))
    } else {
        shift_memory(cpu, mmu, operend, Assembly::ROL);
        Ok((cost_of_modify(operend), false))
    }
}

pub fn ror(cpu: &mut Cpu2A03, mmu: &mut MemoryBus, operend: AddressingMode) -> (r: Result<
    (u8, bool),
    (),
>)
    requires
        supports(Assembly::ROR, operend),
    ensures
        shift_outcome(Assembly::ROR, *old(cpu), old(mmu)@, operend).is(r, *final(cpu), final(mmu)@),
        final(mmu)@.follows(old(mmu)@),
{
    proof {
        reveal(supports);
        reveal(shift_outcome);
    }
    if let AddressingMode::NoneAddressing = operend {
        shift_accumulator(cpu, Assembly::ROR);
        Ok((2, false))
    } else {
        shift_memory(cpu, mmu, operend, Assembly::ROR);
        Ok((cost_of_modify(operend), false))
    }
}

pub fn rti(cpu: &mut Cpu2A03, mmu: &mut MemoryBus, operend: AddressingMode) -> (r: Result<
    (u8, bool),
    (),
>)
    ensures
        rti_outcome(*old(cpu), old(mmu)@).is(r, *final(cpu), final(mmu)@),
        final(mmu)@.follows(old(mmu)@),
{
    proof {
        reveal(rti_outcome);
    }
    cpu.status = Status::from_bits_truncate(cpu.pop8(mmu) | 0x20);
    cpu.pc = cpu.pop16(mmu);
    Ok((6, true))
}

pub fn rts(cpu: &mut Cpu2A03, mmu: &mut MemoryBus, operend: AddressingMode) -> (r: Result<
    (u8, bool),
    (),
>)
    ensures
        rts_outcome(*old(cpu), old(mmu)@).is(r, *final(cpu), final(mmu)@),
        final(mmu)@.follows(old(mmu)@),
{
    proof {
        reveal(rts_outcome);
    }
    cpu.pc = moved(cpu.pop16(mmu), 1);
    Ok((6, true))
}

pub fn sbc(cpu: &mut Cpu2A03, mmu: &mut MemoryBus, operend: AddressingMode) -> (r: Result<
    (u8, bool),
    (),
>)
    requires
        supports(Assembly::SBC, operend),
    ensures
        read_outcome(Assembly::SBC, *old(cpu), old(mmu)@, operend).is(r, *final(cpu), final(mmu)@),
        final(mmu)@.follows(old(mmu)@),
{
    proof {
        reveal(supports);
        reveal(read_outcome);
    }
    let (rhs, page_crossed, _) = load_operand(cpu, mmu, operend);
    add_to_accumulator(cpu, !rhs);
    Ok((cost_of_read(operend, page_crossed), false))
}

pub fn sec(cpu: &mut Cpu2A03, mmu: &mut MemoryBus, operend: AddressingMode) -> (r: Result<
    (u8, bool),
    (),
>)
    ensures
        register_outcome(Assembly::SEC, *old(cpu), old(mmu)@).is(r, *final(cpu), final(mmu)@),
        final(mmu)@.follows(old(mmu)@),
{
    proof {
        reveal(register_outcome);
    }
    cpu.status.set(Status::CARRY, true);
    Ok((2, false))
}

pub fn sed(cpu: &mut Cpu2A03, mmu: &mut MemoryBus, operend: AddressingMode) -> (r: Result<
    (u8, bool),
    (),
>)
    ensures
        register_outcome(Assembly::SED, *old(cpu), old(mmu)@).is(r, *final(cpu), final(mmu)@),
        final(mmu)@.follows(old(mmu)@),
{
    proof {
        reveal(register_outcome);
    }
    cpu.status.set(Status::DEC, true);
    Ok((2, false))
}

pub fn sei(cpu: &mut Cpu2A03, mmu: &mut MemoryBus, operend: AddressingMode) -> (r: Result<
    (u8, bool),
    (),
>)
    ensures
        register_outcome(Assembly::SEI, *old(cpu), old(mmu)@).is(r, *final(cpu), final(mmu)@),
        final(mmu)@.follows(old(mmu)@),
{
    proof {
        reveal(register_outcome);
    }
    cpu.status.set(Status::INT, true);
    Ok((2, false))
}

pub fn sta(cpu: &mut Cpu2A03, mmu: &mut MemoryBus, operend: AddressingMode) -> (r: Result<
    (u8, bool),
    (),
>)
    requires
        supports(Assembly::STA, operend),
    ensures
        store_outcome(Assembly::STA, *old(cpu), old(mmu)@, operend).is(r, *final(cpu), final(mmu)@),
        final(mmu)@.follows(old(mmu)@),
{
    proof {
        reveal(supports);
        reveal(store_outcome);
    }
    store_result(cpu, mmu, operend, cpu.a);
    Ok((cost_of_store(operend), false))
}

pub fn stx(cpu: &mut Cpu2A03, mmu: &mut MemoryBus, operend: AddressingMode) -> (r: Result<
    (u8, bool),
    (),
>)
    requires
        supports(Assembly::STX, operend),
    ensures
        store_outcome(Assembly::STX, *old(cpu), old(mmu)@, operend).is(r, *final(cpu), final(mmu)@),
        final(mmu)@.follows(old(mmu)@),
{
    proof {
        reveal(supports);
        reveal(store_outcome);
    }
    store_result(cpu, mmu, operend, cpu.x);
    Ok((cost_of_store(operend), false))
}

pub fn sty(cpu: &mut Cpu2A03, mmu: &mut MemoryBus, operend: AddressingMode) -> (r: Result<
    (u8, bool),
    (),
>)
    requires
        supports(Assembly::STY, operend),
    ensures
        store_outcome(Assembly::STY, *old(cpu), old(mmu)@, operend).is(r, *final(cpu), final(mmu)@),
        final(mmu)@.follows(old(mmu)@),
{
    proof {
        reveal(supports);
        reveal(store_outcome);
    }
    store_result(cpu, mmu, operend, cpu.y);
    Ok((cost_of_store(operend), false))
}

pub fn tax(cpu: &mut Cpu2A03, mmu: &mut MemoryBus, operend: AddressingMode) -> (r: Result<
    (u8, bool),
    (),
>)
    ensures
        register_outcome(Assembly::TAX, *old(cpu), old(mmu)@).is(r, *final(cpu), final(mmu)@),
        final(mmu)@.follows(old(mmu)@),
{
    proof {
        reveal(register_outcome);
    }
    cpu.x = cpu.a;
    cpu.status.set_zn(cpu.a);
    Ok((2, false))
}

pub fn tay(cpu: &mut Cpu2A03, mmu: &mut MemoryBus, operend: AddressingMode) -> (r: Result<
    (u8, bool),
    (),
>)
    ensures
        register_outcome(Assembly::TAY, *old(cpu), old(mmu)@).is(r, *final(cpu), final(mmu)@),
        final(mmu)@.follows(old(mmu)@),
{
    proof {
        reveal(register_outcome);
    }
    cpu.y = cpu.a;
    cpu.status.set_zn(cpu.a);
    Ok((2, false))
}

pub fn tsx(cpu: &mut Cpu2A03, mmu: &mut MemoryBus, operend: AddressingMode) -> (r: Result<
    (u8, bool),
    (),
>)
    ensures
        register_outcome(Assembly::TSX, *old(cpu), old(mmu)@).is(r, *final(cpu), final(mmu)@),
        final(mmu)@.follows(old(mmu)@),
{
    proof {
        reveal(register_outcome);
    }
    cpu.x = cpu.sp;
    cpu.status.set_zn(cpu.sp);
    Ok((2, false))
}

pub fn txa(cpu: &mut Cpu2A03, mmu: &mut MemoryBus, operend: AddressingMode) -> (r: Result<
    (u8, bool),
    (),
>)
    ensures
        register_outcome(Assembly::TXA, *old(cpu), old(mmu)@).is(r, *final(cpu), final(mmu)@),
        final(mmu)@.follows(old(mmu)@),
{
    proof {
        reveal(register_outcome);
    }
    cpu.a = cpu.x;
    cpu.status.set_zn(cpu.x);
    Ok((2, false))
}

pub fn txs(cpu: &mut Cpu2A03, mmu: &mut MemoryBus, operend: AddressingMode) -> (r: Result<
    (u8, bool),
    (),
>)
    ensures
        register_outcome(Assembly::TXS, *old(cpu), old(mmu)@).is(r, *final(cpu), final(mmu)@),
        final(mmu)@.follows(old(mmu)@),
{
    proof {
        reveal(register_outcome);
    }
    cpu.sp = cpu.x;
    Ok((2, false))
}

pub fn tya(cpu: &mut Cpu2A03, mmu: &mut MemoryBus, operend: AddressingMode) -> (r: Result<
    (u8, bool),
    (),
>)
    ensures
        register_outcome(Assembly::TYA, *old(cpu), old(mmu)@).is(r, *final(cpu), final(mmu)@),
        final(mmu)@.follows(old(mmu)@),
{
    proof {
        reveal(register_outcome);
    }
    cpu.a = cpu.y;
    cpu.status.set_zn(cpu.y);
    Ok((2, false))
}

/// The routine of every opcode that is not implemented: it always fails and
/// touches nothing.
pub fn udf(cpu: &mut Cpu2A03, mmu: &mut MemoryBus, operend: AddressingMode) -> (r: Result<
    (u8, bool),
    (),
>)
    ensures
        r.is_err(),
        *final(cpu) == *old(cpu),
        final(mmu)@ == old(mmu)@,
{
    Err(())
}

} // verus!
