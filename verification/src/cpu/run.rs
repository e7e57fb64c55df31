use vstd::prelude::*;
use crate::cpu::opcode::{
    adc, and, asl, bcc, bcs, beq, bit, bmi, bne, bpl, branch_outcome, brk, brk_outcome, bvc, bvs,
    clc, cld, cli, clv, cmp, cpx, cpy, dec, dex, dey, effect, eor, inc, inx, iny, jmp,
    jmp_outcome, jsr, jsr_outcome, lda, ldx, ldy, lsr, nop, nop_outcome, ora, pha, pha_outcome,
    php, php_outcome, pla, pla_outcome, plp, plp_outcome, read_outcome, register_outcome, rol,
    ror, rti, rti_outcome, rts, rts_outcome, sbc, sec, sed, sei, shift_outcome, sta,
    step_outcome, store_outcome, stx, sty, supports, taken, tax, tay, tsx, txa, txs, tya, OpCode,
};
use crate::cpu::table::{lookup, opcode_entry};
use crate::cpu::{AddressingMode, Assembly, Cpu2A03, Instruction};
use crate::memory::{BusState, MemoryBus};

verus! {

impl OpCode {
    /// The entry's routine has a case for the entry's mode, so that running
    /// the entry cannot fail.
    pub open spec fn runnable(self) -> bool {
        supports(self.execute, self.mode)
    }

    pub fn new(mnemonic: &'static str, size: u8, mode: AddressingMode, execute: Assembly) -> (r:
        Self)
        ensures
            r == (OpCode { mnemonic, size, mode, execute }),
    {
        Self { mnemonic, size, mode, execute }
    }

    /// The instruction that this entry makes of `opcode` at the program
    /// counter of `cpu`.
    pub fn decode(&self, opcode: u8, cpu: &Cpu2A03) -> (r: Instruction)
        ensures
            r.byte == opcode,
            r.size == self.size,
            r.mnemonic == self.mnemonic,
            r.mode == self.mode,
            r.pc == cpu.pc,
    {
        Instruction::new(opcode, self.size, self.mnemonic, self.mode, cpu.pc)
    }

    /// Tells whether the entry stands for an implemented instruction.
    pub fn is_legal(&self) -> (r: bool)
        ensures
            r == !(self.execute is UDF),
    {
        match self.execute {
            Assembly::UDF => false,
            _ => true,
        }
    }
}

/// Every entry of the opcode table that stands for an implemented
/// instruction can be run.
pub proof fn lemma_table_entries_run(byte: u8)
    ensures
        !(opcode_entry(byte).execute is UDF) ==> opcode_entry(byte).runnable(),
{
    reveal(supports);
}

/// Routine `op` is an addition, a subtraction or a logical operation on the
/// accumulator.
#[verifier::opaque]
pub open spec fn is_arithmetic(op: Assembly) -> bool {
    match op {
        Assembly::ADC | Assembly::AND | Assembly::EOR | Assembly::ORA | Assembly::SBC => true,
        _ => false,
    }
}

/// Routine `op` is a comparison or a bit test.
#[verifier::opaque]
pub open spec fn is_comparison(op: Assembly) -> bool {
    match op {
        Assembly::BIT | Assembly::CMP | Assembly::CPX | Assembly::CPY => true,
        _ => false,
    }
}

/// Routine `op` is a load.
#[verifier::opaque]
pub open spec fn is_load(op: Assembly) -> bool {
    match op {
        Assembly::LDA | Assembly::LDX | Assembly::LDY => true,
        _ => false,
    }
}

/// Routine `op` is the clearing or setting of a flag.
#[verifier::opaque]
pub open spec fn is_flag(op: Assembly) -> bool {
    match op {
        Assembly::CLC | Assembly::CLD | Assembly::CLI | Assembly::CLV
        | Assembly::SEC | Assembly::SED | Assembly::SEI => true,
        _ => false,
    }
}

/// Routine `op` is a step of an index register.
#[verifier::opaque]
pub open spec fn is_index(op: Assembly) -> bool {
    match op {
        Assembly::DEX | Assembly::DEY | Assembly::INX | Assembly::INY => true,
        _ => false,
    }
}

/// Routine `op` is a copy from one register to another.
#[verifier::opaque]
pub open spec fn is_transfer(op: Assembly) -> bool {
    match op {
        Assembly::TAX | Assembly::TAY | Assembly::TSX
        | Assembly::TXA | Assembly::TXS | Assembly::TYA => true,
        _ => false,
    }
}

/// Routine `op` is a branch on the carry or the zero flag.
#[verifier::opaque]
pub open spec fn is_carry_branch(op: Assembly) -> bool {
    match op {
        Assembly::BCC | Assembly::BCS | Assembly::BEQ | Assembly::BNE => true,
        _ => false,
    }
}

/// Routine `op` is a branch on the negative or the overflow flag.
#[verifier::opaque]
pub open spec fn is_sign_branch(op: Assembly) -> bool {
    match op {
        Assembly::BMI | Assembly::BPL | Assembly::BVC | Assembly::BVS => true,
        _ => false,
    }
}

/// Routine `op` is a shift or a rotate.
#[verifier::opaque]
pub open spec fn is_shift(op: Assembly) -> bool {
    match op {
        Assembly::ASL | Assembly::LSR | Assembly::ROL | Assembly::ROR => true,
        _ => false,
    }
}

/// Routine `op` is a store, or a step in memory.
#[verifier::opaque]
pub open spec fn is_store(op: Assembly) -> bool {
    match op {
        Assembly::STA | Assembly::STX | Assembly::STY | Assembly::DEC | Assembly::INC => true,
        _ => false,
    }
}

/// Routine `op` is a jump, a call, a return, a break or a no-operation.
#[verifier::opaque]
pub open spec fn is_flow(op: Assembly) -> bool {
    match op {
        Assembly::BRK | Assembly::JMP | Assembly::JSR
        | Assembly::NOP | Assembly::RTI | Assembly::RTS => true,
        _ => false,
    }
}

/// Routine `op` is a push or a pull.
#[verifier::opaque]
pub open spec fn is_stack(op: Assembly) -> bool {
    match op {
        Assembly::PHA | Assembly::PHP | Assembly::PLA | Assembly::PLP => true,
        _ => false,
    }
}

/// Routine `op` belongs to family `k`. The routines are dealt out to twelve
/// families, numbered from 0.
pub open spec fn in_family(k: int, op: Assembly) -> bool {
    if k == 0 {
        is_arithmetic(op)
    } else if k == 1 {
        is_comparison(op)
    } else if k == 2 {
        is_load(op)
    } else if k == 3 {
        is_flag(op)
    } else if k == 4 {
        is_index(op)
    } else if k == 5 {
        is_transfer(op)
    } else if k == 6 {
        is_carry_branch(op)
    } else if k == 7 {
        is_sign_branch(op)
    } else if k == 8 {
        is_shift(op)
    } else if k == 9 {
        is_store(op)
    } else if k == 10 {
        is_flow(op)
    } else if k == 11 {
        is_stack(op)
    } else {
        false
    }
}

/// Tells which family a routine belongs to; 12 stands for a name that has
/// no routine.
pub fn family(op: Assembly, mode: AddressingMode) -> (r: u8)
    ensures
        r <= 12,
        r < 12 ==> in_family(r as int, op),
        r == 12 ==> !supports(op, mode),
{
    proof {
        reveal(supports);
        reveal(is_arithmetic);
        reveal(is_comparison);
        reveal(is_load);
        reveal(is_flag);
        reveal(is_index);
        reveal(is_transfer);
        reveal(is_carry_branch);
        reveal(is_sign_branch);
        reveal(is_shift);
        reveal(is_store);
        reveal(is_flow);
        reveal(is_stack);
    }
    match op {
        Assembly::ADC | Assembly::AND | Assembly::EOR | Assembly::ORA | Assembly::SBC => 0,
        Assembly::BIT | Assembly::CMP | Assembly::CPX | Assembly::CPY => 1,
        Assembly::LDA | Assembly::LDX | Assembly::LDY => 2,
        Assembly::CLC | Assembly::CLD | Assembly::CLI | Assembly::CLV | Assembly::SEC | Assembly::SED | Assembly::SEI => 3,
        Assembly::DEX | Assembly::DEY | Assembly::INX | Assembly::INY => 4,
        Assembly::TAX | Assembly::TAY | Assembly::TSX | Assembly::TXA | Assembly::TXS | Assembly::TYA => 5,
        Assembly::BCC | Assembly::BCS | Assembly::BEQ | Assembly::BNE => 6,
        Assembly::BMI | Assembly::BPL | Assembly::BVC | Assembly::BVS => 7,
        Assembly::ASL | Assembly::LSR | Assembly::ROL | Assembly::ROR => 8,
        Assembly::STA | Assembly::STX | Assembly::STY | Assembly::DEC | Assembly::INC => 9,
        Assembly::BRK | Assembly::JMP | Assembly::JSR | Assembly::NOP | Assembly::RTI | Assembly::RTS => 10,
        Assembly::PHA | Assembly::PHP | Assembly::PLA | Assembly::PLP => 11,
        _ => 12,
    }
}

/// What an addition, a subtraction or a logical operation on the
/// accumulator comes to is what its own routine comes to.
proof fn lemma_arithmetic(op: Assembly, cpu: Cpu2A03, bus: BusState, mode: AddressingMode)
    requires
        is_arithmetic(op),
    ensures
        effect(op, cpu, bus, mode) == match op {
            Assembly::ADC => read_outcome(op, cpu, bus, mode),
            Assembly::AND => read_outcome(op, cpu, bus, mode),
            Assembly::EOR => read_outcome(op, cpu, bus, mode),
            Assembly::ORA => read_outcome(op, cpu, bus, mode),
            _ => read_outcome(op, cpu, bus, mode),
        },
        op is ADC ==> supports(op, mode) == supports(Assembly::ADC, mode),
        op is AND ==> supports(op, mode) == supports(Assembly::AND, mode),
        op is EOR ==> supports(op, mode) == supports(Assembly::EOR, mode),
        op is ORA ==> supports(op, mode) == supports(Assembly::ORA, mode),
        op is SBC ==> supports(op, mode) == supports(Assembly::SBC, mode),
{
    reveal(is_arithmetic);
    reveal(effect);
}

/// Runs an addition, a subtraction or a logical operation on the
/// accumulator.
fn run_arithmetic(cpu: &mut Cpu2A03, mmu: &mut MemoryBus, op: Assembly, mode: AddressingMode) -> (r:
    Result<(u8, bool), ()>)
    requires
        is_arithmetic(op),
        supports(op, mode),
    ensures
        effect(op, *old(cpu), old(mmu)@, mode).is(r, *final(cpu), final(mmu)@),
        final(mmu)@.follows(old(mmu)@),
{
    proof {
        lemma_arithmetic(op, *cpu, mmu@, mode);
    }
    match op {
        Assembly::ADC => adc(cpu, mmu, mode),
        Assembly::AND => and(cpu, mmu, mode),
        Assembly::EOR => eor(cpu, mmu, mode),
        Assembly::ORA => ora(cpu, mmu, mode),
        _ => {
            proof {
                reveal(is_arithmetic);
            }
            sbc(cpu, mmu, mode)
        },
    }
}

/// What a comparison or a bit test comes to is what its own routine comes
/// to.
proof fn lemma_comparison(op: Assembly, cpu: Cpu2A03, bus: BusState, mode: AddressingMode)
    requires
        is_comparison(op),
    ensures
        effect(op, cpu, bus, mode) == match op {
            Assembly::BIT => read_outcome(op, cpu, bus, mode),
            Assembly::CMP => read_outcome(op, cpu, bus, mode),
            Assembly::CPX => read_outcome(op, cpu, bus, mode),
            _ => read_outcome(op, cpu, bus, mode),
        },
        op is BIT ==> supports(op, mode) == supports(Assembly::BIT, mode),
        op is CMP ==> supports(op, mode) == supports(Assembly::CMP, mode),
        op is CPX ==> supports(op, mode) == supports(Assembly::CPX, mode),
        op is CPY ==> supports(op, mode) == supports(Assembly::CPY, mode),
{
    reveal(is_comparison);
    reveal(effect);
}

/// Runs a comparison or a bit test.
fn run_comparison(cpu: &mut Cpu2A03, mmu: &mut MemoryBus, op: Assembly, mode: AddressingMode) -> (r:
    Result<(u8, bool), ()>)
    requires
        is_comparison(op),
        supports(op, mode),
    ensures
        effect(op, *old(cpu), old(mmu)@, mode).is(r, *final(cpu), final(mmu)@),
        final(mmu)@.follows(old(mmu)@),
{
    proof {
        lemma_comparison(op, *cpu, mmu@, mode);
    }
    match op {
        Assembly::BIT => bit(cpu, mmu, mode),
        Assembly::CMP => cmp(cpu, mmu, mode),
        Assembly::CPX => cpx(cpu, mmu, mode),
        _ => {
            proof {
                reveal(is_comparison);
            }
            cpy(cpu, mmu, mode)
        },
    }
}

/// What a load comes to is what its own routine comes to.
proof fn lemma_load(op: Assembly, cpu: Cpu2A03, bus: BusState, mode: AddressingMode)
    requires
        is_load(op),
    ensures
        effect(op, cpu, bus, mode) == match op {
            Assembly::LDA => read_outcome(op, cpu, bus, mode),
            Assembly::LDX => read_outcome(op, cpu, bus, mode),
            _ => read_outcome(op, cpu, bus, mode),
        },
        op is LDA ==> supports(op, mode) == supports(Assembly::LDA, mode),
        op is LDX ==> supports(op, mode) == supports(Assembly::LDX, mode),
        op is LDY ==> supports(op, mode) == supports(Assembly::LDY, mode),
{
    reveal(is_load);
    reveal(effect);
}

/// Runs a load.
fn run_load(cpu: &mut Cpu2A03, mmu: &mut MemoryBus, op: Assembly, mode: AddressingMode) -> (r:
    Result<(u8, bool), ()>)
    requires
        is_load(op),
        supports(op, mode),
    ensures
        effect(op, *old(cpu), old(mmu)@, mode).is(r, *final(cpu), final(mmu)@),
        final(mmu)@.follows(old(mmu)@),
{
    proof {
        lemma_load(op, *cpu, mmu@, mode);
    }
    match op {
        Assembly::LDA => lda(cpu, mmu, mode),
        Assembly::LDX => ldx(cpu, mmu, mode),
        _ => {
            proof {
                reveal(is_load);
            }
            ldy(cpu, mmu, mode)
        },
    }
}

/// What the clearing or setting of a flag comes to is what its own routine
/// comes to.
proof fn lemma_flag(op: Assembly, cpu: Cpu2A03, bus: BusState, mode: AddressingMode)
    requires
        is_flag(op),
    ensures
        effect(op, cpu, bus, mode) == match op {
            Assembly::CLC => register_outcome(op, cpu, bus),
            Assembly::CLD => register_outcome(op, cpu, bus),
            Assembly::CLI => register_outcome(op, cpu, bus),
            Assembly::CLV => register_outcome(op, cpu, bus),
            Assembly::SEC => register_outcome(op, cpu, bus),
            Assembly::SED => register_outcome(op, cpu, bus),
            _ => register_outcome(op, cpu, bus),
        },
        op is CLC ==> supports(op, mode) == supports(Assembly::CLC, mode),
        op is CLD ==> supports(op, mode) == supports(Assembly::CLD, mode),
        op is CLI ==> supports(op, mode) == supports(Assembly::CLI, mode),
        op is CLV ==> supports(op, mode) == supports(Assembly::CLV, mode),
        op is SEC ==> supports(op, mode) == supports(Assembly::SEC, mode),
        op is SED ==> supports(op, mode) == supports(Assembly::SED, mode),
        op is SEI ==> supports(op, mode) == supports(Assembly::SEI, mode),
{
    reveal(is_flag);
    reveal(effect);
}

/// Runs the clearing or setting of a flag.
fn run_flag(cpu: &mut Cpu2A03, mmu: &mut MemoryBus, op: Assembly, mode: AddressingMode) -> (r:
    Result<(u8, bool), ()>)
    requires
        is_flag(op),
        supports(op, mode),
    ensures
        effect(op, *old(cpu), old(mmu)@, mode).is(r, *final(cpu), final(mmu)@),
        final(mmu)@.follows(old(mmu)@),
{
    proof {
        lemma_flag(op, *cpu, mmu@, mode);
    }
    match op {
        Assembly::CLC => clc(cpu, mmu, mode),
        Assembly::CLD => cld(cpu, mmu, mode),
        Assembly::CLI => cli(cpu, mmu, mode),
        Assembly::CLV => clv(cpu, mmu, mode),
        Assembly::SEC => sec(cpu, mmu, mode),
        Assembly::SED => sed(cpu, mmu, mode),
        _ => {
            proof {
                reveal(is_flag);
            }
            sei(cpu, mmu, mode)
        },
    }
}

/// What a step of an index register comes to is what its own routine comes
/// to.
proof fn lemma_index(op: Assembly, cpu: Cpu2A03, bus: BusState, mode: AddressingMode)
    requires
        is_index(op),
    ensures
        effect(op, cpu, bus, mode) == match op {
            Assembly::DEX => register_outcome(op, cpu, bus),
            Assembly::DEY => register_outcome(op, cpu, bus),
            Assembly::INX => register_outcome(op, cpu, bus),
            _ => register_outcome(op, cpu, bus),
        },
        op is DEX ==> supports(op, mode) == supports(Assembly::DEX, mode),
        op is DEY ==> supports(op, mode) == supports(Assembly::DEY, mode),
        op is INX ==> supports(op, mode) == supports(Assembly::INX, mode),
        op is INY ==> supports(op, mode) == supports(Assembly::INY, mode),
{
    reveal(is_index);
    reveal(effect);
}

/// Runs a step of an index register.
fn run_index(cpu: &mut Cpu2A03, mmu: &mut MemoryBus, op: Assembly, mode: AddressingMode) -> (r:
    Result<(u8, bool), ()>)
    requires
        is_index(op),
        supports(op, mode),
    ensures
        effect(op, *old(cpu), old(mmu)@, mode).is(r, *final(cpu), final(mmu)@),
        final(mmu)@.follows(old(mmu)@),
{
    proof {
        lemma_index(op, *cpu, mmu@, mode);
    }
    match op {
        Assembly::DEX => dex(cpu, mmu, mode),
        Assembly::DEY => dey(cpu, mmu, mode),
        Assembly::INX => inx(cpu, mmu, mode),
        _ => {
            proof {
                reveal(is_index);
            }
            iny(cpu, mmu, mode)
        },
    }
}

/// What a copy from one register to another comes to is what its own
/// routine comes to.
proof fn lemma_transfer(op: Assembly, cpu: Cpu2A03, bus: BusState, mode: AddressingMode)
    requires
        is_transfer(op),
    ensures
        effect(op, cpu, bus, mode) == match op {
            Assembly::TAX => register_outcome(op, cpu, bus),
            Assembly::TAY => register_outcome(op, cpu, bus),
            Assembly::TSX => register_outcome(op, cpu, bus),
            Assembly::TXA => register_outcome(op, cpu, bus),
            Assembly::TXS => register_outcome(op, cpu, bus),
            _ => register_outcome(op, cpu, bus),
        },
        op is TAX ==> supports(op, mode) == supports(Assembly::TAX, mode),
        op is TAY ==> supports(op, mode) == supports(Assembly::TAY, mode),
        op is TSX ==> supports(op, mode) == supports(Assembly::TSX, mode),
        op is TXA ==> supports(op, mode) == supports(Assembly::TXA, mode),
        op is TXS ==> supports(op, mode) == supports(Assembly::TXS, mode),
        op is TYA ==> supports(op, mode) == supports(Assembly::TYA, mode),
{
    reveal(is_transfer);
    reveal(effect);
}

/// Runs a copy from one register to another.
fn run_transfer(cpu: &mut Cpu2A03, mmu: &mut MemoryBus, op: Assembly, mode: AddressingMode) -> (r:
    Result<(u8, bool), ()>)
    requires
        is_transfer(op),
        supports(op, mode),
    ensures
        effect(op, *old(cpu), old(mmu)@, mode).is(r, *final(cpu), final(mmu)@),
        final(mmu)@.follows(old(mmu)@),
{
    proof {
        lemma_transfer(op, *cpu, mmu@, mode);
    }
    match op {
        Assembly::TAX => tax(cpu, mmu, mode),
        Assembly::TAY => tay(cpu, mmu, mode),
        Assembly::TSX => tsx(cpu, mmu, mode),
        Assembly::TXA => txa(cpu, mmu, mode),
        Assembly::TXS => txs(cpu, mmu, mode),
        _ => {
            proof {
                reveal(is_transfer);
            }
            tya(cpu, mmu, mode)
        },
    }
}

/// What a branch on the carry or the zero flag comes to is what its own
/// routine comes to.
proof fn lemma_carry_branch(op: Assembly, cpu: Cpu2A03, bus: BusState, mode: AddressingMode)
    requires
        is_carry_branch(op),
    ensures
        effect(op, cpu, bus, mode) == match op {
            Assembly::BCC => branch_outcome(cpu, bus, mode, taken(op, cpu.status)),
            Assembly::BCS => branch_outcome(cpu, bus, mode, taken(op, cpu.status)),
            Assembly::BEQ => branch_outcome(cpu, bus, mode, taken(op, cpu.status)),
            _ => branch_outcome(cpu, bus, mode, taken(op, cpu.status)),
        },
        op is BCC ==> supports(op, mode) == supports(Assembly::BCC, mode),
        op is BCS ==> supports(op, mode) == supports(Assembly::BCS, mode),
        op is BEQ ==> supports(op, mode) == supports(Assembly::BEQ, mode),
        op is BNE ==> supports(op, mode) == supports(Assembly::BNE, mode),
        supports(op, mode) ==> !(mode is NoneAddressing),
{
    reveal(is_carry_branch);
    reveal(effect);
    reveal(supports);
}

/// Runs a branch on the carry or the zero flag.
fn run_carry_branch(cpu: &mut Cpu2A03, mmu: &mut MemoryBus, op: Assembly, mode: AddressingMode) -> (r:
    Result<(u8, bool), ()>)
    requires
        is_carry_branch(op),
        supports(op, mode),
    ensures
        effect(op, *old(cpu), old(mmu)@, mode).is(r, *final(cpu), final(mmu)@),
        final(mmu)@.follows(old(mmu)@),
{
    proof {
        lemma_carry_branch(op, *cpu, mmu@, mode);
    }
    match op {
        Assembly::BCC => bcc(cpu, mmu, mode),
        Assembly::BCS => bcs(cpu, mmu, mode),
        Assembly::BEQ => beq(cpu, mmu, mode),
        _ => {
            proof {
                reveal(is_carry_branch);
            }
            bne(cpu, mmu, mode)
        },
    }
}

/// What a branch on the negative or the overflow flag comes to is what its
/// own routine comes to.
proof fn lemma_sign_branch(op: Assembly, cpu: Cpu2A03, bus: BusState, mode: AddressingMode)
    requires
        is_sign_branch(op),
    ensures
        effect(op, cpu, bus, mode) == match op {
            Assembly::BMI => branch_outcome(cpu, bus, mode, taken(op, cpu.status)),
            Assembly::BPL => branch_outcome(cpu, bus, mode, taken(op, cpu.status)),
            Assembly::BVC => branch_outcome(cpu, bus, mode, taken(op, cpu.status)),
            _ => branch_outcome(cpu, bus, mode, taken(op, cpu.status)),
        },
        op is BMI ==> supports(op, mode) == supports(Assembly::BMI, mode),
        op is BPL ==> supports(op, mode) == supports(Assembly::BPL, mode),
        op is BVC ==> supports(op, mode) == supports(Assembly::BVC, mode),
        op is BVS ==> supports(op, mode) == supports(Assembly::BVS, mode),
        supports(op, mode) ==> !(mode is NoneAddressing),
{
    reveal(is_sign_branch);
    reveal(effect);
    reveal(supports);
}

/// Runs a branch on the negative or the overflow flag.
fn run_sign_branch(cpu: &mut Cpu2A03, mmu: &mut MemoryBus, op: Assembly, mode: AddressingMode) -> (r:
    Result<(u8, bool), ()>)
    requires
        is_sign_branch(op),
        supports(op, mode),
    ensures
        effect(op, *old(cpu), old(mmu)@, mode).is(r, *final(cpu), final(mmu)@),
        final(mmu)@.follows(old(mmu)@),
{
    proof {
        lemma_sign_branch(op, *cpu, mmu@, mode);
    }
    match op {
        Assembly::BMI => bmi(cpu, mmu, mode),
        Assembly::BPL => bpl(cpu, mmu, mode),
        Assembly::BVC => bvc(cpu, mmu, mode),
        _ => {
            proof {
                reveal(is_sign_branch);
            }
            bvs(cpu, mmu, mode)
        },
    }
}

/// What a shift or a rotate comes to is what its own routine comes to.
proof fn lemma_shift(op: Assembly, cpu: Cpu2A03, bus: BusState, mode: AddressingMode)
    requires
        is_shift(op),
    ensures
        effect(op, cpu, bus, mode) == match op {
            Assembly::ASL => shift_outcome(op, cpu, bus, mode),
            Assembly::LSR => shift_outcome(op, cpu, bus, mode),
            Assembly::ROL => shift_outcome(op, cpu, bus, mode),
            _ => shift_outcome(op, cpu, bus, mode),
        },
        op is ASL ==> supports(op, mode) == supports(Assembly::ASL, mode),
        op is LSR ==> supports(op, mode) == supports(Assembly::LSR, mode),
        op is ROL ==> supports(op, mode) == supports(Assembly::ROL, mode),
        op is ROR ==> supports(op, mode) == supports(Assembly::ROR, mode),
{
    reveal(is_shift);
    reveal(effect);
}

/// Runs a shift or a rotate.
fn run_shift(cpu: &mut Cpu2A03, mmu: &mut MemoryBus, op: Assembly, mode: AddressingMode) -> (r:
    Result<(u8, bool), ()>)
    requires
        is_shift(op),
        supports(op, mode),
    ensures
        effect(op, *old(cpu), old(mmu)@, mode).is(r, *final(cpu), final(mmu)@),
        final(mmu)@.follows(old(mmu)@),
{
    proof {
        lemma_shift(op, *cpu, mmu@, mode);
    }
    match op {
        Assembly::ASL => asl(cpu, mmu, mode),
        Assembly::LSR => lsr(cpu, mmu, mode),
        Assembly::ROL => rol(cpu, mmu, mode),
        _ => {
            proof {
                reveal(is_shift);
            }
            ror(cpu, mmu, mode)
        },
    }
}

/// What a store, or a step in memory comes to is what its own routine comes
/// to.
proof fn lemma_store(op: Assembly, cpu: Cpu2A03, bus: BusState, mode: AddressingMode)
    requires
        is_store(op),
    ensures
        effect(op, cpu, bus, mode) == match op {
            Assembly::STA => store_outcome(op, cpu, bus, mode),
            Assembly::STX => store_outcome(op, cpu, bus, mode),
            Assembly::STY => store_outcome(op, cpu, bus, mode),
            Assembly::DEC => step_outcome(cpu, bus, mode, 255),
            _ => step_outcome(cpu, bus, mode, 1),
        },
        op is STA ==> supports(op, mode) == supports(Assembly::STA, mode),
        op is STX ==> supports(op, mode) == supports(Assembly::STX, mode),
        op is STY ==> supports(op, mode) == supports(Assembly::STY, mode),
        op is DEC ==> supports(op, mode) == supports(Assembly::DEC, mode),
        op is INC ==> supports(op, mode) == supports(Assembly::INC, mode),
{
    reveal(is_store);
    reveal(effect);
}

/// Runs a store, or a step in memory.
fn run_store(cpu: &mut Cpu2A03, mmu: &mut MemoryBus, op: Assembly, mode: AddressingMode) -> (r:
    Result<(u8, bool), ()>)
    requires
        is_store(op),
        supports(op, mode),
    ensures
        effect(op, *old(cpu), old(mmu)@, mode).is(r, *final(cpu), final(mmu)@),
        final(mmu)@.follows(old(mmu)@),
{
    proof {
        lemma_store(op, *cpu, mmu@, mode);
    }
    match op {
        Assembly::STA => sta(cpu, mmu, mode),
        Assembly::STX => stx(cpu, mmu, mode),
        Assembly::STY => sty(cpu, mmu, mode),
        Assembly::DEC => dec(cpu, mmu, mode),
        _ => {
            proof {
                reveal(is_store);
            }
            inc(cpu, mmu, mode)
        },
    }
}

/// What a jump, a call, a return, a break or a no-operation comes to is
/// what its own routine comes to.
proof fn lemma_flow(op: Assembly, cpu: Cpu2A03, bus: BusState, mode: AddressingMode)
    requires
        is_flow(op),
    ensures
        effect(op, cpu, bus, mode) == match op {
            Assembly::BRK => brk_outcome(cpu, bus),
            Assembly::JMP => jmp_outcome(cpu, bus, mode),
            Assembly::JSR => jsr_outcome(cpu, bus, mode),
            Assembly::NOP => nop_outcome(cpu, bus, mode),
            Assembly::RTI => rti_outcome(cpu, bus),
            _ => rts_outcome(cpu, bus),
        },
        op is BRK ==> supports(op, mode) == supports(Assembly::BRK, mode),
        op is JMP ==> supports(op, mode) == supports(Assembly::JMP, mode),
        op is JSR ==> supports(op, mode) == supports(Assembly::JSR, mode),
        op is NOP ==> supports(op, mode) == supports(Assembly::NOP, mode),
        op is RTI ==> supports(op, mode) == supports(Assembly::RTI, mode),
        op is RTS ==> supports(op, mode) == supports(Assembly::RTS, mode),
{
    reveal(is_flow);
    reveal(effect);
}

/// Runs a jump, a call, a return, a break or a no-operation.
fn run_flow(cpu: &mut Cpu2A03, mmu: &mut MemoryBus, op: Assembly, mode: AddressingMode) -> (r:
    Result<(u8, bool), ()>)
    requires
        is_flow(op),
        supports(op, mode),
    ensures
        effect(op, *old(cpu), old(mmu)@, mode).is(r, *final(cpu), final(mmu)@),
        final(mmu)@.follows(old(mmu)@),
{
    proof {
        lemma_flow(op, *cpu, mmu@, mode);
    }
    match op {
        Assembly::BRK => brk(cpu, mmu, mode),
        Assembly::JMP => jmp(cpu, mmu, mode),
        Assembly::JSR => jsr(cpu, mmu, mode),
        Assembly::NOP => nop(cpu, mmu, mode),
        Assembly::RTI => rti(cpu, mmu, mode),
        _ => {
            proof {
                reveal(is_flow);
            }
            rts(cpu, mmu, mode)
        },
    }
}

/// What a push or a pull comes to is what its own routine comes to.
proof fn lemma_stack(op: Assembly, cpu: Cpu2A03, bus: BusState, mode: AddressingMode)
    requires
        is_stack(op),
    ensures
        effect(op, cpu, bus, mode) == match op {
            Assembly::PHA => pha_outcome(cpu, bus),
            Assembly::PHP => php_outcome(cpu, bus),
            Assembly::PLA => pla_outcome(cpu, bus),
            _ => plp_outcome(cpu, bus),
        },
        op is PHA ==> supports(op, mode) == supports(Assembly::PHA, mode),
        op is PHP ==> supports(op, mode) == supports(Assembly::PHP, mode),
        op is PLA ==> supports(op, mode) == supports(Assembly::PLA, mode),
        op is PLP ==> supports(op, mode) == supports(Assembly::PLP, mode),
{
    reveal(is_stack);
    reveal(effect);
}

/// Runs a push or a pull.
fn run_stack(cpu: &mut Cpu2A03, mmu: &mut MemoryBus, op: Assembly, mode: AddressingMode) -> (r:
    Result<(u8, bool), ()>)
    requires
        is_stack(op),
        supports(op, mode),
    ensures
        effect(op, *old(cpu), old(mmu)@, mode).is(r, *final(cpu), final(mmu)@),
        final(mmu)@.follows(old(mmu)@),
{
    proof {
        lemma_stack(op, *cpu, mmu@, mode);
    }
    match op {
        Assembly::PHA => pha(cpu, mmu, mode),
        Assembly::PHP => php(cpu, mmu, mode),
        Assembly::PLA => pla(cpu, mmu, mode),
        _ => {
            proof {
                reveal(is_stack);
            }
            plp(cpu, mmu, mode)
        },
    }
}

/// Runs a routine of one of the first four families.
fn run_low(cpu: &mut Cpu2A03, mmu: &mut MemoryBus, op: Assembly, mode: AddressingMode, kind: u8) -> (r:
    Result<(u8, bool), ()>)
    requires
        in_family(kind as int, op),
        kind < 4,
        supports(op, mode),
    ensures
        effect(op, *old(cpu), old(mmu)@, mode).is(r, *final(cpu), final(mmu)@),
        final(mmu)@.follows(old(mmu)@),
{
    if kind == 0 {
        run_arithmetic(cpu, mmu, op, mode)
    } else if kind == 1 {
        run_comparison(cpu, mmu, op, mode)
    } else if kind == 2 {
        run_load(cpu, mmu, op, mode)
    } else {
        run_flag(cpu, mmu, op, mode)
    }
}

/// Runs a routine of one of the next four families.
fn run_middle(cpu: &mut Cpu2A03, mmu: &mut MemoryBus, op: Assembly, mode: AddressingMode, kind: u8) -> (r:
    Result<(u8, bool), ()>)
    requires
        in_family(kind as int, op),
        4 <= kind < 8,
        supports(op, mode),
    ensures
        effect(op, *old(cpu), old(mmu)@, mode).is(r, *final(cpu), final(mmu)@),
        final(mmu)@.follows(old(mmu)@),
{
    if kind == 4 {
        run_index(cpu, mmu, op, mode)
    } else if kind == 5 {
        run_transfer(cpu, mmu, op, mode)
    } else if kind == 6 {
        run_carry_branch(cpu, mmu, op, mode)
    } else {
        run_sign_branch(cpu, mmu, op, mode)
    }
}

/// Runs a routine of one of the last four families.
fn run_high(cpu: &mut Cpu2A03, mmu: &mut MemoryBus, op: Assembly, mode: AddressingMode, kind: u8) -> (r:
    Result<(u8, bool), ()>)
    requires
        in_family(kind as int, op),
        8 <= kind < 12,
        supports(op, mode),
    ensures
        effect(op, *old(cpu), old(mmu)@, mode).is(r, *final(cpu), final(mmu)@),
        final(mmu)@.follows(old(mmu)@),
{
    if kind == 8 {
        run_shift(cpu, mmu, op, mode)
    } else if kind == 9 {
        run_store(cpu, mmu, op, mode)
    } else if kind == 10 {
        run_flow(cpu, mmu, op, mode)
    } else {
        run_stack(cpu, mmu, op, mode)
    }
}

impl Cpu2A03 {
    /// The cycles that running `instruction` costs, and the processor and
    /// the bus after it. An instruction that did not set the program
    /// counter itself leaves it moved on by the instruction's length.
    pub open spec fn executed(self, bus: BusState, instruction: OpCode) -> (u8, Cpu2A03, BusState) {
        let outcome = effect(instruction.execute, self, bus, instruction.mode);
        (
            outcome.cycles,
            if outcome.branched {
                outcome.cpu
            } else {
                Cpu2A03 {
                    pc: crate::cpu::offset_address(outcome.cpu.pc, instruction.size as int),
                    ..outcome.cpu
                }
            },
            outcome.bus,
        )
    }

    /// Looks `opcode` up in the opcode table.
    pub fn decode(&self, opcode: u8) -> (r: OpCode)
        ensures
            r == opcode_entry(opcode),
            !(r.execute is UDF) ==> r.runnable(),
    {
        proof {
            lemma_table_entries_run(opcode);
        }
        lookup(opcode)
    }

    /// Runs `instruction` and returns the cycles that it cost.
    pub fn execute(&mut self, mmu: &mut MemoryBus, instruction: OpCode) -> (elapsed_cycle: u8)
        requires
            instruction.runnable(),
        ensures
            (elapsed_cycle, *final(self), final(mmu)@) == old(self).executed(old(mmu)@, instruction),
            final(mmu)@.follows(old(mmu)@),
    {
        let op = instruction.execute;
        let kind = family(op, instruction.mode);
        let result = if kind < 4 {
            run_low(self, mmu, op, instruction.mode, kind)
        } else if kind < 8 {
            run_middle(self, mmu, op, instruction.mode, kind)
        } else {
            run_high(self, mmu, op, instruction.mode, kind)
        };
        match result {
            Ok((elapsed_cycle, is_branched)) => {
                if !is_branched {
                    self.pc = crate::cpu::moved(self.pc, instruction.size as u16);
                }
                elapsed_cycle
            },
            Err(_) => 0,
        }
    }
}

} // verus!
