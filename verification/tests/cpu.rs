use rustynes::cpu::opcode::{adc, bcc, beq, bne, brk, jmp, lda, nop, sbc, sta, udf};
use rustynes::cpu::{page_cross, AddressingMode, Assembly, Cpu2A03, Status};
use rustynes::memory::{Bus, MemoryBus};

fn load(mmu: &mut MemoryBus, at: u16, program: &[u8]) {
    for (idx, &value) in program.iter().enumerate() {
        mmu.write_byte(at.wrapping_add(idx as u16), value);
    }
}

fn run(cpu: &mut Cpu2A03, mmu: &mut MemoryBus, steps: usize) -> Vec<u8> {
    let mut cycles = Vec::new();
    for _ in 0..steps {
        let opcode = cpu.fetch(mmu);
        let instruction = cpu.decode(opcode);
        assert!(instruction.is_legal());
        cycles.push(cpu.execute(mmu, instruction));
    }
    cycles
}

#[test]
fn test_0xa9_lda_immediate_load_data() {
    let mut mmu = MemoryBus::new();
    let mut cpu = Cpu2A03::new();
    cpu.pc = 0;
    for (idx, &value) in [0xa9, 0x05, 0x00].iter().enumerate() {
        mmu.write_byte(idx as u16, value as u8);
    }

    let opcode = cpu.fetch(&mut mmu);
    let instruction = cpu.decode(opcode);
    cpu.execute(&mut mmu, instruction);
    assert_eq!(cpu.a, 5);
    assert!(cpu.status.bits() & 0b0000_0010 == 0b00);
    assert!(cpu.status.bits() & 0b1000_0000 == 0);
}

#[test]
fn test_0xaa_tax_move_a_to_x() {
    let mut mmu = MemoryBus::new();
    let mut cpu = Cpu2A03::new();
    cpu.pc = 0;
    cpu.a = 10;
    for (idx, &value) in [0xaa].iter().enumerate() {
        mmu.write_byte(idx as u16, value as u8);
    }

    let opcode = cpu.fetch(&mut mmu);
    let instruction = cpu.decode(opcode);
    cpu.execute(&mut mmu, instruction);
    assert_eq!(cpu.x, 10);
}

#[test]
fn test_4_ops_working_together() {
    let mut mmu = MemoryBus::new();
    let mut cpu = Cpu2A03::new();
    cpu.pc = 0;
    for (idx, &value) in [0xa9, 0xc0, 0xaa, 0xe8].iter().enumerate() {
        mmu.write_byte(idx as u16, value as u8);
    }

    for _ in 0..3 {
        let opcode = cpu.fetch(&mut mmu);
        let instruction = cpu.decode(opcode);
        cpu.execute(&mut mmu, instruction);
    }
    assert_eq!(cpu.x, 0xc1);
}

#[test]
fn test_inx_overflow() {
    let mut mmu = MemoryBus::new();
    let mut cpu = Cpu2A03::new();
    cpu.pc = 0;
    cpu.x = 0xFF;
    for (idx, &value) in [0xe8, 0xe8].iter().enumerate() {
        mmu.write_byte(idx as u16, value as u8);
    }

    for _ in 0..2 {
        let opcode = cpu.fetch(&mut mmu);
        let instruction = cpu.decode(opcode);
        cpu.execute(&mut mmu, instruction);
    }
    assert_eq!(cpu.x, 1);
}

#[test]
fn test_lda_from_memory() {
    let mut mmu = MemoryBus::new();
    let mut cpu = Cpu2A03::new();
    cpu.pc = 0;
    for (idx, &value) in [0xa5, 0x10].iter().enumerate() {
        mmu.write_byte(idx as u16, value as u8);
    }
    mmu.write_byte(0x10, 0x55);

    let opcode = cpu.fetch(&mut mmu);
    let instruction = cpu.decode(opcode);
    cpu.execute(&mut mmu, instruction);
    assert_eq!(cpu.a, 0x55);
}

#[test]
fn test_push_pop_ops() {
    let mut mmu = MemoryBus::new();
    let mut cpu = Cpu2A03::new();
    cpu.pc = 0;
    cpu.a = 20;
    cpu.sp = 0x80;
    for (idx, &value) in [0x48, 0xA9, 0x30, 0x68].iter().enumerate() {
        mmu.write_byte(idx as u16, value as u8);
    }

    for _ in 0..3 {
        let opcode = cpu.fetch(&mut mmu);
        let instruction = cpu.decode(opcode);
        cpu.execute(&mut mmu, instruction);
    }
    assert_eq!(cpu.a, 20);
    assert_eq!(cpu.sp, 0x80);
}

#[test]
fn test_jsr_rts_ops() {
    let mut mmu = MemoryBus::new();
    let mut cpu = Cpu2A03::new();
    cpu.pc = 0;
    cpu.sp = 0x80;
    for (idx, &value) in [0x20, 0x07, 0x00, 0xEA, 0xEA, 0xEA, 0xEA, 0xEA, 0x60]
        .iter()
        .enumerate()
    {
        mmu.write_byte(idx as u16, value as u8);
    }

    for _ in 0..3 {
        let opcode = cpu.fetch(&mut mmu);
        let instruction = cpu.decode(opcode);
        cpu.execute(&mut mmu, instruction);
    }
    assert_eq!(cpu.pc, 3);
}

#[test]
fn reset_state_and_vector() {
    let mut mmu = MemoryBus::new();
    mmu.write_byte(0xFFFC, 0x34);
    mmu.write_byte(0xFFFD, 0x12);
    let mut cpu = Cpu2A03::new();
    cpu.a = 9;
    cpu.x = 9;
    cpu.y = 9;
    cpu.sp = 1;
    cpu.status = Status::from_bits_truncate(0xFF);
    cpu.reset(&mut mmu);
    assert_eq!((cpu.a, cpu.x, cpu.y), (0, 0, 0));
    assert_eq!(cpu.sp, 0xFD);
    assert_eq!(cpu.status.bits(), 0x24);
    assert_eq!(cpu.pc, 0x1234);
}

#[test]
fn lda_then_brk_scenario() {
    // LDA #$05 ; BRK, entered through the reset vector.
    let mut mmu = MemoryBus::new();
    load(&mut mmu, 0x0600, &[0xA9, 0x05, 0x00]);
    mmu.write_word(0xFFFC, 0x0600);
    let mut cpu = Cpu2A03::new();
    cpu.reset(&mut mmu);
    let cycles = run(&mut cpu, &mut mmu, 1);
    assert_eq!(cycles, vec![2]);
    assert_eq!(cpu.a, 5);
    assert!(!cpu.status.contains(Status::ZERO));
    assert!(!cpu.status.contains(Status::NEG));
    assert_eq!(cpu.pc, 0x0602);
}

#[test]
fn lda_tax_inx_sets_negative() {
    let mut mmu = MemoryBus::new();
    load(&mut mmu, 0, &[0xA9, 0xC0, 0xAA, 0xE8]);
    let mut cpu = Cpu2A03::new();
    run(&mut cpu, &mut mmu, 3);
    assert_eq!(cpu.x, 0xC1);
    assert!(cpu.status.contains(Status::NEG));
    assert!(!cpu.status.contains(Status::ZERO));
}

#[test]
fn ldx_ff_inx_inx_wraps_to_one() {
    let mut mmu = MemoryBus::new();
    load(&mut mmu, 0, &[0xA2, 0xFF, 0xE8, 0xE8]);
    let mut cpu = Cpu2A03::new();
    run(&mut cpu, &mut mmu, 2);
    assert_eq!(cpu.x, 0);
    assert!(cpu.status.contains(Status::ZERO));
    run(&mut cpu, &mut mmu, 1);
    assert_eq!(cpu.x, 1);
    assert!(!cpu.status.contains(Status::ZERO));
}

#[test]
fn effective_addresses_by_mode() {
    let mut mmu = MemoryBus::new();
    let mut cpu = Cpu2A03::new();
    cpu.pc = 0x0200;
    cpu.x = 0x04;
    cpu.y = 0x10;
    // operand bytes after the opcode
    mmu.write_byte(0x0201, 0xFE);
    mmu.write_byte(0x0202, 0x12);
    // zero-page pointers
    mmu.write_byte(0x0002, 0x78); // (0xFE + 4) & 0xFF = 0x02
    mmu.write_byte(0x0003, 0x56);
    mmu.write_byte(0x00FE, 0xF8);
    mmu.write_byte(0x00FF, 0x20);

    assert_eq!(AddressingMode::Immediate.fetch_addr(&cpu, &mut mmu), (0x0201, false));
    assert_eq!(AddressingMode::ZeroPage.fetch_addr(&cpu, &mut mmu), (0x00FE, false));
    assert_eq!(AddressingMode::ZeroPageX.fetch_addr(&cpu, &mut mmu), (0x0002, false));
    assert_eq!(AddressingMode::ZeroPageY.fetch_addr(&cpu, &mut mmu), (0x000E, false));
    assert_eq!(AddressingMode::Absolute.fetch_addr(&cpu, &mut mmu), (0x12FE, false));
    assert_eq!(AddressingMode::AbsoluteX.fetch_addr(&cpu, &mut mmu), (0x1302, true));
    assert_eq!(AddressingMode::AbsoluteY.fetch_addr(&cpu, &mut mmu), (0x130E, true));
    assert_eq!(AddressingMode::IndirectX.fetch_addr(&cpu, &mut mmu), (0x5678, false));
    // pointer at 0xFE/0xFF holds 0x20F8; + 0x10 crosses into page 0x21
    assert_eq!(AddressingMode::IndirectY.fetch_addr(&cpu, &mut mmu), (0x2108, true));

    cpu.x = 1;
    cpu.y = 1;
    assert_eq!(AddressingMode::ZeroPageX.fetch_addr(&cpu, &mut mmu), (0x00FF, false));
    assert_eq!(AddressingMode::AbsoluteX.fetch_addr(&cpu, &mut mmu), (0x12FF, false));
    assert_eq!(AddressingMode::AbsoluteY.fetch_addr(&cpu, &mut mmu), (0x12FF, false));
    assert_eq!(AddressingMode::IndirectY.fetch_addr(&cpu, &mut mmu), (0x20F9, false));
}

#[test]
fn indirect_pointers_wrap_in_zero_page() {
    let mut mmu = MemoryBus::new();
    let mut cpu = Cpu2A03::new();
    cpu.pc = 0x0200;
    mmu.write_byte(0x0201, 0xFF);
    mmu.write_byte(0x00FF, 0x34);
    mmu.write_byte(0x0000, 0x12);
    mmu.write_byte(0x0100, 0x99);
    cpu.x = 0;
    cpu.y = 0;
    assert_eq!(AddressingMode::IndirectX.fetch_addr(&cpu, &mut mmu), (0x1234, false));
    assert_eq!(AddressingMode::IndirectY.fetch_addr(&cpu, &mut mmu), (0x1234, false));
}

#[test]
fn page_cross_compares_high_bytes() {
    assert!(!page_cross(0x12FF, 0x1200));
    assert!(page_cross(0x12FF, 0x1300));
    assert!(page_cross(0xFFFF, 0x0000));
    assert!(!page_cross(0x0000, 0x00FF));
}

#[test]
fn indexed_read_pays_for_page_crossing_store_does_not() {
    let mut mmu = MemoryBus::new();
    let mut cpu = Cpu2A03::new();
    cpu.pc = 0x0200;
    cpu.x = 0x01;
    mmu.write_byte(0x0201, 0xFF);
    mmu.write_byte(0x0202, 0x02);
    mmu.write_byte(0x0300, 0x42);
    assert_eq!(lda(&mut cpu, &mut mmu, AddressingMode::AbsoluteX), Ok((5, false)));
    assert_eq!(cpu.a, 0x42);
    cpu.x = 0;
    assert_eq!(lda(&mut cpu, &mut mmu, AddressingMode::AbsoluteX), Ok((4, false)));
    cpu.x = 1;
    cpu.a = 0x77;
    assert_eq!(sta(&mut cpu, &mut mmu, AddressingMode::AbsoluteX), Ok((5, false)));
    assert_eq!(mmu.read_byte(0x0300), 0x77);
    cpu.x = 0;
    assert_eq!(sta(&mut cpu, &mut mmu, AddressingMode::AbsoluteX), Ok((5, false)));
}

#[test]
fn branch_costs_two_plus_taken_plus_page_crossed() {
    let mut mmu = MemoryBus::new();
    let mut cpu = Cpu2A03::new();

    // not taken
    cpu.pc = 0x0200;
    cpu.status = Status::from_bits_truncate(Status::CARRY);
    mmu.write_byte(0x0201, 0x10);
    assert_eq!(bcc(&mut cpu, &mut mmu, AddressingMode::Immediate), Ok((2, false)));
    assert_eq!(cpu.pc, 0x0200);

    // taken, same page
    cpu.status = Status::from_bits_truncate(0);
    assert_eq!(bcc(&mut cpu, &mut mmu, AddressingMode::Immediate), Ok((3, true)));
    assert_eq!(cpu.pc, 0x0212);

    // taken, backwards over a page boundary
    cpu.pc = 0x0300;
    mmu.write_byte(0x0301, 0xF0); // -16
    assert_eq!(bne(&mut cpu, &mut mmu, AddressingMode::Immediate), Ok((4, true)));
    assert_eq!(cpu.pc, 0x02F2);

    // taken, forwards over a page boundary
    cpu.pc = 0x04F0;
    cpu.status = Status::from_bits_truncate(Status::ZERO);
    mmu.write_byte(0x04F1, 0x7F);
    assert_eq!(beq(&mut cpu, &mut mmu, AddressingMode::Immediate), Ok((4, true)));
    assert_eq!(cpu.pc, 0x0571);
}

#[test]
fn branch_through_the_decoder_keeps_its_target() {
    // BNE +2 taken: the program counter is not moved on a second time.
    let mut mmu = MemoryBus::new();
    load(&mut mmu, 0x0200, &[0xD0, 0x02]);
    let mut cpu = Cpu2A03::new();
    cpu.pc = 0x0200;
    let cycles = run(&mut cpu, &mut mmu, 1);
    assert_eq!(cycles, vec![3]);
    assert_eq!(cpu.pc, 0x0204);
}

#[test]
fn adc_sets_carry_and_overflow() {
    let mut mmu = MemoryBus::new();
    let mut cpu = Cpu2A03::new();
    cpu.pc = 0x0200;

    cpu.a = 0x50;
    cpu.status = Status::from_bits_truncate(0);
    mmu.write_byte(0x0201, 0x50);
    assert_eq!(adc(&mut cpu, &mut mmu, AddressingMode::Immediate), Ok((2, false)));
    assert_eq!(cpu.a, 0xA0);
    assert!(cpu.status.contains(Status::OVF));
    assert!(cpu.status.contains(Status::NEG));
    assert!(!cpu.status.contains(Status::CARRY));
    assert!(!cpu.status.contains(Status::ZERO));

    cpu.a = 0xFF;
    cpu.status = Status::from_bits_truncate(Status::CARRY);
    mmu.write_byte(0x0201, 0x00);
    adc(&mut cpu, &mut mmu, AddressingMode::Immediate).unwrap();
    assert_eq!(cpu.a, 0x00);
    assert!(cpu.status.contains(Status::CARRY));
    assert!(cpu.status.contains(Status::ZERO));
    assert!(!cpu.status.contains(Status::OVF));
}

#[test]
fn sbc_adds_the_complement() {
    let mut mmu = MemoryBus::new();
    let mut cpu = Cpu2A03::new();
    cpu.pc = 0x0200;

    cpu.a = 0x50;
    cpu.status = Status::from_bits_truncate(Status::CARRY);
    mmu.write_byte(0x0201, 0x10);
    assert_eq!(sbc(&mut cpu, &mut mmu, AddressingMode::Immediate), Ok((2, false)));
    assert_eq!(cpu.a, 0x40);
    assert!(cpu.status.contains(Status::CARRY));

    cpu.a = 0x50;
    cpu.status = Status::from_bits_truncate(0);
    mmu.write_byte(0x0201, 0x60);
    sbc(&mut cpu, &mut mmu, AddressingMode::Immediate).unwrap();
    assert_eq!(cpu.a, 0xEF);
    assert!(!cpu.status.contains(Status::CARRY));
    assert!(cpu.status.contains(Status::NEG));

    cpu.a = 0x80;
    cpu.status = Status::from_bits_truncate(Status::CARRY);
    mmu.write_byte(0x0201, 0x01);
    sbc(&mut cpu, &mut mmu, AddressingMode::Immediate).unwrap();
    assert_eq!(cpu.a, 0x7F);
    assert!(cpu.status.contains(Status::OVF));
}

#[test]
fn jmp_indirect_wraps_within_the_page() {
    let mut mmu = MemoryBus::new();
    let mut cpu = Cpu2A03::new();
    cpu.pc = 0x0200;
    mmu.write_byte(0x0201, 0xFF);
    mmu.write_byte(0x0202, 0x03);
    mmu.write_byte(0x03FF, 0x34);
    mmu.write_byte(0x0300, 0x12); // high byte comes from the start of the page
    mmu.write_byte(0x0400, 0x56);
    assert_eq!(jmp(&mut cpu, &mut mmu, AddressingMode::Absolute), Ok((5, true)));
    assert_eq!(cpu.pc, 0x1234);

    cpu.pc = 0x0200;
    mmu.write_byte(0x0201, 0x10);
    mmu.write_byte(0x0310, 0x78);
    mmu.write_byte(0x0311, 0x56);
    assert_eq!(jmp(&mut cpu, &mut mmu, AddressingMode::Absolute), Ok((5, true)));
    assert_eq!(cpu.pc, 0x5678);

    cpu.pc = 0x0200;
    assert_eq!(jmp(&mut cpu, &mut mmu, AddressingMode::Immediate), Ok((3, true)));
    assert_eq!(cpu.pc, 0x0310);
}

#[test]
fn brk_pushes_pc_then_status_with_break_set() {
    let mut mmu = MemoryBus::new();
    mmu.write_word(0xFFFE, 0x4321);
    let mut cpu = Cpu2A03::new();
    cpu.pc = 0x0212;
    cpu.sp = 0xFD;
    assert_eq!(brk(&mut cpu, &mut mmu, AddressingMode::NoneAddressing), Ok((7, true)));
    assert_eq!(cpu.pc, 0x4321);
    assert_eq!(cpu.sp, 0xFA);
    assert_eq!(mmu.read_byte(0x01FD), 0x02);
    assert_eq!(mmu.read_byte(0x01FC), 0x12);
    assert_eq!(mmu.read_byte(0x01FB), 0x24 | 0x10);
    assert!(cpu.status.contains(Status::BRK));
}

#[test]
fn nmi_pushes_state_and_jumps_through_the_vector() {
    let mut mmu = MemoryBus::new();
    mmu.write_word(0xFFFA, 0x8000);
    let mut cpu = Cpu2A03::new();
    cpu.pc = 0x1234;
    cpu.status = Status::from_bits_truncate(Status::BRK | Status::CARRY);
    assert_eq!(cpu.nmi(&mut mmu), 2);
    assert_eq!(cpu.pc, 0x8000);
    assert_eq!(cpu.sp, 0xFA);
    assert_eq!(mmu.read_byte(0x01FD), 0x12);
    assert_eq!(mmu.read_byte(0x01FC), 0x34);
    assert_eq!(mmu.read_byte(0x01FB), Status::BRK2 | Status::CARRY);
    assert!(cpu.status.contains(Status::INT));
}

#[test]
fn stack_is_last_in_first_out() {
    let mut mmu = MemoryBus::new();
    let mut cpu = Cpu2A03::new();
    let start = cpu.sp;
    cpu.push8(&mut mmu, 0x11);
    cpu.push16(&mut mmu, 0xBEEF);
    cpu.push8(&mut mmu, 0x22);
    cpu.push16(&mut mmu, 0x0102);
    assert_eq!(cpu.sp, start.wrapping_sub(6));
    assert_eq!(cpu.pop16(&mut mmu), 0x0102);
    assert_eq!(cpu.pop8(&mut mmu), 0x22);
    assert_eq!(cpu.pop16(&mut mmu), 0xBEEF);
    assert_eq!(cpu.pop8(&mut mmu), 0x11);
    assert_eq!(cpu.sp, start);
}

#[test]
fn stack_pointer_wraps_within_its_page() {
    let mut mmu = MemoryBus::new();
    let mut cpu = Cpu2A03::new();
    cpu.sp = 0x00;
    cpu.push8(&mut mmu, 0xAB);
    assert_eq!(cpu.sp, 0xFF);
    assert_eq!(mmu.read_byte(0x0100), 0xAB);
    assert_eq!(cpu.pop8(&mut mmu), 0xAB);
    assert_eq!(cpu.sp, 0x00);
}

#[test]
fn pha_lda_pla_restores_accumulator() {
    let mut mmu = MemoryBus::new();
    load(&mut mmu, 0, &[0x48, 0xA9, 0x30, 0x68]);
    let mut cpu = Cpu2A03::new();
    cpu.a = 20;
    let start = cpu.sp;
    let cycles = run(&mut cpu, &mut mmu, 3);
    assert_eq!(cycles, vec![3, 2, 4]);
    assert_eq!(cpu.a, 20);
    assert_eq!(cpu.sp, start);
}

#[test]
fn decode_table_samples() {
    let cpu = Cpu2A03::new();
    let lda_imm = cpu.decode(0xA9);
    assert_eq!(lda_imm.mnemonic, "LDA");
    assert_eq!(lda_imm.size, 2);
    assert_eq!(lda_imm.mode, AddressingMode::Immediate);
    assert_eq!(lda_imm.execute, Assembly::LDA);

    let jmp_ind = cpu.decode(0x6C);
    assert_eq!(jmp_ind.mnemonic, "JMP");
    assert_eq!(jmp_ind.size, 3);
    assert_eq!(jmp_ind.mode, AddressingMode::Absolute);

    let sta_indy = cpu.decode(0x91);
    assert_eq!(sta_indy.execute, Assembly::STA);
    assert_eq!(sta_indy.mode, AddressingMode::IndirectY);

    let slo = cpu.decode(0x03);
    assert_eq!(slo.mnemonic, "*SLO");
    assert!(!slo.is_legal());

    let last = cpu.decode(0xFF);
    assert_eq!(last.mnemonic, "*ISB");
    assert_eq!(last.size, 3);
    assert!(!last.is_legal());

    let legal = (0..=255u8).filter(|&b| cpu.decode(b).is_legal()).count();
    assert_eq!(legal, 256 - 66);
    let instruction = lda_imm.decode(0xA9, &cpu);
    assert_eq!(instruction.byte, 0xA9);
    assert_eq!(instruction.pc, 0);
}

#[test]
fn undefined_routine_fails_and_touches_nothing() {
    let mut mmu = MemoryBus::new();
    let mut cpu = Cpu2A03::new();
    let before = cpu;
    assert_eq!(udf(&mut cpu, &mut mmu, AddressingMode::Immediate), Err(()));
    assert_eq!(cpu, before);
}

#[test]
fn nop_costs_by_mode_and_reads_nothing() {
    let mut mmu = MemoryBus::new();
    let mut cpu = Cpu2A03::new();
    assert_eq!(nop(&mut cpu, &mut mmu, AddressingMode::NoneAddressing), Ok((2, false)));
    assert_eq!(nop(&mut cpu, &mut mmu, AddressingMode::Immediate), Ok((2, false)));
    assert_eq!(nop(&mut cpu, &mut mmu, AddressingMode::ZeroPage), Ok((3, false)));
    assert_eq!(nop(&mut cpu, &mut mmu, AddressingMode::AbsoluteX), Ok((4, false)));
    assert_eq!(nop(&mut cpu, &mut mmu, AddressingMode::IndirectX), Ok((6, false)));
    assert_eq!(nop(&mut cpu, &mut mmu, AddressingMode::IndirectY), Ok((5, false)));
}

#[test]
fn shifts_and_rotates() {
    let mut mmu = MemoryBus::new();
    load(&mut mmu, 0x0200, &[0x0A, 0x4A, 0x2A, 0x6A, 0x06, 0x10, 0x66, 0x10]);
    mmu.write_byte(0x10, 0x81);
    let mut cpu = Cpu2A03::new();
    cpu.pc = 0x0200;
    cpu.a = 0x81;
    let cycles = run(&mut cpu, &mut mmu, 1); // ASL A
    assert_eq!(cycles, vec![2]);
    assert_eq!(cpu.a, 0x02);
    assert!(cpu.status.contains(Status::CARRY));
    run(&mut cpu, &mut mmu, 1); // LSR A
    assert_eq!(cpu.a, 0x01);
    assert!(!cpu.status.contains(Status::CARRY));
    cpu.status.set(Status::CARRY, true);
    run(&mut cpu, &mut mmu, 1); // ROL A
    assert_eq!(cpu.a, 0x03);
    assert!(!cpu.status.contains(Status::CARRY));
    run(&mut cpu, &mut mmu, 1); // ROR A
    assert_eq!(cpu.a, 0x01);
    assert!(cpu.status.contains(Status::CARRY));
    let cycles = run(&mut cpu, &mut mmu, 1); // ASL $10
    assert_eq!(cycles, vec![5]);
    assert_eq!(mmu.read_byte(0x10), 0x02);
    assert!(cpu.status.contains(Status::CARRY));
    run(&mut cpu, &mut mmu, 1); // ROR $10
    assert_eq!(mmu.read_byte(0x10), 0x81);
    assert!(!cpu.status.contains(Status::CARRY));
    assert!(cpu.status.contains(Status::NEG));
}

#[test]
fn compare_and_memory_steps() {
    let mut mmu = MemoryBus::new();
    load(&mut mmu, 0x0200, &[0xC9, 0x10, 0xE6, 0x20, 0xC6, 0x21, 0x24, 0x22]);
    mmu.write_byte(0x20, 0xFF);
    mmu.write_byte(0x21, 0x00);
    mmu.write_byte(0x22, 0xC0);
    let mut cpu = Cpu2A03::new();
    cpu.pc = 0x0200;
    cpu.a = 0x10;
    run(&mut cpu, &mut mmu, 1); // CMP #$10
    assert!(cpu.status.contains(Status::CARRY));
    assert!(cpu.status.contains(Status::ZERO));
    let cycles = run(&mut cpu, &mut mmu, 2); // INC $20 ; DEC $21
    assert_eq!(cycles, vec![5, 5]);
    assert_eq!(mmu.read_byte(0x20), 0x00);
    assert_eq!(mmu.read_byte(0x21), 0xFF);
    assert!(cpu.status.contains(Status::NEG));
    cpu.a = 0x01;
    run(&mut cpu, &mut mmu, 1); // BIT $22
    assert!(cpu.status.contains(Status::ZERO));
    assert!(cpu.status.contains(Status::OVF));
    assert!(cpu.status.contains(Status::NEG));
}

#[test]
fn plp_and_rti_fix_the_break_bits() {
    let mut mmu = MemoryBus::new();
    load(&mut mmu, 0x0200, &[0x28, 0x40]);
    let mut cpu = Cpu2A03::new();
    cpu.pc = 0x0200;
    cpu.push16(&mut mmu, 0x0456);
    cpu.push8(&mut mmu, 0x01);
    cpu.push8(&mut mmu, 0xFF);
    let cycles = run(&mut cpu, &mut mmu, 2);
    assert_eq!(cycles, vec![4, 6]);
    assert_eq!(cpu.status.bits(), 0x21);
    assert_eq!(cpu.pc, 0x0456);
}

#[test]
fn pla_pulls_the_byte_as_it_is() {
    let mut mmu = MemoryBus::new();
    load(&mut mmu, 0x0200, &[0x68, 0x68]);
    let mut cpu = Cpu2A03::new();
    cpu.pc = 0x0200;
    cpu.status.set(Status::BRK, true);
    cpu.push8(&mut mmu, 0x00);
    cpu.push8(&mut mmu, 0x81);
    run(&mut cpu, &mut mmu, 1);
    assert_eq!(cpu.a, 0x81);
    assert!(cpu.status.contains(Status::NEG));
    assert!(!cpu.status.contains(Status::ZERO));
    run(&mut cpu, &mut mmu, 1);
    assert_eq!(cpu.a, 0x00);
    assert!(cpu.status.contains(Status::ZERO));
    assert!(cpu.status.contains(Status::BRK));
}
