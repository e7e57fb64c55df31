use rustynes::cartridge::Mirroring;
use rustynes::cpu::Status;
use rustynes::joypad::JoypadButton;
use rustynes::memory::{Bus, Fault};
use rustynes::{Nes, WaveForm};

/// A mapper-0 image with one program bank holding `program` at 0x8000 and
/// the reset, NMI and break vectors.
fn cartridge(program: &[u8], nmi: u16) -> Vec<u8> {
    let mut raw = vec![0x4E, 0x45, 0x53, 0x1A, 1, 1, 0x01, 0x00];
    raw.resize(16, 0);
    let mut prg = vec![0xEAu8; 0x4000];
    prg[..program.len()].copy_from_slice(program);
    prg[0x3FFA] = nmi as u8;
    prg[0x3FFB] = (nmi >> 8) as u8;
    prg[0x3FFC] = 0x00;
    prg[0x3FFD] = 0x80;
    prg[0x3FFE] = 0x00;
    prg[0x3FFF] = 0x90;
    raw.extend_from_slice(&prg);
    raw.extend(std::iter::repeat(0u8).take(0x2000));
    raw
}

#[test]
fn a_bad_image_builds_no_console() {
    let mut raw = cartridge(&[], 0x8000);
    raw[0] = 0x00;
    assert!(Nes::new(&raw).is_err());
    let mut raw = cartridge(&[], 0x8000);
    raw[7] = 0x08;
    assert!(Nes::new(&raw).is_err());
    let mut raw = cartridge(&[], 0x8000);
    raw[6] = 0x10;
    assert!(Nes::new(&raw).is_err());
}

#[test]
fn console_starts_at_the_reset_vector() {
    let nes = Nes::new(&cartridge(&[0xA9, 0x05, 0x00], 0x8000)).unwrap();
    assert_eq!(nes.cpu.pc, 0x8000);
    assert_eq!(nes.cpu.sp, 0xFD);
    assert_eq!(nes.cpu.status.bits(), 0x24);
    assert_eq!(nes.cycles, 0);
    assert_eq!(nes.fault(), None);
    assert_eq!(nes.mmu.ppu.borrow().mirroring, Mirroring::Vertical);
    assert_eq!(nes.mmu.ppu.borrow().chr_rom.len(), 0x2000);
    assert_eq!(nes.mmu.handler_at(0x4017, 0).unwrap().kind, rustynes::device::DeviceKind::Apu);
    assert_eq!(nes.mmu.handler_at(0x4017, 1).unwrap().kind, rustynes::device::DeviceKind::Joypad);
    assert_eq!(nes.mmu.handler_at(0x4014, 0).unwrap().kind, rustynes::device::DeviceKind::Ppu);
    assert_eq!(nes.mmu.handler_at(0x6000, 0).unwrap().kind, rustynes::device::DeviceKind::Cartridge);
    assert_eq!(nes.mmu.handler_at(0x5FFF, 0), None);
}

#[test]
fn one_step_runs_one_instruction() {
    let mut nes = Nes::new(&cartridge(&[0xA9, 0x05, 0x00], 0x8000)).unwrap();
    let report = nes.step().unwrap();
    assert_eq!(report.cycles, 2);
    assert!(!report.frame_ready);
    assert_eq!(nes.cpu.a, 5);
    assert!(!nes.cpu.status.contains(Status::ZERO));
    assert!(!nes.cpu.status.contains(Status::NEG));
    assert_eq!(nes.cpu.pc, 0x8002);
    assert_eq!(nes.cycles, 2);
    assert_eq!(nes.mmu.ppu.borrow().cycle(), 6);
    assert_eq!(nes.mmu.apu.borrow().cpu_cycles, 2);
    assert_eq!(report.tones[0].duty, WaveForm::Pulse12);
    assert_eq!(report.tones[2].duty, WaveForm::Triangle);
    assert_eq!(report.tones[3].duty, WaveForm::Noise);

    // BRK goes through the vector at 0xFFFE
    let report = nes.step().unwrap();
    assert_eq!(report.cycles, 7);
    assert_eq!(nes.cpu.pc, 0x9000);
}

#[test]
fn an_illegal_opcode_ends_the_step() {
    let mut nes = Nes::new(&cartridge(&[0xEA, 0x03], 0x8000)).unwrap();
    assert!(nes.step().is_ok());
    assert_eq!(nes.step().err(), Some(Fault::IllegalOpcode(0x03, 0x8001)));
    assert_eq!(nes.cycles, 2);
}

#[test]
fn a_bus_fault_ends_the_step_and_stays() {
    // LDA $2000 reads a write-only register
    let mut nes = Nes::new(&cartridge(&[0xAD, 0x00, 0x20, 0xEA], 0x8000)).unwrap();
    assert_eq!(nes.step().err(), Some(Fault::WriteOnlyRegister(0x2000)));
    assert_eq!(nes.fault(), Some(Fault::WriteOnlyRegister(0x2000)));
    let pc = nes.cpu.pc;
    assert_eq!(nes.step().err(), Some(Fault::WriteOnlyRegister(0x2000)));
    assert_eq!(nes.cpu.pc, pc);
}

#[test]
fn a_frame_is_ready_when_the_picture_processor_wraps() {
    // JMP $8000 for ever
    let mut nes = Nes::new(&cartridge(&[0x4C, 0x00, 0x80], 0x8000)).unwrap();
    let mut steps = 0usize;
    loop {
        let report = nes.step().unwrap();
        steps += 1;
        assert_eq!(report.cycles, 3);
        if report.frame_ready {
            break;
        }
        assert!(steps < 20000);
    }
    // 262 scanlines of 341 dots, nine dots a step
    assert_eq!(steps, (262 * 341 + 8) / 9);
    assert_eq!(nes.mmu.ppu.borrow().scanline(), 0);
    assert_eq!(nes.frame().data.len(), 256 * 240);
}

#[test]
fn vblank_raises_the_nmi_and_the_next_step_takes_it() {
    // LDA #$80 ; STA $2000 ; JMP $8005
    let program = [0xA9, 0x80, 0x8D, 0x00, 0x20, 0x4C, 0x05, 0x80];
    let mut nes = Nes::new(&cartridge(&program, 0x8100)).unwrap();
    let mut steps = 0usize;
    while !nes.mmu.ppu.borrow().read_nmi() {
        nes.step().unwrap();
        steps += 1;
        assert!(steps < 20000);
    }
    assert_eq!(nes.mmu.ppu.borrow().scanline(), 241);
    assert!(nes.mmu.ppu.borrow().status_reg.vblank());
    let report = nes.step().unwrap();
    assert_eq!(report.cycles, 2);
    assert_eq!(nes.cpu.pc, 0x8100);
    assert!(nes.cpu.status.contains(Status::INT));
    assert!(!nes.mmu.ppu.borrow().read_nmi());
    // the return address and the status are on the stack
    assert_eq!(nes.cpu.sp, 0xFA);
    assert_eq!(nes.mmu.memory[0x01FD], 0x80);
    assert_eq!(nes.mmu.memory[0x01FC], 0x05);
}

#[test]
fn sprite_dma_holds_the_processor_up() {
    // LDA #$02 ; STA $4014 ; NOP
    let program = [0xA9, 0x02, 0x8D, 0x14, 0x40, 0xEA];
    let mut nes = Nes::new(&cartridge(&program, 0x8000)).unwrap();
    for idx in 0..256u16 {
        nes.mmu.write_byte(0x0200 + idx, (idx as u8) ^ 0x5A);
    }
    assert_eq!(nes.step().unwrap().cycles, 2);
    let report = nes.step().unwrap();
    // four cycles for the store and 513 for the DMA, which starts on an even
    // cycle
    assert_eq!(report.cycles, 4 + 513);
    assert_eq!(nes.cycles, 2 + 517);
    for idx in 0..256usize {
        assert_eq!(nes.mmu.ppu.borrow().oam_data[idx], (idx as u8) ^ 0x5A);
    }
    assert!(!nes.mmu.ppu.borrow().dma_enable);
    // 1551 dots are four scanlines and 187 dots on top of the six from before
    assert_eq!(nes.mmu.ppu.borrow().scanline(), 4);
    assert_eq!(nes.mmu.ppu.borrow().cycle(), 6 + 1551 - 4 * 341);
    assert_eq!(nes.step().unwrap().cycles, 2);
}

#[test]
fn sprite_dma_on_an_odd_cycle_takes_one_more() {
    // LDA $00 (3 cycles) ; LDA #$02 ; STA $4014
    let program = [0xA5, 0x00, 0xA9, 0x02, 0x8D, 0x14, 0x40];
    let mut nes = Nes::new(&cartridge(&program, 0x8000)).unwrap();
    assert_eq!(nes.step().unwrap().cycles, 3);
    assert_eq!(nes.step().unwrap().cycles, 2);
    assert_eq!(nes.cycles, 5);
    assert_eq!(nes.step().unwrap().cycles, 4 + 514);
}

#[test]
fn controllers_are_read_through_the_bus() {
    // LDA #$01 ; STA $4016 ; LDA #$00 ; STA $4016 ; LDA $4016 ; LDA $4017
    let program = [
        0xA9, 0x01, 0x8D, 0x16, 0x40, 0xA9, 0x00, 0x8D, 0x16, 0x40, 0xAD, 0x16, 0x40, 0xAD, 0x17,
        0x40,
    ];
    let mut nes = Nes::new(&cartridge(&program, 0x8000)).unwrap();
    nes.update_pads(
        JoypadButton::from_bits_truncate(JoypadButton::ButtonA),
        JoypadButton::from_bits_truncate(JoypadButton::ButtonB),
    );
    for _ in 0..5 {
        nes.step().unwrap();
    }
    assert_eq!(nes.cpu.a, 1);
    nes.step().unwrap();
    assert_eq!(nes.cpu.a, 0);
    assert_eq!(nes.mmu.pad.borrow().index, [1, 1]);
    nes.update_pads(
        JoypadButton::from_bits_truncate(JoypadButton::ButtonA),
        JoypadButton::from_bits_truncate(JoypadButton::ButtonB),
    );
    assert_eq!(nes.mmu.pad.borrow().status[1].bits(), JoypadButton::ButtonB);
}

#[test]
fn sound_registers_are_reached_through_the_bus() {
    // LDA #$9F ; STA $4000 ; LDA #$FD ; STA $4002 ; LDA #$08 ; STA $4003
    let program = [
        0xA9, 0x9F, 0x8D, 0x00, 0x40, 0xA9, 0xFD, 0x8D, 0x02, 0x40, 0xA9, 0x08, 0x8D, 0x03, 0x40,
    ];
    let mut nes = Nes::new(&cartridge(&program, 0x8000)).unwrap();
    let mut report = nes.step().unwrap();
    for _ in 0..5 {
        report = nes.step().unwrap();
    }
    assert_eq!(report.tones[0].period, 0x00FD);
    assert_eq!(report.tones[0].volume, 15);
    assert_eq!(report.tones[0].duty, WaveForm::Pulse50);
    assert_eq!(report.tones[1].volume, 0);
}
