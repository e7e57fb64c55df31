use rustynes::cartridge::{Mirroring, Rom};
use rustynes::device::{DevHandler, Device, DeviceKind, IOHandler};
use rustynes::joypad::{Joypad, JoypadButton};
use rustynes::memory::{Bus, Fault, MemoryBus, MemoryRead, MemoryWrite};
use rustynes::ppu::Ppu;

#[test]
fn test_mem_read_write_to_ram() {
    let mut bus = MemoryBus::new();
    bus.write_byte(0x01, 0x55);
    assert_eq!(bus.read_byte(0x01), 0x55);
}

#[test]
fn test_mem_read_write_to_ppu() {
    let mut mmu = MemoryBus::new();

    mmu.ppu = Device::new(Ppu::new(vec![0; 0x2000], Mirroring::Horizontal, false));
    let handler = mmu.ppu.handler();

    mmu.register((0x2000, 0x3FFF), handler);
    mmu.register((0x4014, 0x4014), handler);

    mmu.write_byte(0x2000, 0xFE);
    assert_eq!(mmu.ppu.borrow().ctrl_reg.bits(), 0xFE);

    mmu.write_byte(0x2003, 0xFE);
    assert_eq!(mmu.ppu.borrow().oam_addr_reg, 0xFE);

    mmu.write_byte(0x2004, 0xFE);
    assert_eq!(mmu.ppu.borrow().oam_data[0xFE], 0xFE);
    assert_eq!(mmu.ppu.borrow().oam_addr_reg, 0xFF);

    mmu.write_byte(0x2006, 0xFE);
    assert_eq!(mmu.ppu.borrow().addr_reg.get(), 0x3E00);
    mmu.write_byte(0x2006, 0xFE);
    assert_eq!(mmu.ppu.borrow().addr_reg.get(), 0x3EFE);
}

#[test]
fn ram_is_mirrored_every_2k() {
    let mut bus = MemoryBus::new();
    bus.write_byte(0x0005, 0x5A);
    assert_eq!(bus.read_byte(0x0805), 0x5A);
    assert_eq!(bus.read_byte(0x1005), 0x5A);
    assert_eq!(bus.read_byte(0x1805), 0x5A);
    bus.write_byte(0x1FFF, 0xA5);
    assert_eq!(bus.read_byte(0x07FF), 0xA5);
    // from 0x2000 on, nothing is folded
    bus.write_byte(0x2005, 0x11);
    assert_eq!(bus.read_byte(0x2005), 0x11);
    assert_eq!(bus.read_byte(0x0005), 0x5A);
    assert_eq!(bus.fault(), None);
}

#[test]
fn words_are_little_endian_and_wrap_at_the_top() {
    let mut bus = MemoryBus::new();
    bus.write_word(0x4100, 0xBEEF);
    assert_eq!(bus.read_byte(0x4100), 0xEF);
    assert_eq!(bus.read_byte(0x4101), 0xBE);
    assert_eq!(bus.read_word(0x4100), 0xBEEF);

    bus.write_word(0xFFFF, 0x1234);
    assert_eq!(bus.read_byte(0xFFFF), 0x34);
    assert_eq!(bus.read_byte(0x0000), 0x12);
    assert_eq!(bus.read_word(0xFFFF), 0x1234);
}

#[test]
fn handlers_are_kept_per_address_in_registration_order() {
    let mut bus = MemoryBus::new();
    let apu = bus.apu.handler();
    let pad = bus.pad.handler();
    assert_eq!(bus.handler_at(0x4017, 0), None);
    bus.register((0x4017, 0x4017), apu);
    bus.register((0x4016, 0x4017), pad);
    assert_eq!(bus.handler_at(0x4017, 0), Some(apu));
    assert_eq!(bus.handler_at(0x4017, 1), Some(pad));
    assert_eq!(bus.handler_at(0x4017, 2), None);
    assert_eq!(bus.handler_at(0x4016, 0), Some(pad));
    assert_eq!(bus.handler_at(0x4016, 1), None);
    assert_eq!(bus.handler_at(0x4015, 0), None);
    assert_eq!(bus.handler_at(0x4018, 0), None);
    assert_eq!(apu, DevHandler { kind: DeviceKind::Apu, mediator: false });
    assert_eq!(pad.kind, DeviceKind::Joypad);
}

#[test]
fn registering_an_empty_range_changes_nothing() {
    let mut bus = MemoryBus::new();
    let pad = bus.pad.handler();
    bus.register((0x4017, 0x4016), pad);
    assert_eq!(bus.handler_at(0x4016, 0), None);
    assert_eq!(bus.handler_at(0x4017, 0), None);
}

#[test]
fn registering_up_to_the_last_address() {
    let mut bus = MemoryBus::new();
    let pad = bus.pad.handler();
    bus.register((0xFFFE, 0xFFFF), pad);
    assert_eq!(bus.handler_at(0xFFFD, 0), None);
    assert_eq!(bus.handler_at(0xFFFE, 0), Some(pad));
    assert_eq!(bus.handler_at(0xFFFF, 0), Some(pad));
    assert_eq!(bus.handler_at(0x0000, 0), None);
}

#[test]
fn a_passing_handler_hands_the_read_to_the_next_one() {
    // At 0x4017 the sound processor passes reads, so the controller answers.
    let mut bus = MemoryBus::new();
    let apu = bus.apu.handler();
    let pad = bus.pad.handler();
    bus.register((0x4017, 0x4017), apu);
    bus.register((0x4016, 0x4017), pad);
    bus.pad.borrow_mut().update(
        JoypadButton::from_bits_truncate(0),
        JoypadButton::from_bits_truncate(JoypadButton::ButtonA),
    );
    assert_eq!(bus.read_byte(0x4017), 1);
    assert_eq!(bus.read_byte(0x4017), 0);
    assert_eq!(bus.fault(), None);
}

#[test]
fn passes_fall_back_to_ram_and_values_are_stored_unmirrored() {
    let mut bus = MemoryBus::new();
    let pad = bus.pad.handler();
    // The controller passes everything but 0x4016 and 0x4017.
    bus.register((0x0000, 0x0010), pad);
    bus.write_byte(0x0005, 0x77);
    assert_eq!(bus.read_byte(0x0005), 0x77);
    assert_eq!(bus.memory[0x0005], 0x77);

    // A supplied value is stored at the address itself.
    let ppu = bus.ppu.handler();
    bus.register((0x2000, 0x2007), ppu);
    bus.write_byte(0x2003, 0x42);
    assert_eq!(bus.memory[0x2003], 0x42);
    assert_eq!(bus.ppu.borrow().oam_addr_reg, 0x42);

    // A blocked write stores nothing.
    bus.write_byte(0x2002, 0x99);
    assert_eq!(bus.memory[0x2002], 0x00);
    assert_eq!(bus.fault(), None);
}

#[test]
fn device_answers() {
    let mut pad = Joypad::new();
    assert_eq!(pad.read(0x4015), Ok(MemoryRead::Pass));
    assert_eq!(pad.write(0x4017, 1), Ok(MemoryWrite::Pass));
    assert_eq!(pad.write(0x4016, 1), Ok(MemoryWrite::Value(1)));
    let mut ppu = Ppu::new_empty_rom();
    assert_eq!(ppu.write(0x2002, 1), Ok(MemoryWrite::Block));
    assert_eq!(ppu.write(0x4014, 1), Ok(MemoryWrite::Pass));
    assert_eq!(ppu.read(0x4014), Ok(MemoryRead::Pass));
    assert_eq!(Ppu::kind(), DeviceKind::Ppu);
    assert_eq!(Joypad::kind(), DeviceKind::Joypad);
    assert_eq!(Rom::kind(), DeviceKind::Cartridge);
}

#[test]
fn device_wrappers() {
    let plain = Device::new(Joypad::new());
    assert!(!plain.mediator);
    assert!(!plain.handler().mediator);
    let mut mediator = Device::mediate(Joypad::new());
    assert!(mediator.mediator);
    assert_eq!(mediator.handler(), DevHandler { kind: DeviceKind::Joypad, mediator: true });
    mediator.borrow_mut().ctrl = 3;
    assert_eq!(mediator.borrow().ctrl, 3);
    let built = Device::inner(Joypad::new(), true);
    assert!(built.mediator);
}

#[test]
fn reading_a_write_only_register_is_a_fault() {
    let mut bus = MemoryBus::new();
    let ppu = bus.ppu.handler();
    bus.register((0x2000, 0x3FFF), ppu);
    assert_eq!(bus.fault(), None);
    assert_eq!(bus.read_byte(0x2000), 0);
    assert_eq!(bus.fault(), Some(Fault::WriteOnlyRegister(0x2000)));
    // the first fault stays latched
    bus.read_byte(0x3FF9);
    assert_eq!(bus.fault(), Some(Fault::WriteOnlyRegister(0x2000)));

    let mut bus = MemoryBus::new();
    let apu = bus.apu.handler();
    bus.register((0x4000, 0x4013), apu);
    bus.read_byte(0x4003);
    assert_eq!(bus.fault(), Some(Fault::WriteOnlyRegister(0x4003)));
}

#[test]
fn data_port_faults() {
    // character ROM cannot be written
    let mut bus = MemoryBus::new();
    bus.ppu = Device::new(Ppu::new(vec![0; 0x2000], Mirroring::Horizontal, false));
    let ppu = bus.ppu.handler();
    bus.register((0x2000, 0x3FFF), ppu);
    bus.write_byte(0x2006, 0x01);
    bus.write_byte(0x2006, 0x00);
    bus.write_byte(0x2007, 0x55);
    assert_eq!(bus.fault(), Some(Fault::ReadOnlyMemory(0x0100)));
    assert_eq!(bus.ppu.borrow().chr_rom[0x0100], 0);
    assert_eq!(bus.ppu.borrow().addr_reg.get(), 0x0100);

    // an address beyond the 14 bits, which only a direct store can leave in
    // the register
    let mut bus = MemoryBus::new();
    bus.ppu = Device::new(Ppu::new(vec![0; 0x2000], Mirroring::Horizontal, true));
    let ppu = bus.ppu.handler();
    bus.register((0x2000, 0x3FFF), ppu);
    bus.ppu.borrow_mut().addr_reg.set(0x4000);
    bus.read_byte(0x2007);
    assert_eq!(bus.fault(), Some(Fault::OutOfRange(0x4000)));

    // four screens need more nametable memory than there is
    let mut bus = MemoryBus::new();
    bus.ppu = Device::new(Ppu::new(vec![0; 0x2000], Mirroring::FourScreen, true));
    let ppu = bus.ppu.handler();
    bus.register((0x2000, 0x3FFF), ppu);
    bus.write_byte(0x2006, 0x28);
    bus.write_byte(0x2006, 0x00);
    bus.write_byte(0x2007, 0x01);
    assert_eq!(bus.fault(), Some(Fault::OutOfRange(0x2800)));

    // character memory shorter than the address
    let mut bus = MemoryBus::new();
    bus.ppu = Device::new(Ppu::new(vec![0; 0x0800], Mirroring::Horizontal, true));
    let ppu = bus.ppu.handler();
    bus.register((0x2000, 0x3FFF), ppu);
    bus.write_byte(0x2006, 0x08);
    bus.write_byte(0x2006, 0x00);
    bus.write_byte(0x2007, 0x01);
    assert_eq!(bus.fault(), Some(Fault::OutOfRange(0x0800)));

    // character RAM takes the write
    let mut bus = MemoryBus::new();
    bus.ppu = Device::new(Ppu::new(vec![0; 0x2000], Mirroring::Horizontal, true));
    let ppu = bus.ppu.handler();
    bus.register((0x2000, 0x3FFF), ppu);
    bus.write_byte(0x2006, 0x01);
    bus.write_byte(0x2006, 0x00);
    bus.write_byte(0x2007, 0x55);
    assert_eq!(bus.fault(), None);
    assert_eq!(bus.ppu.borrow().chr_rom[0x0100], 0x55);
}

#[test]
fn cartridge_out_of_range_is_a_fault() {
    let mut bus = MemoryBus::new();
    let rom = bus.rom.handler();
    bus.register((0x6000, 0xFFFF), rom);
    // the empty cartridge answers zero where work RAM would be
    assert_eq!(bus.read_byte(0x6000), 0);
    assert_eq!(bus.fault(), None);
    // but it has no program ROM
    assert_eq!(bus.read_byte(0x8000), 0);
    assert_eq!(bus.fault(), Some(Fault::OutOfRange(0x8000)));
}

#[test]
fn dma_from_the_picture_processor_itself_is_reentrant() {
    let mut bus = MemoryBus::new();
    let ppu = bus.ppu.handler();
    bus.register((0x2000, 0x3FFF), ppu);
    bus.register((0x4014, 0x4014), ppu);
    bus.write_byte(0x4014, 0x20);
    assert_eq!(bus.fault(), Some(Fault::Reentrant(0x2000)));
}

#[test]
fn a_mediator_steps_aside_when_reached_again() {
    let mut bus = MemoryBus::new();
    bus.ppu = Device::mediate(Ppu::new_empty_rom());
    let ppu = bus.ppu.handler();
    bus.register((0x2000, 0x3FFF), ppu);
    bus.register((0x4014, 0x4014), ppu);
    for idx in 0..256u16 {
        bus.memory[0x2000 + idx as usize] = idx as u8;
    }
    bus.write_byte(0x4014, 0x20);
    assert_eq!(bus.fault(), None);
    for idx in 0..256usize {
        assert_eq!(bus.ppu.borrow().oam_data[idx], idx as u8);
    }
}

#[test]
fn accesses_and_registrations_keep_the_mediator_flags() {
    let mut bus = MemoryBus::new();
    bus.ppu = Device::mediate(Ppu::new_empty_rom());
    let ppu = bus.ppu.handler();
    let pad = bus.pad.handler();
    bus.register((0x2000, 0x3FFF), ppu);
    bus.register((0x4014, 0x4014), ppu);
    bus.register((0x4016, 0x4017), pad);
    bus.write_byte(0x2003, 0x10);
    bus.write_byte(0x4014, 0x02);
    bus.write_word(0x0000, 0x1234);
    bus.read_byte(0x2002);
    bus.read_word(0x4016);
    assert!(bus.ppu.mediator);
    assert!(!bus.pad.mediator && !bus.apu.mediator && !bus.rom.mediator);
    assert_eq!(bus.handler_at(0x2000, 0), Some(ppu));
    assert_eq!(bus.fault(), None);
}

#[test]
fn oam_dma_starts_at_the_sprite_address_and_wraps() {
    let mut bus = MemoryBus::new();
    bus.ppu = Device::new(Ppu::new_empty_rom());
    let ppu = bus.ppu.handler();
    bus.register((0x4014, 0x4014), ppu);
    for idx in 0..256u16 {
        bus.write_byte(0x0300 + idx, idx as u8);
    }
    bus.ppu.borrow_mut().oam_addr_reg = 0x10;
    assert!(!bus.ppu.borrow().dma_enable);
    bus.write_byte(0x4014, 0x03);
    assert_eq!(bus.ppu.borrow().oam_addr_reg, 0x10);
    assert_eq!(bus.ppu.borrow().oam_data[0x10], 0);
    assert_eq!(bus.ppu.borrow().oam_data[0x11], 1);
    assert_eq!(bus.ppu.borrow().oam_data[0xFF], 0xEF);
    assert_eq!(bus.ppu.borrow().oam_data[0x00], 0xF0);
    assert_eq!(bus.ppu.borrow().oam_data[0x0F], 0xFF);
    assert!(bus.ppu.borrow_mut().dma_enable());
    assert!(!bus.ppu.borrow_mut().dma_enable());
    assert_eq!(bus.memory[0x4014], 0x03);
}

#[test]
fn oam_dma_copies_whichever_plain_page_is_named() {
    for page in [0x00u8, 0x02, 0x07, 0x23, 0x80, 0xFF] {
        let mut bus = MemoryBus::new();
        bus.ppu = Device::new(Ppu::new_empty_rom());
        let ppu = bus.ppu.handler();
        bus.register((0x4014, 0x4014), ppu);
        let base = (page as u16) << 8;
        for idx in 0..256u16 {
            bus.write_byte(base + idx, (idx as u8) ^ page ^ 0x5A);
        }
        bus.ppu.borrow_mut().oam_addr_reg = page;
        bus.write_byte(0x4014, page);
        assert_eq!(bus.fault(), None);
        assert_eq!(bus.ppu.borrow().oam_addr_reg, page);
        for idx in 0..256usize {
            let at = (page as usize + idx) % 256;
            assert_eq!(bus.ppu.borrow().oam_data[at], (idx as u8) ^ page ^ 0x5A);
        }
        assert_eq!(bus.memory[0x4014], page);
    }
}
