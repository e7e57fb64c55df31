use rustynes::cartridge::Mirroring;
use rustynes::device::{Device, IOHandler};
use rustynes::memory::{Bus, Fault, MemoryBus, MemoryRead, MemoryWrite};
use rustynes::ppu::addr::AddressRegister;
use rustynes::ppu::control::ControllRegister;
use rustynes::ppu::frame::Frame;
use rustynes::ppu::mask::MaskRegister;
use rustynes::ppu::render::Rect;
use rustynes::ppu::scroll::ScrollRegister;
use rustynes::ppu::status::StatusRegister;
use rustynes::ppu::{Ppu, TileSize};

#[test]
fn test_ppu_vram_writes() {
    let mut ppu = Ppu::new_empty_rom();
    ppu.addr_reg.update(0x23);
    ppu.addr_reg.update(0x05);
    ppu.write_data(0x66);

    assert_eq!(ppu.vram[0x0305], 0x66);
}

#[test]
fn test_ppu_vram_reads() {
    let mut ppu = Ppu::new_empty_rom();
    ppu.ctrl_reg.update(0);
    ppu.vram[0x0305] = 0x66;

    ppu.addr_reg.update(0x23);
    ppu.addr_reg.update(0x05);

    ppu.read_data(); //load_into_buffer
    assert_eq!(ppu.addr_reg.get(), 0x2306);
    assert_eq!(ppu.read_data(), 0x66);
}

#[test]
fn test_ppu_vram_reads_cross_page() {
    let mut ppu = Ppu::new_empty_rom();
    ppu.ctrl_reg.update(0);
    ppu.vram[0x01ff] = 0x66;
    ppu.vram[0x0200] = 0x77;

    ppu.addr_reg.update(0x21);
    ppu.addr_reg.update(0xff);

    ppu.read_data(); //load_into_buffer
    assert_eq!(ppu.read_data(), 0x66);
    assert_eq!(ppu.read_data(), 0x77);
}

#[test]
fn test_ppu_vram_reads_step_32() {
    let mut ppu = Ppu::new_empty_rom();
    ppu.ctrl_reg.update(0b100);
    ppu.vram[0x01ff] = 0x66;
    ppu.vram[0x01ff + 32] = 0x77;
    ppu.vram[0x01ff + 64] = 0x88;

    ppu.addr_reg.update(0x21);
    ppu.addr_reg.update(0xff);

    ppu.read_data(); //load_into_buffer
    assert_eq!(ppu.read_data(), 0x66);
    assert_eq!(ppu.read_data(), 0x77);
    assert_eq!(ppu.read_data(), 0x88);
}

#[test]
fn test_vram_horizontal_mirror() {
    let mut ppu = Ppu::new_empty_rom();
    ppu.addr_reg.update(0x24);
    ppu.addr_reg.update(0x05);

    ppu.write_data(0x66); //write to a

    ppu.addr_reg.update(0x28);
    ppu.addr_reg.update(0x05);

    ppu.write_data(0x77); //write to B

    ppu.addr_reg.update(0x20);
    ppu.addr_reg.update(0x05);

    ppu.read_data(); //load into buffer
    assert_eq!(ppu.read_data(), 0x66); //read from A

    ppu.addr_reg.update(0x2C);
    ppu.addr_reg.update(0x05);

    ppu.read_data(); //load into buffer
    assert_eq!(ppu.read_data(), 0x77); //read from b
}

#[test]
fn test_vram_vertical_mirror() {
    let mut ppu = Ppu::new(vec![0; 2048], Mirroring::Vertical, false);

    ppu.addr_reg.update(0x20);
    ppu.addr_reg.update(0x05);

    ppu.write_data(0x66); //write to A

    ppu.addr_reg.update(0x2C);
    ppu.addr_reg.update(0x05);

    ppu.write_data(0x77); //write to b

    ppu.addr_reg.update(0x28);
    ppu.addr_reg.update(0x05);

    ppu.read_data(); //load into buffer
    assert_eq!(ppu.read_data(), 0x66); //read from a

    ppu.addr_reg.update(0x24);
    ppu.addr_reg.update(0x05);

    ppu.read_data(); //load into buffer
    assert_eq!(ppu.read_data(), 0x77); //read from B
}

#[test]
fn test_read_status_resets_latch() {
    let mut ppu = Ppu::new_empty_rom();
    ppu.vram[0x0305] = 0x66;

    ppu.addr_reg.update(0x21);
    ppu.addr_reg.update(0x23);
    ppu.addr_reg.update(0x05);

    ppu.read_data(); //load_into_buffer
    assert_ne!(ppu.read_data(), 0x66);

    ppu.read_status();

    ppu.addr_reg.update(0x23);
    ppu.addr_reg.update(0x05);

    ppu.read_data(); //load_into_buffer
    assert_eq!(ppu.read_data(), 0x66);
}

#[test]
fn test_ppu_vram_mirroring() {
    let mut ppu = Ppu::new_empty_rom();
    ppu.ctrl_reg.update(0);
    ppu.vram[0x0305] = 0x66;

    ppu.addr_reg.update(0x63); //0x6305 -> 0x2305
    ppu.addr_reg.update(0x05);

    ppu.read_data(); //load into_buffer
    assert_eq!(ppu.read_data(), 0x66);
}

#[test]
fn test_read_status_resets_vblank() {
    let mut ppu = Ppu::new_empty_rom();
    ppu.status_reg.set_vblank(true);

    let status = ppu.read_status();

    assert_eq!(status >> 7, 1);
    assert_eq!(ppu.status_reg.get() >> 7, 0);
}

#[test]
fn test_oam_dma() {
    let mut mmu = MemoryBus::new();
    mmu.ppu = Device::new(Ppu::new_empty_rom());
    let handler = mmu.ppu.handler();

    mmu.register((0x4014, 0x4014), handler);

    const DMA_START: u16 = 0x2300;
    const DMA_START_BYTE: u8 = 0x23;

    mmu.ppu.borrow_mut().oam_addr_reg = 0x00;

    let mut data = [0x66; 256];
    data[0] = 0x77;
    data[255] = 0x88;

    for (idx, &d) in data.iter().enumerate() {
        mmu.write_byte(DMA_START + idx as u16, d);
    }

    mmu.write_byte(0x4014, DMA_START_BYTE);

    for (data, memory) in data.iter().zip(mmu.ppu.borrow_mut().oam_data.iter()) {
        assert_eq!(data, memory);
    }
    assert_eq!(mmu.ppu.borrow_mut().oam_addr_reg, 0);
}

#[test]
fn address_register_takes_two_bytes_high_first() {
    let mut reg = AddressRegister::new();
    assert_eq!(reg.get(), 0);
    reg.update(0xFF);
    assert_eq!(reg.get(), 0x3F00);
    reg.update(0xAB);
    assert_eq!(reg.get(), 0x3FAB);
    reg.increment(0x60);
    assert_eq!(reg.get(), 0x000B);
    reg.update(0x12);
    reg.reset_latch();
    reg.update(0x21);
    assert_eq!(reg.get(), 0x210B);
    reg.set(0x8000);
    assert_eq!(reg.get(), 0x8000);
    reg.increment(1);
    assert_eq!(reg.get(), 0x0001);
}

#[test]
fn data_read_is_delayed_by_one() {
    // $2006 = hi, $2006 = lo, then two reads of $2007.
    let mut mmu = MemoryBus::new();
    mmu.ppu = Device::new(Ppu::new_empty_rom());
    let handler = mmu.ppu.handler();
    mmu.register((0x2000, 0x3FFF), handler);
    mmu.ppu.borrow_mut().vram[0x0123] = 0x9A;
    mmu.ppu.borrow_mut().vram[0x0124] = 0xBC;
    mmu.ppu.borrow_mut().internal_data_buf = 0x11;

    mmu.write_byte(0x2006, 0xE1); // 0xE123 & 0x3FFF = 0x2123
    mmu.write_byte(0x2006, 0x23);
    assert_eq!(mmu.read_byte(0x2007), 0x11);
    assert_eq!(mmu.read_byte(0x2007), 0x9A);
    assert_eq!(mmu.ppu.borrow().addr_reg.get(), 0x2125);
    assert_eq!(mmu.ppu.borrow().internal_data_buf, 0xBC);
    assert_eq!(mmu.fault(), None);
}

#[test]
fn nametables_repeat_from_0x3000() {
    let mut ppu = Ppu::new_empty_rom();
    ppu.addr_reg.update(0x30);
    ppu.addr_reg.update(0x05);
    ppu.write_data(0x66);
    assert_eq!(ppu.vram[0x0005], 0x66);
    assert_eq!(ppu.addr_reg.get(), 0x3006);

    ppu.addr_reg.update(0x20);
    ppu.addr_reg.update(0x05);
    ppu.read_data();
    assert_eq!(ppu.read_data(), 0x66);

    ppu.vram[0x0700] = 0x77;
    ppu.addr_reg.update(0x3E);
    ppu.addr_reg.update(0xFF);
    ppu.read_data();
    ppu.addr_reg.update(0x3B);
    ppu.addr_reg.update(0x00);
    ppu.read_data();
    assert_eq!(ppu.read_data(), 0x77);
    assert_eq!(ppu.data_fault(false), None);
}

#[test]
fn palette_entries_alias_in_fours() {
    for k in 0..4u8 {
        let mut ppu = Ppu::new_empty_rom();
        ppu.addr_reg.update(0x3F);
        ppu.addr_reg.update(0x10 + 4 * k);
        ppu.write_data(0x20 + k);
        assert_eq!(ppu.palette_table[(4 * k) as usize], 0x20 + k);
        assert_eq!(ppu.palette_table[(0x10 + 4 * k) as usize], 0x20 + k);
        ppu.addr_reg.update(0x3F);
        ppu.addr_reg.update(4 * k);
        assert_eq!(ppu.read_data(), 0x20 + k);

        ppu.addr_reg.update(0x3F);
        ppu.addr_reg.update(4 * k);
        ppu.write_data(0x30 + k);
        ppu.addr_reg.update(0x3F);
        ppu.addr_reg.update(0x10 + 4 * k);
        assert_eq!(ppu.read_data(), 0x30 + k);
    }
}

#[test]
fn palette_is_mirrored_every_32_and_other_entries_stand_alone() {
    let mut ppu = Ppu::new_empty_rom();
    ppu.addr_reg.update(0x3F);
    ppu.addr_reg.update(0x21);
    ppu.write_data(0x15);
    assert_eq!(ppu.palette_table[0x01], 0x15);
    assert_eq!(ppu.palette_table[0x11], 0x00);

    ppu.addr_reg.update(0x3F);
    ppu.addr_reg.update(0xF0);
    ppu.write_data(0x2A);
    assert_eq!(ppu.palette_table[0x10], 0x2A);
    assert_eq!(ppu.palette_table[0x00], 0x2A);

    ppu.addr_reg.update(0x3F);
    ppu.addr_reg.update(0xE1);
    assert_eq!(ppu.read_data(), 0x15);
}

#[test]
fn nametable_addresses_fold_by_mirroring() {
    let horizontal = Ppu::new(vec![0; 0x2000], Mirroring::Horizontal, false);
    assert_eq!(horizontal.mirror_vram_addr(0x2000), 0x0000);
    assert_eq!(horizontal.mirror_vram_addr(0x2400), 0x0000);
    assert_eq!(horizontal.mirror_vram_addr(0x2800), 0x0400);
    assert_eq!(horizontal.mirror_vram_addr(0x2C00), 0x0400);
    assert_eq!(horizontal.mirror_vram_addr(0x27FF), 0x03FF);
    assert_eq!(horizontal.mirror_vram_addr(0x3405), 0x0005);

    let vertical = Ppu::new(vec![0; 0x2000], Mirroring::Vertical, false);
    assert_eq!(vertical.mirror_vram_addr(0x2000), 0x0000);
    assert_eq!(vertical.mirror_vram_addr(0x2400), 0x0400);
    assert_eq!(vertical.mirror_vram_addr(0x2800), 0x0000);
    assert_eq!(vertical.mirror_vram_addr(0x2C00), 0x0400);
    assert_eq!(vertical.mirror_vram_addr(0x2FFF), 0x07FF);

    let four = Ppu::new(vec![0; 0x2000], Mirroring::FourScreen, false);
    assert_eq!(four.mirror_vram_addr(0x2C05), 0x0C05);
    let mut four = four;
    four.addr_reg.set(0x2C05);
    assert_eq!(four.data_fault(false), Some(Fault::OutOfRange(0x2C05)));
}

#[test]
fn control_register_fields() {
    let mut ctrl = ControllRegister::new();
    assert_eq!(ctrl.bits(), 0);
    assert_eq!(ctrl.vram_addr_increment(), 1);
    assert_eq!(ctrl.sprite_pattern_addr(), 0);
    assert_eq!(ctrl.background_pattern_addr(), 0);
    assert_eq!(ctrl.sprite_size(), TileSize::Tile8);
    assert_eq!(ctrl.master_slave_select(), 0);
    assert!(!ctrl.generate_vblank_nmi());
    ctrl.update(0xFF);
    assert_eq!(ctrl.vram_addr_increment(), 32);
    assert_eq!(ctrl.sprite_pattern_addr(), 0x1000);
    assert_eq!(ctrl.background_pattern_addr(), 0x1000);
    assert_eq!(ctrl.sprite_size(), TileSize::Tile16);
    assert_eq!(ctrl.master_slave_select(), 1);
    assert!(ctrl.generate_vblank_nmi());
    assert!(ctrl.contains(ControllRegister::GENERATE_NMI | ControllRegister::SPRITE_SIZE));

    for (bits, vertical, horizontal, four) in
        [(0u8, 0u16, 0u16, 0u16), (1, 0x400, 0, 0x400), (2, 0, 0x400, 0x800), (3, 0x400, 0x400, 0xC00)]
    {
        ctrl.update(bits | 0xFC);
        assert_eq!(ctrl.nametable(Mirroring::Vertical), vertical);
        assert_eq!(ctrl.nametable(Mirroring::Horizontal), horizontal);
        assert_eq!(ctrl.nametable(Mirroring::FourScreen), four);
    }
}

#[test]
fn scroll_and_mask_and_status_registers() {
    let mut scroll = ScrollRegister::new();
    scroll.update(0x12);
    scroll.update(0x34);
    assert_eq!((scroll.x, scroll.y), (0x12, 0x34));
    scroll.update(0x56);
    scroll.reset_latch();
    scroll.update(0x78);
    assert_eq!((scroll.x, scroll.y), (0x78, 0x34));

    let mut mask = MaskRegister::new();
    assert!(!mask.contains(MaskRegister::SPRITE));
    mask.update(0x18);
    assert!(mask.contains(MaskRegister::SPRITE));
    assert!(mask.contains(MaskRegister::BACKGROUND));
    assert!(!mask.contains(MaskRegister::GRAYSCALE));
    assert_eq!(mask.bits(), 0x18);

    let mut status = StatusRegister::new();
    assert_eq!(status.get(), 0);
    status.update(0xFF);
    assert_eq!(status.bus(), 0x1F);
    assert!(status.sprite_overflow() && status.sprite_0_hit() && status.vblank());
    status.set_vblank(false);
    assert_eq!(status.get(), 0x7F);
    status.set_sprite_0_hit(false);
    assert_eq!(status.get(), 0x3F);
    status.set_vblank(true);
    status.set_sprite_0_hit(true);
    assert_eq!(status.get(), 0xFF);
}

#[test]
fn frame_pixels() {
    let mut frame = Frame::new();
    assert_eq!(frame.data.len(), 256 * 240);
    frame.set_pixel(3, 2, 9);
    assert_eq!(frame.data[2 * 256 + 3], 9);
    frame.set_pixel(255, 239, 7);
    assert_eq!(frame.data[256 * 240 - 1], 7);
    // below the last row: dropped
    frame.set_pixel(0, 240, 5);
    // past the last column: lands in the next row
    frame.set_pixel(256, 0, 4);
    assert_eq!(frame.data[256], 4);
    assert_eq!(frame.data.iter().filter(|&&p| p != 0).count(), 3);

    let rect = Rect::new(1, 2, 3, 4);
    assert!(rect.is_inside(1, 2));
    assert!(rect.is_inside(2, 3));
    assert!(!rect.is_inside(3, 3));
    assert!(!rect.is_inside(2, 4));
    assert!(!rect.is_inside(0, 2));
    assert!(!rect.is_inside(1, 1));
}

#[test]
fn vblank_race_on_status_reads() {
    let mut ppu = Ppu::new_empty_rom();
    ppu.status_reg.update(0x80 | 0x40 | 0x05);
    ppu.scanline = 240;
    ppu.cycles = 340; // dot 82180
    assert_eq!(ppu.read(0x2002), Ok(MemoryRead::Value(0x45)));
    assert!(ppu.ignore_nmi);
    assert!(!ppu.status_reg.vblank());

    for cycles in [0usize, 1] {
        let mut ppu = Ppu::new_empty_rom();
        ppu.status_reg.update(0x05);
        ppu.scanline = 241;
        ppu.cycles = cycles; // dots 82181, 82182
        assert_eq!(ppu.read(0x2002), Ok(MemoryRead::Value(0x85)));
        assert!(ppu.ignore_nmi);
        assert!(!ppu.status_reg.vblank());
    }

    // the NMI that entering line 241 has raised is taken back, and stays
    // away for the rest of the frame
    for extra in [0u16, 1] {
        let mut ppu = Ppu::new_empty_rom();
        ppu.ctrl_reg.update(0x80);
        ppu.scanline = 240;
        ppu.cycles = 338 + extra as usize;
        ppu.step(1);
        assert_eq!(ppu.scanline(), 241);
        assert_eq!(ppu.cycle(), extra as usize);
        assert!(ppu.read_nmi());
        assert_eq!(ppu.read(0x2002), Ok(MemoryRead::Value(0x80)));
        assert!(!ppu.read_nmi());
        while ppu.scanline() != 0 {
            ppu.step(1);
            assert!(!ppu.read_nmi());
        }
    }

    let mut ppu = Ppu::new_empty_rom();
    ppu.status_reg.update(0x80);
    ppu.scanline = 241;
    ppu.cycles = 2; // dot 82183
    assert_eq!(ppu.read(0x3FFA), Ok(MemoryRead::Value(0x80)));
    assert!(!ppu.ignore_nmi);
    assert!(!ppu.status_reg.vblank());
}

#[test]
fn a_status_read_on_the_race_calls_the_nmi_off() {
    let mut ppu = Ppu::new_empty_rom();
    ppu.ctrl_reg.update(0x80);
    ppu.scanline = 240;
    ppu.cycles = 340;
    ppu.read(0x2002).unwrap();
    assert!(!ppu.step(1));
    assert_eq!(ppu.scanline(), 241);
    assert_eq!(ppu.cycle(), 2);
    assert!(!ppu.status_reg.vblank());
    assert!(!ppu.read_nmi());
}

#[test]
fn step_timing() {
    let mut ppu = Ppu::new_empty_rom();
    ppu.ctrl_reg.update(0x80);
    assert!(!ppu.step(113)); // 339 dots
    assert_eq!((ppu.scanline(), ppu.cycle()), (0, 339));
    assert!(!ppu.step(1));
    assert_eq!((ppu.scanline(), ppu.cycle()), (1, 1));

    ppu.scanline = 240;
    ppu.cycles = 338;
    assert!(!ppu.step(1));
    assert_eq!((ppu.scanline(), ppu.cycle()), (241, 0));
    assert!(ppu.status_reg.vblank());
    assert!(ppu.read_nmi());
    assert!(ppu.nmi());
    assert!(!ppu.nmi());

    // end of an even frame
    ppu.scanline = 261;
    ppu.cycles = 340;
    ppu.mask_reg.update(0x08);
    assert!(ppu.step(1));
    assert_eq!((ppu.scanline(), ppu.cycle()), (0, 2));
    assert!(!ppu.status_reg.vblank());
    assert!(ppu.frame_tick);

    // end of an odd frame: one dot is skipped while the background is shown
    ppu.scanline = 261;
    ppu.cycles = 340;
    assert!(ppu.step(1));
    assert_eq!((ppu.scanline(), ppu.cycle()), (0, 3));
    assert!(!ppu.frame_tick);

    // nothing shown: no dot is skipped
    ppu.frame_tick = true;
    ppu.mask_reg.update(0x00);
    ppu.scanline = 261;
    ppu.cycles = 340;
    assert!(ppu.step(1));
    assert_eq!((ppu.scanline(), ppu.cycle()), (0, 2));
}

#[test]
fn a_long_step_takes_every_scanline_off_the_counter() {
    let mut ppu = Ppu::new_empty_rom();
    ppu.scanline = 260;
    assert!(ppu.step(341)); // three scanlines
    assert_eq!((ppu.scanline(), ppu.cycle()), (1, 0));
}

#[test]
fn switching_nmi_on_during_vblank_raises_it() {
    let mut ppu = Ppu::new_empty_rom();
    ppu.status_reg.set_vblank(true);
    assert_eq!(ppu.write(0x2000, 0x80), Ok(MemoryWrite::Value(0x80)));
    assert!(ppu.read_nmi());
    let mut ppu = Ppu::new_empty_rom();
    ppu.write(0x2000, 0x80).unwrap();
    assert!(!ppu.read_nmi());
}

#[test]
fn sprite_zero_hit() {
    let mut ppu = Ppu::new_empty_rom();
    ppu.mask_reg.update(0x10);
    ppu.oam_data[0] = 30;
    ppu.oam_data[3] = 200;
    ppu.scanline = 30;
    assert!(ppu.is_sprite_0_hit(200));
    assert!(!ppu.is_sprite_0_hit(199));
    ppu.cycles = 340;
    ppu.step(1);
    assert!(ppu.status_reg.sprite_0_hit());
    ppu.mask_reg.update(0x00);
    ppu.scanline = 30;
    assert!(!ppu.is_sprite_0_hit(340));
}

fn solid_tile(chr: &mut [u8], tile: usize, color: u8) {
    for row in 0..8 {
        chr[tile * 16 + row] = if color & 1 != 0 { 0xFF } else { 0 };
        chr[tile * 16 + row + 8] = if color & 2 != 0 { 0xFF } else { 0 };
    }
}

#[test]
fn render_clears_to_the_backdrop() {
    let mut ppu = Ppu::new(vec![0; 0x2000], Mirroring::Horizontal, false);
    ppu.palette_table[0] = 0x21;
    ppu.frame.data[5] = 9;
    let frame = ppu.render();
    assert!(frame.data.iter().all(|&p| p == 0x21));
}

#[test]
fn render_with_short_character_memory() {
    // both layers off: nothing is read
    let mut ppu = Ppu::new(Vec::new(), Mirroring::Horizontal, false);
    ppu.palette_table[0] = 0x07;
    assert!(ppu.render().data.iter().all(|&p| p == 0x07));

    // both layers on: every tile drawn is tile 0, which 2 KiB hold
    let mut ppu = Ppu::new_empty_rom();
    ppu.mask_reg.update(0x18);
    ppu.palette_table[0] = 0x09;
    ppu.chr_rom[0] = 0x80;
    ppu.oam_data[0] = 16;
    let frame = ppu.render();
    // the background shows the one pixel of tile 0 in every tile
    assert_eq!(frame.data[0], 0x00);
    assert_eq!(frame.data[1], 0x09);
    assert_eq!(frame.data[8], 0x00);
    assert_eq!(frame.data[200 * 256 + 16], 0x00);
    assert_eq!(frame.data[200 * 256 + 17], 0x09);
}

#[test]
fn render_background_tile_with_attribute_palette() {
    let mut chr = vec![0u8; 0x2000];
    solid_tile(&mut chr, 1, 3);
    // tile 2: only the leftmost column of the top row, colour 1
    chr[2 * 16] = 0x80;
    let mut ppu = Ppu::new(chr, Mirroring::Horizontal, false);
    ppu.mask_reg.update(0x08);
    ppu.palette_table[0] = 0x0F;
    ppu.palette_table[1] = 0x01;
    ppu.palette_table[3] = 0x03;
    ppu.palette_table[4 * 2 + 3] = 0x2B;
    // tile (2, 0) is tile 1, in the top right quadrant of its block
    ppu.vram[2] = 1;
    ppu.vram[0x3C0] = 0b0000_1000;
    // tile (0, 1) is tile 2, in the top left quadrant
    ppu.vram[32] = 2;
    let frame = ppu.render();
    assert_eq!(frame.data[16], 0x2B);
    assert_eq!(frame.data[7 * 256 + 23], 0x2B);
    assert_eq!(frame.data[15], 0x0F);
    assert_eq!(frame.data[8 * 256 + 16], 0x0F);
    assert_eq!(frame.data[8 * 256], 0x01);
    assert_eq!(frame.data[8 * 256 + 1], 0x0F);
    assert_eq!(frame.data[9 * 256], 0x0F);
}

#[test]
fn render_scrolls_the_background() {
    let mut chr = vec![0u8; 0x2000];
    solid_tile(&mut chr, 1, 1);
    solid_tile(&mut chr, 2, 2);
    let mut ppu = Ppu::new(chr, Mirroring::Vertical, false);
    ppu.mask_reg.update(0x08);
    ppu.palette_table[1] = 0x11;
    ppu.palette_table[2] = 0x12;
    ppu.vram[1] = 1; // first nametable, tile (1, 0)
    ppu.vram[0x400] = 2; // second nametable, tile (0, 0)
    ppu.scroll_reg.update(8);
    ppu.scroll_reg.update(0);
    let frame = ppu.render();
    // the first table moved left by eight pixels
    assert_eq!(frame.data[0], 0x11);
    assert_eq!(frame.data[7], 0x11);
    assert_eq!(frame.data[8], 0x00);
    // the second table fills the strip on the right
    assert_eq!(frame.data[248], 0x12);
    assert_eq!(frame.data[255], 0x12);
    assert_eq!(frame.data[247], 0x00);
}

#[test]
fn render_sprites_in_front_of_and_behind_the_background() {
    let mut chr = vec![0u8; 0x2000];
    solid_tile(&mut chr, 1, 1);
    solid_tile(&mut chr, 2, 2);
    // tile 3: only the leftmost column of the top row, colour 3
    chr[3 * 16] = 0x80;
    chr[3 * 16 + 8] = 0x80;
    let mut ppu = Ppu::new(chr, Mirroring::Horizontal, false);
    ppu.mask_reg.update(0x18);
    ppu.palette_table[0] = 0x0F;
    ppu.palette_table[1] = 0x01;
    ppu.palette_table[0x11] = 0x31;
    ppu.palette_table[0x12] = 0x32;
    ppu.palette_table[0x17] = 0x37;
    for sprite in 1..64 {
        ppu.oam_data[sprite * 4] = 250; // off the picture
    }
    // sprite 0 is blank and sits at the top, so that only the first eight
    // rows are wiped and drawn again
    // background tile 1 at tiles (0, 20) and (1, 21)
    ppu.vram[20 * 32] = 1;
    ppu.vram[21 * 32 + 1] = 1;
    // sprite 1 in front, over the background tile
    ppu.oam_data[4] = 160;
    ppu.oam_data[5] = 2;
    ppu.oam_data[6] = 0x00;
    ppu.oam_data[7] = 0;
    // sprite 2 behind, half over the background tile
    ppu.oam_data[8] = 164;
    ppu.oam_data[9] = 1;
    ppu.oam_data[10] = 0x20;
    ppu.oam_data[11] = 4;
    // sprite 3 in front, palette 1, flipped both ways
    ppu.oam_data[12] = 100;
    ppu.oam_data[13] = 3;
    ppu.oam_data[14] = 0xC1;
    ppu.oam_data[15] = 50;
    let frame = ppu.render();
    // in front: the sprite covers the background
    assert_eq!(frame.data[160 * 256], 0x32);
    assert_eq!(frame.data[167 * 256 + 7], 0x32);
    assert_eq!(frame.data[164 * 256 + 4], 0x32);
    // behind: the background covers the sprite
    assert_eq!(frame.data[168 * 256 + 8], 0x01);
    assert_eq!(frame.data[171 * 256 + 11], 0x01);
    assert_eq!(frame.data[172 * 256 + 11], 0x01);
    // and the sprite shows where the background is transparent
    assert_eq!(frame.data[168 * 256 + 7], 0x31);
    assert_eq!(frame.data[168 * 256 + 4], 0x31);
    assert_eq!(frame.data[164 * 256 + 8], 0x31);
    assert_eq!(frame.data[172 * 256 + 7], 0x0F);
    // flipped: the one pixel lands in the bottom right corner
    assert_eq!(frame.data[107 * 256 + 57], 0x37);
    assert_eq!(frame.data[100 * 256 + 50], 0x0F);
    assert_eq!(frame.data[200 * 256], 0x0F);
}

#[test]
fn palettes() {
    let mut ppu = Ppu::new_empty_rom();
    for i in 0..32 {
        ppu.palette_table[i] = i as u8 + 0x20;
    }
    assert_eq!(ppu.sprite_palette(0), [0, 0x31, 0x32, 0x33]);
    assert_eq!(ppu.sprite_palette(3), [0, 0x3D, 0x3E, 0x3F]);
    ppu.vram[0x3C0 + 9] = 0b11_10_01_00;
    assert_eq!(ppu.bg_palette(0, 4, 4), [0x20, 0x21, 0x22, 0x23]);
    assert_eq!(ppu.bg_palette(0, 6, 5), [0x20, 0x25, 0x26, 0x27]);
    assert_eq!(ppu.bg_palette(0, 5, 6), [0x20, 0x29, 0x2A, 0x2B]);
    assert_eq!(ppu.bg_palette(0, 7, 7), [0x20, 0x2D, 0x2E, 0x2F]);
    ppu.vram[0x400 + 0x3C0] = 0b0000_0001;
    assert_eq!(ppu.bg_palette(0x400, 0, 0), [0x20, 0x25, 0x26, 0x27]);
}
