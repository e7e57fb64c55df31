use vstd::prelude::*;
use crate::bits::lemma_fold_nametable_address;
use crate::cartridge::Mirroring;
use crate::device::{DeviceKind, IOHandler};
use crate::memory::{Fault, MemoryRead, MemoryWrite};
use crate::ppu::addr::AddressRegister;
use crate::ppu::control::ControllRegister;
use crate::ppu::frame::Frame;
use crate::ppu::mask::MaskRegister;
use crate::ppu::scroll::ScrollRegister;
use crate::ppu::status::StatusRegister;

pub mod addr;
pub mod control;
pub mod frame;
pub mod mask;
pub mod render;
pub mod scroll;
pub mod status;

verus! {

/// The two sprite heights.
#[derive(Clone, Copy, PartialEq, Eq, Structural, Debug)]
pub enum TileSize {
    Tile8,
    Tile16,
}

/// The pattern bytes of one tile: 16 for an 8 x 8 tile, 32 for an 8 x 16 one.
pub enum Tile {
    Tile8(Vec<u8>),
    Tile16(Vec<u8>),
}

impl Tile {
    /// The tile's pattern bytes.
    pub open spec fn bytes(self) -> Seq<u8> {
        match self {
            Tile::Tile8(v) => v@,
            Tile::Tile16(v) => v@,
        }
    }

    /// The size this tile was cut for.
    pub open spec fn size(self) -> TileSize {
        match self {
            Tile::Tile8(_) => TileSize::Tile8,
            Tile::Tile16(_) => TileSize::Tile16,
        }
    }
}

impl TileSize {
    /// How many pattern bytes a tile of this size takes.
    pub open spec fn byte_len(self) -> int {
        match self {
            TileSize::Tile8 => 16,
            TileSize::Tile16 => 32,
        }
    }
}

/// The picture processor.
pub struct Ppu {
    pub chr_rom: Vec<u8>,
    pub palette_table: [u8; 32],
    pub vram: [u8; 2048],
    pub oam_data: [u8; 256],
    pub mirroring: Mirroring,
    pub addr_reg: AddressRegister,
    pub ctrl_reg: ControllRegister,
    pub mask_reg: MaskRegister,
    pub status_reg: StatusRegister,
    pub scroll_reg: ScrollRegister,
    pub oam_addr_reg: u8,
    pub internal_data_buf: u8,
    pub cycles: usize,
    pub scanline: u16,
    pub nmi_interrupt: bool,
    pub chr_ram: bool,
    pub dma_enable: bool,
    pub frame: Frame,
    pub frame_tick: bool,
    pub ignore_nmi: bool,
}

/// What the picture processor holds.
pub struct PpuState {
    pub chr_rom: Seq<u8>,
    pub palette_table: Seq<u8>,
    pub vram: Seq<u8>,
    pub oam_data: Seq<u8>,
    pub mirroring: Mirroring,
    pub addr_reg: AddressRegister,
    pub ctrl_reg: ControllRegister,
    pub mask_reg: MaskRegister,
    pub status_reg: StatusRegister,
    pub scroll_reg: ScrollRegister,
    pub oam_addr_reg: u8,
    pub internal_data_buf: u8,
    pub cycles: usize,
    pub scanline: u16,
    pub nmi_interrupt: bool,
    pub chr_ram: bool,
    pub dma_enable: bool,
    pub frame: Seq<u8>,
    pub frame_tick: bool,
    pub ignore_nmi: bool,
}

impl View for Ppu {
    type V = PpuState;

    open spec fn view(&self) -> PpuState {
        PpuState {
            chr_rom: self.chr_rom@,
            palette_table: self.palette_table@,
            vram: self.vram@,
            oam_data: self.oam_data@,
            mirroring: self.mirroring,
            addr_reg: self.addr_reg,
            ctrl_reg: self.ctrl_reg,
            mask_reg: self.mask_reg,
            status_reg: self.status_reg,
            scroll_reg: self.scroll_reg,
            oam_addr_reg: self.oam_addr_reg,
            internal_data_buf: self.internal_data_buf,
            cycles: self.cycles,
            scanline: self.scanline,
            nmi_interrupt: self.nmi_interrupt,
            chr_ram: self.chr_ram,
            dma_enable: self.dma_enable,
            frame: self.frame.data@,
            frame_tick: self.frame_tick,
            ignore_nmi: self.ignore_nmi,
        }
    }
}

/// Where in the two physical nametables a nametable address lands. The
/// address picks one of four logical tables of 0x400 bytes; under vertical
/// mirroring tables 2 and 3 fall onto 0 and 1, under horizontal mirroring
/// tables 1 and 2 fall back by one table and table 3 by two, and with four
/// screens nothing is folded.
pub open spec fn nametable_offset(mirroring: Mirroring, address: u16) -> int {
    let vram_idx = (address % 0x1000) as int;
    let table = vram_idx / 0x400;
    match mirroring {
        Mirroring::Vertical => if table >= 2 {
            vram_idx - 0x800
        } else {
            vram_idx
        },
        Mirroring::Horizontal => if table == 1 || table == 2 {
            vram_idx - 0x400
        } else if table == 3 {
            vram_idx - 0x800
        } else {
            vram_idx
        },
        Mirroring::FourScreen => vram_idx,
    }
}

/// The palette entry that shares its storage with entry `index`: each entry
/// that is a multiple of four has a twin sixteen entries away.
pub open spec fn palette_twin(index: int) -> int {
    if index % 4 == 0 {
        (index + 0x10) % 0x20
    } else {
        index
    }
}

impl PpuState {
    /// Dots are below 341 and scanlines below 262.
    pub open spec fn wf(self) -> bool {
        self.cycles < 341 && self.scanline < 262
    }

    /// The processor stands at the same dot as `other` and has as much
    /// character memory.
    pub open spec fn clocked_like(self, other: PpuState) -> bool {
        self.cycles == other.cycles && self.scanline == other.scanline && self.chr_rom.len()
            == other.chr_rom.len()
    }

    /// Why the data port cannot be used where the address register points,
    /// if it cannot: character ROM is not written, and the storage behind
    /// the address must reach that far.
    pub open spec fn data_fault(self, write: bool) -> Option<Fault> {
        let addr = self.addr_reg.value;
        if addr < 0x2000 {
            if write && !self.chr_ram {
                Some(Fault::ReadOnlyMemory(addr))
            } else if addr >= self.chr_rom.len() {
                Some(Fault::OutOfRange(addr))
            } else {
                None
            }
        } else if addr < 0x3F00 {
            if nametable_offset(self.mirroring, addr) >= 2048 {
                Some(Fault::OutOfRange(addr))
            } else {
                None
            }
        } else if addr < 0x4000 {
            if !write && nametable_offset(self.mirroring, (addr - 0x1000) as u16) >= 2048 {
                Some(Fault::OutOfRange(addr))
            } else {
                None
            }
        } else {
            Some(Fault::OutOfRange(addr))
        }
    }

    /// The byte that a read of the data port returns, and the processor
    /// after it. The address moves on by the control register's increment.
    /// Below the palette the read returns the buffer and refills it from the
    /// address, where 0x3000..0x3F00 repeats the nametables; in the palette
    /// it returns the entry at once, and the buffer takes the nametable byte
    /// that lies under it.
    pub open spec fn read_data(self) -> (u8, PpuState) {
        let addr = self.addr_reg.value;
        let next = PpuState {
            addr_reg: self.addr_reg.incremented(self.ctrl_reg.increment()),
            ..self
        };
        if addr < 0x2000 {
            (
                self.internal_data_buf,
                PpuState { internal_data_buf: self.chr_rom[addr as int], ..next },
            )
        } else if addr < 0x3F00 {
            (
                self.internal_data_buf,
                PpuState {
                    internal_data_buf: self.vram[nametable_offset(self.mirroring, addr)],
                    ..next
                },
            )
        } else {
            (
                self.palette_table[(addr - 0x3F00) % 0x20],
                PpuState {
                    internal_data_buf: self.vram[nametable_offset(
                        self.mirroring,
                        (addr - 0x1000) as u16,
                    )],
                    ..next
                },
            )
        }
    }

    /// The processor after a write to the data port. The byte goes to
    /// character RAM, to the nametables or to the palette, where an entry
    /// and its twin change together; the address moves on by the control
    /// register's increment.
    pub open spec fn write_data(self, value: u8) -> PpuState {
        let addr = self.addr_reg.value;
        let next = PpuState {
            addr_reg: self.addr_reg.incremented(self.ctrl_reg.increment()),
            ..self
        };
        if addr < 0x2000 {
            PpuState { chr_rom: self.chr_rom.update(addr as int, value), ..next }
        } else if addr < 0x3F00 {
            PpuState {
                vram: self.vram.update(nametable_offset(self.mirroring, addr), value),
                ..next
            }
        } else {
            let index = (addr - 0x3F00) % 0x20;
            PpuState {
                palette_table: self.palette_table.update(palette_twin(index), value).update(
                    index,
                    value,
                ),
                ..next
            }
        }
    }

    /// The status byte, and the processor after it was read: VBlank is
    /// cleared and both write latches are reset.
    pub open spec fn read_status(self) -> (u8, PpuState) {
        (
            self.status_reg.0,
            PpuState {
                status_reg: self.status_reg.with_vblank(false),
                addr_reg: AddressRegister { hi_ptr: true, ..self.addr_reg },
                scroll_reg: ScrollRegister { toggle: false, ..self.scroll_reg },
                ..self
            },
        )
    }

    /// The dot of the frame that the processor stands at.
    pub open spec fn dot(self) -> int {
        self.scanline * 341 + self.cycles
    }

    /// The answer to a bus read of the status register, and the processor
    /// after it. One dot before VBlank is set the byte shows bit 7 clear, on
    /// the dot itself and the one after it shows bit 7 set; in all three
    /// cases this frame's NMI is called off, and one that was raised on the
    /// dot itself is taken back. Elsewhere the byte is the status as it is.
    pub open spec fn read_status_port(self) -> (u8, PpuState) {
        let (status, next) = self.read_status();
        if self.dot() == 82181 || self.dot() == 82182 {
            (status | 0b1000_0000, PpuState { ignore_nmi: true, nmi_interrupt: false, ..next })
        } else if self.dot() == 82180 {
            (status & 0b0111_1111, PpuState { ignore_nmi: true, ..next })
        } else {
            (status, next)
        }
    }

    /// The answer to a bus read, and the processor after it. In
    /// 0x2000..0x4000 the eight registers repeat: 2 is the status, 4 the
    /// sprite byte under the sprite address, 7 the data port; the others
    /// cannot be read. Outside that range the processor passes.
    pub open spec fn read(self, address: u16) -> (Result<MemoryRead, Fault>, PpuState) {
        if 0x2000 <= address < 0x4000 {
            let register = address % 8;
            if register == 2 {
                let (value, next) = self.read_status_port();
                (Ok(MemoryRead::Value(value)), next)
            } else if register == 4 {
                (Ok(MemoryRead::Value(self.oam_data[self.oam_addr_reg as int])), self)
            } else if register == 7 {
                match self.data_fault(false) {
                    Some(fault) => (Err(fault), self),
                    None => {
                        let (value, next) = self.read_data();
                        (Ok(MemoryRead::Value(value)), next)
                    },
                }
            } else {
                (Err(Fault::WriteOnlyRegister(address)), self)
            }
        } else {
            (Ok(MemoryRead::Pass), self)
        }
    }

    /// The processor after one byte was stored under the sprite address,
    /// which moves on by one and wraps.
    pub open spec fn oam_stored(self, value: u8) -> PpuState {
        PpuState {
            oam_data: self.oam_data.update(self.oam_addr_reg as int, value),
            oam_addr_reg: if self.oam_addr_reg == 255 {
                0u8
            } else {
                (self.oam_addr_reg + 1) as u8
            },
            ..self
        }
    }

    /// The processor after a write to the control register: an NMI is
    /// raised where the write switches NMI generation on during VBlank.
    pub open spec fn ctrl_written(self, value: u8) -> PpuState {
        let ctrl = ControllRegister { bits: value };
        PpuState {
            ctrl_reg: ctrl,
            nmi_interrupt: if !self.ctrl_reg.has(ControllRegister::GENERATE_NMI) && ctrl.has(
                ControllRegister::GENERATE_NMI,
            ) && self.status_reg.in_vblank() {
                true
            } else {
                self.nmi_interrupt
            },
            ..self
        }
    }

    /// The answer to a bus write, and the processor after it. In
    /// 0x2000..0x4000 the eight registers repeat: control, mask, (status,
    /// which blocks the write), sprite address, sprite data, scroll,
    /// address, data. Outside that range the processor passes.
    pub open spec fn write(self, address: u16, value: u8) -> (
        Result<MemoryWrite, Fault>,
        PpuState,
    ) {
        if 0x2000 <= address < 0x4000 {
            let register = address % 8;
            if register == 0 {
                (Ok(MemoryWrite::Value(value)), self.ctrl_written(value))
            } else if register == 1 {
                (
                    Ok(MemoryWrite::Value(value)),
                    PpuState { mask_reg: MaskRegister { bits: value }, ..self },
                )
            } else if register == 2 {
                (Ok(MemoryWrite::Block), self)
            } else if register == 3 {
                (Ok(MemoryWrite::Value(value)), PpuState { oam_addr_reg: value, ..self })
            } else if register == 4 {
                (Ok(MemoryWrite::Value(value)), self.oam_stored(value))
            } else if register == 5 {
                (
                    Ok(MemoryWrite::Value(value)),
                    PpuState { scroll_reg: self.scroll_reg.updated(value), ..self },
                )
            } else if register == 6 {
                (
                    Ok(MemoryWrite::Value(value)),
                    PpuState { addr_reg: self.addr_reg.updated(value), ..self },
                )
            } else {
                match self.data_fault(true) {
                    Some(fault) => (Err(fault), self),
                    None => (Ok(MemoryWrite::Value(value)), self.write_data(value)),
                }
            }
        } else {
            (Ok(MemoryWrite::Pass), self)
        }
    }

    /// Sprite 0 is hit on this scanline once the dot counter has reached
    /// `cycle`: the sprite sits on the line, its column is reached, and
    /// sprites are shown.
    pub open spec fn sprite_0_hit_at(self, cycle: int) -> bool {
        self.oam_data[0] == self.scanline && self.oam_data[3] <= cycle && self.mask_reg.has(
            MaskRegister::SPRITE,
        )
    }

    /// The processor after one scanline ended (341 dots are taken off the
    /// counter), and whether the frame ended with it. Entering line 241 sets
    /// VBlank and, if the control register asks for it, raises the NMI,
    /// unless a status read called both off. Entering line 262 starts the
    /// next frame at line 0 with VBlank, sprite-0 hit and NMI cleared; every
    /// other frame is one dot shorter while anything is shown.
    pub open spec fn line_ended(self) -> (bool, PpuState) {
        let hit = if self.sprite_0_hit_at(self.cycles as int) {
            self.status_reg.with_sprite_0_hit(true)
        } else {
            self.status_reg
        };
        let scanline = (self.scanline + 1) as u16;
        let cycles = (self.cycles - 341) as usize;
        let entered = if scanline == 241 {
            PpuState {
                status_reg: hit.with_vblank(!self.ignore_nmi).with_sprite_0_hit(false),
                nmi_interrupt: if self.ctrl_reg.has(ControllRegister::GENERATE_NMI) {
                    !self.ignore_nmi
                } else {
                    self.nmi_interrupt
                },
                scanline,
                cycles,
                ..self
            }
        } else {
            PpuState { status_reg: hit, scanline, cycles, ..self }
        };
        if scanline >= 262 {
            (
                true,
                PpuState {
                    scanline: 0,
                    status_reg: entered.status_reg.with_vblank(false).with_sprite_0_hit(false),
                    nmi_interrupt: false,
                    ignore_nmi: false,
                    cycles: if self.frame_tick && (self.mask_reg.has(MaskRegister::SPRITE)
                        || self.mask_reg.has(MaskRegister::BACKGROUND)) {
                        (cycles + 1) as usize
                    } else {
                        cycles
                    },
                    frame_tick: !self.frame_tick,
                    ..entered
                },
            )
        } else {
            (false, entered)
        }
    }

    /// The processor once every full scanline has been taken off the dot
    /// counter, and whether a frame ended on the way.
    pub open spec fn settled(self) -> (bool, PpuState)
        decreases self.cycles,
    {
        if self.cycles >= 341 && self.scanline < 0xFFFF {
            let (ended, next) = self.line_ended();
            let (later, last) = next.settled();
            (ended || later, last)
        } else {
            (false, self)
        }
    }

    /// The processor after `cpu_cycles` CPU cycles, three dots each, and
    /// whether a frame ended in them.
    pub open spec fn step(self, cpu_cycles: u16) -> (bool, PpuState) {
        (PpuState { cycles: (self.cycles + cpu_cycles * 3) as usize, ..self }).settled()
    }
}

impl Ppu {
    /// A processor over 2 KiB of zeroed character ROM, mirrored
    /// horizontally.
    pub fn new_empty_rom() -> (r: Self)
        ensures
            r@ == PpuState::power_on(Seq::new(2048, |i: int| 0u8), Mirroring::Horizontal, false),
    {
        let chr = vec![0u8; 2048];
        assert(chr@ =~= Seq::new(2048, |i: int| 0u8));
        Ppu::new(chr, Mirroring::Horizontal, false)
    }

    pub fn new(chr_rom: Vec<u8>, mirroring: Mirroring, chr_ram: bool) -> (r: Self)
        ensures
            r@ == PpuState::power_on(chr_rom@, mirroring, chr_ram),
    {
        let r = Self {
            chr_rom,
            palette_table: [0u8; 32],
            vram: [0u8; 2048],
            oam_data: [0u8; 256],
            mirroring,
            addr_reg: AddressRegister::new(),
            ctrl_reg: ControllRegister::new(),
            mask_reg: MaskRegister::new(),
            status_reg: StatusRegister::new(),
            scroll_reg: ScrollRegister::new(),
            oam_addr_reg: 0,
            internal_data_buf: 0,
            cycles: 0,
            scanline: 0,
            nmi_interrupt: false,
            frame: Frame::new(),
            chr_ram,
            dma_enable: false,
            frame_tick: false,
            ignore_nmi: false,
        };
        assert(r.palette_table@ =~= Seq::new(32, |i: int| 0u8));
        assert(r.vram@ =~= Seq::new(2048, |i: int| 0u8));
        assert(r.oam_data@ =~= Seq::new(256, |i: int| 0u8));
        assert(r.frame.data@ =~= Seq::new(61440, |i: int| 0u8));
        r
    }

    /// Tells why the data port cannot be used where the address register
    /// points, if it cannot.
    pub fn data_fault(&self, write: bool) -> (r: Option<Fault>)
        ensures
            r == self@.data_fault(write),
    {
        let addr = self.addr_reg.get();
        proof {
            lemma_fold_nametable_address(addr);
            if 0x3000 <= addr {
                lemma_fold_nametable_address((addr - 0x1000) as u16);
            }
        }
        if addr < 0x2000 {
            if write && !self.chr_ram {
                Some(Fault::ReadOnlyMemory(addr))
            } else if addr as usize >= self.chr_rom.len() {
                Some(Fault::OutOfRange(addr))
            } else {
                None
            }
        } else if addr < 0x3F00 {
            if self.mirror_vram_addr(addr) >= 2048 {
                Some(Fault::OutOfRange(addr))
            } else {
                None
            }
        } else if addr < 0x4000 {
            if !write && self.mirror_vram_addr(addr - 0x1000) >= 2048 {
                Some(Fault::OutOfRange(addr))
            } else {
                None
            }
        } else {
            Some(Fault::OutOfRange(addr))
        }
    }

    pub fn read_data(&mut self) -> (r: u8)
        requires
            old(self)@.data_fault(false).is_none(),
        ensures
            (r, final(self)@) == old(self)@.read_data(),
    {
        let addr = self.addr_reg.get();
        self.addr_reg.increment(self.ctrl_reg.vram_addr_increment());
        proof {
            lemma_fold_nametable_address(addr);
            if 0x3000 <= addr {
                lemma_fold_nametable_address((addr - 0x1000) as u16);
            }
        }

        if addr < 0x2000 {
            let result = self.internal_data_buf;
            self.internal_data_buf = self.chr_rom[addr as usize];
            result
        } else if addr < 0x3F00 {
            let result = self.internal_data_buf;
            self.internal_data_buf = self.vram[self.mirror_vram_addr(addr) as usize];
            result
        } else {
            self.internal_data_buf = self.vram[self.mirror_vram_addr(addr - 0x1000) as usize];
            self.palette_table[((addr - 0x3F00) % 0x20) as usize]
        }
    }

    pub fn write_data(&mut self, value: u8)
        requires
            old(self)@.data_fault(true).is_none(),
        ensures
            final(self)@ == old(self)@.write_data(value),
    {
        let addr = self.addr_reg.get();
        self.addr_reg.increment(self.ctrl_reg.vram_addr_increment());
        proof {
            lemma_fold_nametable_address(addr);
        }

        if addr < 0x2000 {
            self.chr_rom[addr as usize] = value;
        } else if addr < 0x3F00 {
            let index = self.mirror_vram_addr(addr) as usize;
            self.vram[index] = value;
        } else {
            let index = ((addr - 0x3F00) % 0x20) as usize;
            if index % 4 == 0 {
                self.palette_table[(index + 0x10) % 0x20] = value;
            }
            self.palette_table[index] = value;
            assert(self.palette_table@ =~= old(self).palette_table@.update(
                palette_twin(index as int),
                value,
            ).update(index as int, value));
        }
    }

    pub fn mirror_vram_addr(&self, address: u16) -> (r: u16)
        requires
            address & 0x2000 != 0,
        ensures
            r == nametable_offset(self.mirroring, address),
            r < 0x1000,
    {
        let mirrored_addr = address & 0x2FFF;
        proof {
            lemma_fold_nametable_address(address);
        }
        let vram_idx = mirrored_addr - 0x2000;
        let named_table = vram_idx / 0x400;
        match self.mirroring {
            Mirroring::Vertical => if named_table >= 2 {
                vram_idx - 0x800
            } else {
                vram_idx
            },
            Mirroring::Horizontal => if named_table == 1 || named_table == 2 {
                vram_idx - 0x400
            } else if named_table == 3 {
                vram_idx - 0x800
            } else {
                vram_idx
            },
            Mirroring::FourScreen => vram_idx,
        }
    }

    pub fn step(&mut self, cpu_cycles: u16) -> (crossed: bool)
        requires
            old(self).cycles + cpu_cycles * 3 <= usize::MAX,
            old(self).scanline < 0xFFFF,
        ensures
            (crossed, final(self)@) == old(self)@.step(cpu_cycles),
            final(self).cycles < 341,
            old(self).scanline < 262 ==> final(self).scanline < 262,
            final(self).chr_rom@ == old(self).chr_rom@,
    {
        self.cycles += cpu_cycles as usize * 3;
        let mut crossed = false;
        while self.cycles >= 341
            invariant
                self.scanline < 0xFFFF,
                old(self).scanline < 262 ==> self.scanline < 262,
                self.chr_rom@ == old(self).chr_rom@,
                ({
                    let (later, last) = self@.settled();
                    (crossed || later, last)
                }) == old(self)@.step(cpu_cycles),
            decreases self.cycles,
        {
            if self.is_sprite_0_hit(self.cycles) {
                self.status_reg.set_sprite_0_hit(true);
            }
            self.scanline += 1;
            self.cycles = self.cycles - 341;

            if self.scanline == 241 {
                self.status_reg.set_vblank(!self.ignore_nmi);
                self.status_reg.set_sprite_0_hit(false);
                if self.ctrl_reg.generate_vblank_nmi() {
                    self.nmi_interrupt = !self.ignore_nmi;
                }
            }
            if self.scanline >= 262 {
                self.scanline = 0;
                self.status_reg.set_vblank(false);
                self.status_reg.set_sprite_0_hit(false);
                self.nmi_interrupt = false;
                self.ignore_nmi = false;
                if self.frame_tick && (self.mask_reg.contains(MaskRegister::SPRITE)
                    || self.mask_reg.contains(MaskRegister::BACKGROUND)) {
                    self.cycles += 1
                }
                self.frame_tick = !self.frame_tick;
                crossed = true;
            }
        }
        crossed
    }

    pub fn is_sprite_0_hit(&self, cycle: usize) -> (r: bool)
        ensures
            r == self@.sprite_0_hit_at(cycle as int),
    {
        let y = self.oam_data[0] as u16;
        let x = self.oam_data[3] as usize;
        (y == self.scanline) && (x <= cycle) && self.mask_reg.contains(MaskRegister::SPRITE)
    }

    /// Takes the pending NMI, if there is one.
    pub fn nmi(&mut self) -> (previous: bool)
        ensures
            previous == old(self).nmi_interrupt,
            final(self)@ == (PpuState { nmi_interrupt: false, ..old(self)@ }),
    {
        let previous = self.nmi_interrupt;
        self.nmi_interrupt = false;
        previous
    }

    pub fn read_nmi(&self) -> (r: bool)
        ensures
            r == self.nmi_interrupt,
    {
        self.nmi_interrupt
    }

    pub fn read_status(&mut self) -> (data: u8)
        ensures
            (data, final(self)@) == old(self)@.read_status(),
    {
        let data = self.status_reg.get();
        self.status_reg.set_vblank(false);
        self.addr_reg.reset_latch();
        self.scroll_reg.reset_latch();
        data
    }

    /// Takes the note that a sprite DMA has run, if one has.
    pub fn dma_enable(&mut self) -> (previous: bool)
        ensures
            previous == old(self).dma_enable,
            final(self)@ == (PpuState { dma_enable: false, ..old(self)@ }),
    {
        let previous = self.dma_enable;
        self.dma_enable = false;
        previous
    }

    /// Stores one byte under the sprite address and moves the address on.
    pub fn store_oam(&mut self, value: u8)
        ensures
            final(self)@ == old(self)@.oam_stored(value),
            final(self)@.clocked_like(old(self)@),
    {
        self.oam_data[self.oam_addr_reg as usize] = value;
        self.oam_addr_reg = self.oam_addr_reg.wrapping_add(1);
    }

    pub fn cycle(&self) -> (r: usize)
        ensures
            r == self.cycles,
    {
        self.cycles
    }

    pub fn scanline(&self) -> (r: u16)
        ensures
            r == self.scanline,
    {
        self.scanline
    }
}

impl PpuState {
    /// The processor at power-on: memories zeroed, registers cleared, the
    /// address latch expecting a high byte, at the first dot of a frame.
    pub open spec fn power_on(chr_rom: Seq<u8>, mirroring: Mirroring, chr_ram: bool) -> PpuState {
        PpuState {
            chr_rom,
            palette_table: Seq::new(32, |i: int| 0u8),
            vram: Seq::new(2048, |i: int| 0u8),
            oam_data: Seq::new(256, |i: int| 0u8),
            mirroring,
            addr_reg: AddressRegister { value: 0, hi_ptr: true },
            ctrl_reg: ControllRegister { bits: 0 },
            mask_reg: MaskRegister { bits: 0 },
            status_reg: StatusRegister(0),
            scroll_reg: ScrollRegister { x: 0, y: 0, toggle: false },
            oam_addr_reg: 0,
            internal_data_buf: 0,
            cycles: 0,
            scanline: 0,
            nmi_interrupt: false,
            chr_ram,
            dma_enable: false,
            frame: Seq::new(61440, |i: int| 0u8),
            frame_tick: false,
            ignore_nmi: false,
        }
    }
}

impl IOHandler for Ppu {
    type State = PpuState;

    open spec fn device_kind() -> DeviceKind {
        DeviceKind::Ppu
    }

    open spec fn state(&self) -> PpuState {
        self@
    }

    open spec fn answer_read(state: PpuState, address: u16) -> (
        Result<MemoryRead, Fault>,
        PpuState,
    ) {
        state.read(address)
    }

    open spec fn answer_write(state: PpuState, address: u16, value: u8) -> (
        Result<MemoryWrite, Fault>,
        PpuState,
    ) {
        state.write(address, value)
    }

    fn kind() -> (k: DeviceKind) {
        DeviceKind::Ppu
    }

    fn read(&mut self, address: u16) -> (r: Result<MemoryRead, Fault>)
        ensures
            final(self)@.clocked_like(old(self)@),
    {
        if address >= 0x2000 && address < 0x4000 {
            let register = address % 8;
            if register == 2 {
                let dot: u128 = self.scanline as u128 * 341 + self.cycles as u128;
                let status = self.read_status();
                if dot == 82181 || dot == 82182 {
                    self.ignore_nmi = true;
                    self.nmi_interrupt = false;
                    Ok(MemoryRead::Value(status | 0b1000_0000))
                } else if dot == 82180 {
                    self.ignore_nmi = true;
                    Ok(MemoryRead::Value(status & 0b0111_1111))
                } else {
                    Ok(MemoryRead::Value(status))
                }
            } else if register == 4 {
                Ok(MemoryRead::Value(self.oam_data[self.oam_addr_reg as usize]))
            } else if register == 7 {
                match self.data_fault(false) {
                    Some(fault) => Err(fault),
                    None => Ok(MemoryRead::Value(self.read_data())),
                }
            } else {
                Err(Fault::WriteOnlyRegister(address))
            }
        } else {
            Ok(MemoryRead::Pass)
        }
    }

    fn write(&mut self, address: u16, value: u8) -> (r: Result<MemoryWrite, Fault>)
        ensures
            final(self)@.clocked_like(old(self)@),
    {
        if address >= 0x2000 && address < 0x4000 {
            let register = address % 8;
            if register == 0 {
                let before_nmi = self.ctrl_reg.generate_vblank_nmi();
                self.ctrl_reg.update(value);
                if !before_nmi && self.ctrl_reg.generate_vblank_nmi() && self.status_reg.vblank() {
                    self.nmi_interrupt = true;
                }
                Ok(MemoryWrite::Value(value))
            } else if register == 1 {
                self.mask_reg.update(value);
                Ok(MemoryWrite::Value(value))
            } else if register == 2 {
                Ok(MemoryWrite::Block)
            } else if register == 3 {
                self.oam_addr_reg = value;
                Ok(MemoryWrite::Value(value))
            } else if register == 4 {
                self.store_oam(value);
                Ok(MemoryWrite::Value(value))
            } else if register == 5 {
                self.scroll_reg.update(value);
                Ok(MemoryWrite::Value(value))
            } else if register == 6 {
                self.addr_reg.update(value);
                Ok(MemoryWrite::Value(value))
            } else {
                match self.data_fault(true) {
                    Some(fault) => Err(fault),
                    None => {
                        self.write_data(value);
                        Ok(MemoryWrite::Value(value))
                    },
                }
            }
        } else {
            Ok(MemoryWrite::Pass)
        }
    }
}

} // verus!
