use vstd::prelude::*;
use vstd::slice::{slice_subrange, slice_to_vec};
use crate::device::{DeviceKind, IOHandler};
use crate::memory::{Fault, MemoryRead, MemoryWrite};
use crate::ppu::{Tile, TileSize};

pub mod nrom;
pub mod uxrom;

verus! {

pub const PRG_ROM_BANK_SIZE: usize = 0x4000;

pub const CHR_ROM_BANK_SIZE: usize = 0x2000;

pub const PRG_RAM_BANK_SIZE: usize = 0x2000;

/// How the four logical nametables share the PPU's two physical ones.
#[derive(Clone, Copy, PartialEq, Eq, Structural, Debug)]
pub enum Mirroring {
    Vertical,
    Horizontal,
    FourScreen,
}

/// What the header says of a ROM image.
#[derive(Clone, Copy, PartialEq, Eq, Structural, Debug)]
pub struct RomInfo {
    pub mapper: u8,
    pub mirroring: Mirroring,
    pub prg_rom_size: usize,
    pub chr_rom_size: usize,
}

/// A cartridge board as the CPU and the PPU see it.
pub trait Cartridge {
    /// A CPU read of `address` stays inside the storage behind it.
    spec fn backs_read(&self, address: u16) -> bool;

    /// A CPU write to `address` stays inside the storage behind it.
    spec fn backs_write(&self, address: u16) -> bool;

    /// The board's character memory.
    spec fn chr(&self) -> Seq<u8>;

    /// The character memory is RAM.
    spec fn chr_writable(&self) -> bool;

    fn can_read(&self, address: u16) -> (b: bool)
        ensures
            b == self.backs_read(address),
    ;

    fn can_write(&self, address: u16) -> (b: bool)
        ensures
            b == self.backs_write(address),
    ;

    fn memory_read(&self, address: u16) -> (r: MemoryRead)
        requires
            self.backs_read(address),
    ;

    fn memory_write(&mut self, address: u16, value: u8) -> (r: MemoryWrite)
        requires
            old(self).backs_write(address),
    ;

    fn tile(&self, idx: usize, size: TileSize) -> (r: Tile)
        requires
            idx + size.byte_len() <= self.chr().len(),
        ensures
            r.size() == size,
            r.bytes() == self.chr().subrange(idx as int, idx + size.byte_len()),
    ;

    fn ppu_read(&self, address: u16) -> (r: MemoryRead)
        requires
            address < 0x2000 ==> address < self.chr().len(),
        ensures
            r == if address < 0x2000 {
                MemoryRead::Value(self.chr()[address as int])
            } else {
                MemoryRead::Pass
            },
    ;

    fn ppu_write(&mut self, address: u16, value: u8) -> (r: MemoryWrite)
        requires
            address < 0x2000 && old(self).chr_writable() ==> address < old(self).chr().len(),
        ensures
            final(self).chr_writable() == old(self).chr_writable(),
            address < 0x2000 && old(self).chr_writable() ==> r == MemoryWrite::Value(value)
                && final(self).chr() == old(self).chr().update(address as int, value),
            !(address < 0x2000 && old(self).chr_writable()) ==> r == MemoryWrite::Block
                && final(self).chr() == old(self).chr(),
    ;
}

/// A copy of `n` bytes of `v` from `start` on.
pub fn copy_range(v: &Vec<u8>, start: usize, n: usize) -> (r: Vec<u8>)
    requires
        start + n <= v.len(),
    ensures
        r@ == v@.subrange(start as int, start + n),
{
    slice_to_vec(slice_subrange(v.as_slice(), start, start + n))
}

/// The board inside a cartridge, by mapper.
pub enum Board {
    Nrom(nrom::Rom),
    Uxrom(uxrom::Rom),
}

/// What a board holds.
pub enum BoardState {
    Nrom(nrom::RomState),
    Uxrom(uxrom::RomState),
}

impl View for Board {
    type V = BoardState;

    open spec fn view(&self) -> BoardState {
        match self {
            Board::Nrom(b) => BoardState::Nrom(b@),
            Board::Uxrom(b) => BoardState::Uxrom(b@),
        }
    }
}

/// A cartridge: a board and what the header said of the image.
pub struct Rom {
    pub board: Board,
    pub info: RomInfo,
}

/// What a cartridge holds.
pub struct RomState {
    pub board: BoardState,
    pub info: RomInfo,
}

impl View for Rom {
    type V = RomState;

    open spec fn view(&self) -> RomState {
        RomState { board: self.board@, info: self.info }
    }
}

/// The image opens with the four bytes `N E S 0x1A`.
pub open spec fn has_magic(raw: Seq<u8>) -> bool {
    raw.len() >= 4 && raw[0] == 0x4E && raw[1] == 0x45 && raw[2] == 0x53 && raw[3] == 0x1A
}

/// The mapper number: its low nibble is the high nibble of byte 6, its high
/// nibble that of byte 7.
pub open spec fn header_mapper(raw: Seq<u8>) -> u8 {
    (raw[6] >> 4) | (raw[7] & 0b1111_0000)
}

/// Bits 2 and 3 of byte 7 are reserved and must be clear.
pub open spec fn header_reserved(raw: Seq<u8>) -> bool {
    raw[7] & 0b0000_1100 != 0
}

/// Bit 3 of byte 6 asks for four screens; else bit 0 tells vertical from
/// horizontal.
pub open spec fn header_mirroring(raw: Seq<u8>) -> Mirroring {
    if raw[6] & 0b0000_1000 != 0 {
        Mirroring::FourScreen
    } else if raw[6] & 0b0000_0001 != 0 {
        Mirroring::Vertical
    } else {
        Mirroring::Horizontal
    }
}

/// Bit 2 of byte 6: a 512-byte trainer follows the header.
pub open spec fn has_trainer(raw: Seq<u8>) -> bool {
    raw[6] & 0b0000_0100 != 0
}

/// Where program ROM starts in the image.
pub open spec fn prg_start(raw: Seq<u8>) -> int {
    if has_trainer(raw) {
        0x210
    } else {
        0x10
    }
}

/// Program ROM bytes: byte 4 counts 16 KiB banks.
pub open spec fn prg_size(raw: Seq<u8>) -> int {
    raw[4] * 0x4000
}

/// Character ROM bytes: byte 5 counts 8 KiB banks.
pub open spec fn chr_size(raw: Seq<u8>) -> int {
    raw[5] * 0x2000
}

/// The image is turned down: wrong magic, a reserved bit set, or a mapper
/// other than 0 and 2.
pub open spec fn rejected(raw: Seq<u8>) -> bool {
    !has_magic(raw) || header_reserved(raw) || (header_mapper(raw) != 0 && header_mapper(raw) != 2)
}

/// The image is long enough for everything that loading it looks at: the
/// magic; past the magic, the flag bytes; and past those, unless a reserved
/// bit ends the matter, all that the header announces.
pub open spec fn complete(raw: Seq<u8>) -> bool {
    &&& raw.len() >= 4
    &&& has_magic(raw) ==> raw.len() >= 8
    &&& has_magic(raw) && !header_reserved(raw) ==> raw.len() >= prg_start(raw) + prg_size(raw)
        + chr_size(raw)
}

/// The trainer of an image, empty where it has none.
pub open spec fn image_trainer(raw: Seq<u8>) -> Seq<u8> {
    if has_trainer(raw) {
        raw.subrange(0x10, 0x210)
    } else {
        Seq::empty()
    }
}

/// The program ROM of an image.
pub open spec fn image_prg(raw: Seq<u8>) -> Seq<u8> {
    raw.subrange(prg_start(raw), prg_start(raw) + prg_size(raw))
}

/// The character memory of an image: what follows program ROM, or 8 KiB of
/// zeroed RAM where the header announces none.
pub open spec fn image_chr(raw: Seq<u8>) -> Seq<u8> {
    if chr_size(raw) == 0 {
        Seq::new(0x2000, |i: int| 0u8)
    } else {
        raw.subrange(
            prg_start(raw) + prg_size(raw),
            prg_start(raw) + prg_size(raw) + chr_size(raw),
        )
    }
}

/// What the header says of the image.
pub open spec fn image_info(raw: Seq<u8>) -> RomInfo {
    RomInfo {
        mapper: header_mapper(raw),
        mirroring: header_mirroring(raw),
        prg_rom_size: prg_size(raw) as usize,
        chr_rom_size: chr_size(raw) as usize,
    }
}

/// The cartridge that an accepted image loads as. No work RAM is fitted.
pub open spec fn loaded(raw: Seq<u8>) -> RomState {
    RomState {
        board: if header_mapper(raw) == 0 {
            BoardState::Nrom(
                nrom::RomState {
                    prg_rom: image_prg(raw),
                    chr_rom: image_chr(raw),
                    trainer: image_trainer(raw),
                    prg_ram: Seq::empty(),
                    mirroring: header_mirroring(raw),
                    writable: chr_size(raw) == 0,
                },
            )
        } else {
            BoardState::Uxrom(
                uxrom::RomState {
                    prg_rom: image_prg(raw),
                    chr_rom: image_chr(raw),
                    trainer: image_trainer(raw),
                    prg_ram: Seq::empty(),
                    mirroring: header_mirroring(raw),
                    writable: chr_size(raw) == 0,
                    bank: 0,
                    last_bank: uxrom::last_bank_of(prg_size(raw)),
                },
            )
        },
        info: image_info(raw),
    }
}

impl RomState {
    /// A mapper-0 cartridge with nothing on it.
    pub open spec fn empty() -> RomState {
        RomState {
            board: BoardState::Nrom(
                nrom::RomState {
                    prg_rom: Seq::empty(),
                    chr_rom: Seq::empty(),
                    trainer: Seq::empty(),
                    prg_ram: Seq::empty(),
                    mirroring: Mirroring::Horizontal,
                    writable: false,
                },
            ),
            info: RomInfo {
                mapper: 0,
                mirroring: Mirroring::Horizontal,
                prg_rom_size: 0,
                chr_rom_size: 0,
            },
        }
    }

    /// The cartridge's character memory.
    pub open spec fn chr_rom(self) -> Seq<u8> {
        match self.board {
            BoardState::Nrom(b) => b.chr_rom,
            BoardState::Uxrom(b) => b.chr_rom,
        }
    }

    /// The character memory is RAM.
    pub open spec fn chr_ram(self) -> bool {
        match self.board {
            BoardState::Nrom(b) => b.writable,
            BoardState::Uxrom(b) => b.writable,
        }
    }

    /// A CPU read of `address` stays inside the storage behind it.
    pub open spec fn backs_read(self, address: u16) -> bool {
        match self.board {
            BoardState::Nrom(b) => b.backs_read(address),
            BoardState::Uxrom(b) => b.backs_read(address),
        }
    }

    /// A CPU write to `address` stays inside the storage behind it.
    pub open spec fn backs_write(self, address: u16) -> bool {
        match self.board {
            BoardState::Nrom(b) => b.backs_write(address),
            BoardState::Uxrom(b) => b.backs_write(address),
        }
    }

    /// What the board answers to a CPU read of an address it backs.
    pub open spec fn memory_read(self, address: u16) -> MemoryRead {
        match self.board {
            BoardState::Nrom(b) => b.memory_read(address),
            BoardState::Uxrom(b) => b.memory_read(address),
        }
    }

    /// The cartridge after a CPU write to an address it backs, and its
    /// answer.
    pub open spec fn memory_write(self, address: u16, value: u8) -> (MemoryWrite, RomState) {
        match self.board {
            BoardState::Nrom(b) => {
                let (r, next) = b.memory_write(address, value);
                (r, RomState { board: BoardState::Nrom(next), ..self })
            },
            BoardState::Uxrom(b) => {
                let (r, next) = b.memory_write(address, value);
                (r, RomState { board: BoardState::Uxrom(next), ..self })
            },
        }
    }

    /// The cartridge after a PPU write, and its answer.
    pub open spec fn ppu_write(self, address: u16, value: u8) -> (MemoryWrite, RomState) {
        match self.board {
            BoardState::Nrom(b) => {
                let (r, next) = b.ppu_write(address, value);
                (r, RomState { board: BoardState::Nrom(next), ..self })
            },
            BoardState::Uxrom(b) => {
                let (r, next) = b.ppu_write(address, value);
                (r, RomState { board: BoardState::Uxrom(next), ..self })
            },
        }
    }

    /// The answer of the cartridge as a bus handler to a read: the board's
    /// answer, or a fault where the address runs past its storage.
    pub open spec fn read(self, address: u16) -> Result<MemoryRead, Fault> {
        if self.backs_read(address) {
            Ok(self.memory_read(address))
        } else {
            Err(Fault::OutOfRange(address))
        }
    }

    /// The cartridge as a bus handler after a write, and its answer: the
    /// board's, or a fault (and no change) where the address runs past its
    /// storage.
    pub open spec fn write(self, address: u16, value: u8) -> (Result<MemoryWrite, Fault>, RomState) {
        if self.backs_write(address) {
            let (r, next) = self.memory_write(address, value);
            (Ok(r), next)
        } else {
            (Err(Fault::OutOfRange(address)), self)
        }
    }
}

impl Rom {
    /// Tells whether `raw` is long enough to be loaded.
    pub fn is_complete(raw: &Vec<u8>) -> (b: bool)
        ensures
            b == complete(raw@),
    {
        if raw.len() < 4 {
            return false;
        }
        if !(raw[0] == 0x4E && raw[1] == 0x45 && raw[2] == 0x53 && raw[3] == 0x1A) {
            return true;
        }
        if raw.len() < 8 {
            return false;
        }
        if raw[7] & 0b0000_1100 != 0 {
            return true;
        }
        let start: usize = if raw[6] & 0b0000_0100 != 0 { 0x210 } else { 0x10 };
        let needed = start + (raw[4] as usize) * PRG_ROM_BANK_SIZE + (raw[5] as usize)
            * CHR_ROM_BANK_SIZE;
        raw.len() >= needed
    }

    /// Loads a cartridge from a ROM image.
    pub fn new(raw: &Vec<u8>) -> (r: Result<Self, ()>)
        requires
            complete(raw@),
        ensures
            r.is_err() <==> rejected(raw@),
            r.is_ok() ==> r.unwrap()@ == loaded(raw@),
    {
        if !(raw[0] == 0x4E && raw[1] == 0x45 && raw[2] == 0x53 && raw[3] == 0x1A) {
            return Err(());
        }
        let ctrl1 = raw[6];
        let ctrl2 = raw[7];

        let mapper = (ctrl1 >> 4) | (ctrl2 & 0b1111_0000);
        if ctrl2 & 0b0000_1100 != 0 {
            return Err(());
        }
        let four_screen = ctrl1 & 0b0000_1000 != 0;
        let screen_direction = ctrl1 & 0b0000_0001 != 0;
        let mirroring = if four_screen {
            Mirroring::FourScreen
        } else if screen_direction {
            Mirroring::Vertical
        } else {
            Mirroring::Horizontal
        };

        let trainer_enable = ctrl1 & 0b0000_0100 != 0;
        let trainer = if trainer_enable {
            copy_range(raw, 0x10, 0x200)
        } else {
            Vec::new()
        };

        let prg_ram = if ctrl1 & 0b0000_0010 != 0 {
            Vec::<u8>::with_capacity((raw[8] as usize) * PRG_RAM_BANK_SIZE)
        } else {
            Vec::new()
        };

        let prg_rom_size = (raw[4] as usize) * PRG_ROM_BANK_SIZE;
        let chr_rom_size = (raw[5] as usize) * CHR_ROM_BANK_SIZE;

        let prg_rom_start: usize = if trainer_enable { 0x210 } else { 0x10 };
        let chr_rom_start = prg_rom_start + prg_rom_size;

        let prg_rom = copy_range(raw, prg_rom_start, prg_rom_size);
        let chr_ram = chr_rom_size == 0;
        let chr_rom = if chr_ram {
            vec![0u8; 0x2000]
        } else {
            copy_range(raw, chr_rom_start, chr_rom_size)
        };
        assert(chr_rom@ =~= image_chr(raw@));
        assert(trainer@ =~= image_trainer(raw@));
        assert(prg_ram@ =~= Seq::<u8>::empty());

        let info = RomInfo { mapper, mirroring, prg_rom_size, chr_rom_size };

        if mapper == 0 {
            Ok(
                Rom {
                    board: Board::Nrom(
                        nrom::Rom::new(prg_rom, chr_rom, trainer, prg_ram, mirroring, chr_ram),
                    ),
                    info,
                },
            )
        } else if mapper == 2 {
            Ok(
                Rom {
                    board: Board::Uxrom(
                        uxrom::Rom::new(prg_rom, chr_rom, trainer, prg_ram, mirroring, chr_ram),
                    ),
                    info,
                },
            )
        } else {
            Err(())
        }
    }

    /// A cartridge with nothing on it.
    pub fn empty() -> (r: Self)
        ensures
            r@ == RomState::empty(),
    {
        Rom {
            board: Board::Nrom(
                nrom::Rom::new(
                    Vec::new(),
                    Vec::new(),
                    Vec::new(),
                    Vec::new(),
                    Mirroring::Horizontal,
                    false,
                ),
            ),
            info: RomInfo {
                mapper: 0,
                mirroring: Mirroring::Horizontal,
                prg_rom_size: 0,
                chr_rom_size: 0,
            },
        }
    }

    pub fn info(&self) -> (r: &RomInfo)
        ensures
            *r == self.info,
    {
        &self.info
    }

    /// A copy of the cartridge's character memory.
    pub fn chr_rom(&self) -> (r: Vec<u8>)
        ensures
            r@ == self@.chr_rom(),
    {
        match &self.board {
            Board::Nrom(b) => copy_range(&b.chr_rom, 0, b.chr_rom.len()),
            Board::Uxrom(b) => copy_range(&b.chr_rom, 0, b.chr_rom.len()),
        }
    }

    /// Whether the character memory is RAM.
    pub fn chr_ram(&self) -> (r: bool)
        ensures
            r == self@.chr_ram(),
    {
        match &self.board {
            Board::Nrom(b) => b.writable,
            Board::Uxrom(b) => b.writable,
        }
    }
}

impl Cartridge for Rom {
    open spec fn backs_read(&self, address: u16) -> bool {
        self@.backs_read(address)
    }

    open spec fn backs_write(&self, address: u16) -> bool {
        self@.backs_write(address)
    }

    open spec fn chr(&self) -> Seq<u8> {
        self@.chr_rom()
    }

    open spec fn chr_writable(&self) -> bool {
        self@.chr_ram()
    }

    fn can_read(&self, address: u16) -> (b: bool) {
        match &self.board {
            Board::Nrom(b) => b.can_read(address),
            Board::Uxrom(b) => b.can_read(address),
        }
    }

    fn can_write(&self, address: u16) -> (b: bool) {
        match &self.board {
            Board::Nrom(b) => b.can_write(address),
            Board::Uxrom(b) => b.can_write(address),
        }
    }

    fn memory_read(&self, address: u16) -> (r: MemoryRead)
        ensures
            r == self@.memory_read(address),
    {
        match &self.board {
            Board::Nrom(b) => b.memory_read(address),
            Board::Uxrom(b) => b.memory_read(address),
        }
    }

    fn memory_write(&mut self, address: u16, value: u8) -> (r: MemoryWrite)
        ensures
            (r, final(self)@) == old(self)@.memory_write(address, value),
    {
        match &mut self.board {
            Board::Nrom(b) => b.memory_write(address, value),
            Board::Uxrom(b) => b.memory_write(address, value),
        }
    }

    fn tile(&self, idx: usize, size: TileSize) -> (r: Tile) {
        match &self.board {
            Board::Nrom(b) => b.tile(idx, size),
            Board::Uxrom(b) => b.tile(idx, size),
        }
    }

    fn ppu_read(&self, address: u16) -> (r: MemoryRead) {
        match &self.board {
            Board::Nrom(b) => b.ppu_read(address),
            Board::Uxrom(b) => b.ppu_read(address),
        }
    }

    fn ppu_write(&mut self, address: u16, value: u8) -> (r: MemoryWrite)
        ensures
            (r, final(self)@) == old(self)@.ppu_write(address, value),
    {
        match &mut self.board {
            Board::Nrom(b) => b.ppu_write(address, value),
            Board::Uxrom(b) => b.ppu_write(address, value),
        }
    }
}

impl IOHandler for Rom {
    type State = RomState;

    open spec fn device_kind() -> DeviceKind {
        DeviceKind::Cartridge
    }

    open spec fn state(&self) -> RomState {
        self@
    }

    open spec fn answer_read(state: RomState, address: u16) -> (
        Result<MemoryRead, Fault>,
        RomState,
    ) {
        (state.read(address), state)
    }

    open spec fn answer_write(state: RomState, address: u16, value: u8) -> (
        Result<MemoryWrite, Fault>,
        RomState,
    ) {
        state.write(address, value)
    }

    fn kind() -> (k: DeviceKind) {
        DeviceKind::Cartridge
    }

    fn read(&mut self, address: u16) -> (r: Result<MemoryRead, Fault>) {
        if self.can_read(address) {
            Ok(self.memory_read(address))
        } else {
            Err(Fault::OutOfRange(address))
        }
    }

    fn write(&mut self, address: u16, value: u8) -> (r: Result<MemoryWrite, Fault>) {
        if self.can_write(address) {
            Ok(self.memory_write(address, value))
        } else {
            Err(Fault::OutOfRange(address))
        }
    }
}

} // verus!
