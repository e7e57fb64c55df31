use vstd::prelude::*;
use crate::apu::Apu;
use crate::bits::{lemma_and_bounds_u16, lemma_low_mask_u16};
use crate::cartridge::{Mirroring, Rom, RomState};
use crate::device::{DevHandler, Device, DeviceKind, IOHandler};
use crate::joypad::{Joypad, JoypadButton, JoypadState};
use crate::ppu::{Ppu, PpuState};

verus! {

/// What an overlay handler answers to a read.
#[derive(Clone, Copy, PartialEq, Eq, Structural, Debug)]
pub enum MemoryRead {
    /// The handler supplies the byte.
    Value(u8),
    /// The handler has nothing to say; the next one is asked.
    Pass,
}

/// What an overlay handler answers to a write.
#[derive(Clone, Copy, PartialEq, Eq, Structural, Debug)]
pub enum MemoryWrite {
    /// The byte to store in the backing array.
    Value(u8),
    /// The handler has nothing to say; the next one is asked.
    Pass,
    /// The write is absorbed: nothing is stored and nobody else is asked.
    Block,
}

/// A fatal condition met during a bus access or a step. Each carries the
/// address (or opcode and program counter) at which it arose.
#[derive(Clone, Copy, PartialEq, Eq, Structural, Debug)]
pub enum Fault {
    /// The byte fetched at the program counter names no implemented
    /// instruction.
    IllegalOpcode(u8, u16),
    /// A register that can only be written was read.
    WriteOnlyRegister(u16),
    /// The PPU data port was written while it pointed into character ROM.
    ReadOnlyMemory(u16),
    /// The access fell outside the storage that backs its address.
    OutOfRange(u16),
    /// A device was reached again while it was itself handling an access.
    Reentrant(u16),
}

/// The overlay handlers, by address, kept in a `hashbrown::HashMap`. Verus
/// does not look inside: what the table holds goes by the name
/// `table_entries`, and the five functions below say of it what the map's
/// own methods do.
#[verifier::external_body]
pub struct HandlerTable {
    map: hashbrown::HashMap<u16, Vec<DevHandler>>,
}

/// What a handler table holds: for each address that has any, its handlers
/// in the order in which they were registered.
pub uninterp spec fn table_entries(table: HandlerTable) -> Map<u16, Seq<DevHandler>>;

impl HandlerTable {
    /// `hashbrown::HashMap::new`: a map that holds nothing.
    #[verifier::external_body]
    pub(crate) fn new() -> (table: Self)
        ensures
            table_entries(table) == (Map::<u16, Seq<DevHandler>>::empty()),
    {
        HandlerTable { map: hashbrown::HashMap::new() }
    }

    /// `hashbrown::HashMap::contains_key`: whether the map holds a value for
    /// the key.
    #[verifier::external_body]
    pub(crate) fn contains_key(&self, address: u16) -> (r: bool)
        ensures
            r == table_entries(*self).contains_key(address),
    {
        self.map.contains_key(&address)
    }

    /// `hashbrown::HashMap::get`: the value stored for the key, if there is
    /// one.
    #[verifier::external_body]
    pub(crate) fn get(&self, address: u16) -> (r: Option<&Vec<DevHandler>>)
        ensures
            r.is_some() == table_entries(*self).contains_key(address),
            r.is_some() ==> r.unwrap()@ == table_entries(*self)[address],
    {
        self.map.get(&address)
    }

    /// `hashbrown::HashMap::get_mut`: the value stored for the key, if there
    /// is one, to be changed in place; nothing else in the map changes.
    #[verifier::external_body]
    pub(crate) fn get_mut(&mut self, address: u16) -> (r: Option<&mut Vec<DevHandler>>)
        ensures
            r.is_some() == table_entries(*old(self)).contains_key(address),
            match r {
                Some(v) => v@ == table_entries(*old(self))[address] && table_entries(*final(self))
                    == table_entries(*old(self)).insert(address, final(v)@),
                None => table_entries(*final(self)) == table_entries(*old(self)),
            },
    {
        self.map.get_mut(&address)
    }

    /// `hashbrown::HashMap::insert`: the value is stored for the key, and
    /// the value that the key had before, if any, comes back.
    #[verifier::external_body]
    pub(crate) fn insert(&mut self, address: u16, handlers: Vec<DevHandler>) -> (r: Option<
        Vec<DevHandler>,
    >)
        ensures
            table_entries(*final(self)) == table_entries(*old(self)).insert(address, handlers@),
            r.is_some() == table_entries(*old(self)).contains_key(address),
            r.is_some() ==> r.unwrap()@ == table_entries(*old(self))[address],
    {
        self.map.insert(address, handlers)
    }
}

/// Reads and writes of bytes and of little-endian words.
pub trait Bus {
    /// What the bus holds.
    spec fn state(&self) -> BusState;

    fn read_byte(&mut self, address: u16) -> (r: u8)
        ensures
            (r, final(self).state()) == old(self).state().read(address),
    ;

    fn read_word(&mut self, address: u16) -> (r: u16)
        ensures
            (r, final(self).state()) == old(self).state().read_word(address),
    ;

    fn write_byte(&mut self, address: u16, value: u8)
        ensures
            final(self).state() == old(self).state().write(address, value),
    ;

    fn write_word(&mut self, address: u16, value: u16)
        ensures
            final(self).state() == old(self).state().write_word(address, value),
    ;
}

/// The memory bus: 64 KiB of backing memory, the devices that overlay it,
/// and the table that says which device answers where.
pub struct MemoryBus {
    pub memory: [u8; 0x10000],
    pub handlers: HandlerTable,
    pub rom: Device<Rom>,
    pub ppu: Device<Ppu>,
    pub apu: Device<Apu>,
    pub pad: Device<Joypad>,
    pub fault: Option<Fault>,
}

/// Which of the four devices on the bus are mediators.
pub struct Mediators {
    pub rom: bool,
    pub ppu: bool,
    pub apu: bool,
    pub pad: bool,
}

/// What the bus holds.
pub struct BusState {
    pub memory: Seq<u8>,
    pub handlers: Map<u16, Seq<DevHandler>>,
    pub rom: RomState,
    pub ppu: PpuState,
    pub apu: Apu,
    pub pad: JoypadState,
    pub mediators: Mediators,
    pub fault: Option<Fault>,
}

impl View for MemoryBus {
    type V = BusState;

    open spec fn view(&self) -> BusState {
        BusState {
            memory: self.memory@,
            handlers: table_entries(self.handlers),
            rom: self.rom.inner@,
            ppu: self.ppu.inner@,
            apu: self.apu.inner,
            pad: self.pad.inner@,
            mediators: Mediators {
                rom: self.rom.mediator,
                ppu: self.ppu.mediator,
                apu: self.apu.mediator,
                pad: self.pad.mediator,
            },
            fault: self.fault,
        }
    }
}

/// The table after `handler` was added behind the handlers of every address
/// from `lo` up to, but not including, `end`.
pub open spec fn registered(
    handlers: Map<u16, Seq<DevHandler>>,
    lo: int,
    end: int,
    handler: DevHandler,
) -> Map<u16, Seq<DevHandler>> {
    Map::new(
        |a: u16| handlers.contains_key(a) || lo <= a < end,
        |a: u16|
            if lo <= a < end {
                (if handlers.contains_key(a) {
                    handlers[a]
                } else {
                    Seq::empty()
                }).push(handler)
            } else {
                handlers[a]
            },
    )
}

/// Where in the backing memory an address is stored when no handler takes
/// it: the first 8 KiB repeat the 2 KiB of internal RAM.
pub open spec fn ram_index(address: u16) -> int {
    if address < 0x2000 {
        (address & 0x07FF) as int
    } else {
        address as int
    }
}

impl BusState {
    /// The bus with nothing registered and nothing plugged in.
    pub open spec fn power_on() -> BusState {
        BusState {
            memory: Seq::new(0x10000, |i: int| 0u8),
            handlers: Map::empty(),
            rom: RomState::empty(),
            ppu: PpuState::power_on(Seq::empty(), Mirroring::Horizontal, false),
            apu: Apu::power_on(),
            pad: JoypadState {
                status: seq![JoypadButton { bits: 0 }, JoypadButton { bits: 0 }],
                index: seq![0u8, 0u8],
                ctrl: 0,
            },
            mediators: Mediators { rom: false, ppu: false, apu: false, pad: false },
            fault: None,
        }
    }

    /// This state can come after `before`: an access never re-wires the
    /// handlers, turns a device into a mediator or back, resizes a memory,
    /// moves the picture processor's clock or breaks the sound processor.
    pub open spec fn follows(self, before: BusState) -> bool {
        &&& self.handlers == before.handlers
        &&& self.mediators == before.mediators
        &&& self.memory.len() == before.memory.len()
        &&& self.ppu.clocked_like(before.ppu)
        &&& before.apu.wf() ==> self.apu.wf()
    }

    /// The handlers registered for `address`, in order.
    pub open spec fn handlers_at(self, address: u16) -> Seq<DevHandler> {
        if self.handlers.contains_key(address) {
            self.handlers[address]
        } else {
            Seq::empty()
        }
    }

    /// The bus with `fault` latched, unless an earlier one already is.
    pub open spec fn failed(self, fault: Fault) -> BusState {
        if self.fault.is_none() {
            BusState { fault: Some(fault), ..self }
        } else {
            self
        }
    }

    /// What the device behind `h` answers to a read, and the bus after it.
    /// A device that is itself in the middle of an access (`active`) is not
    /// asked: a mediator passes, any other device makes it a fault.
    pub open spec fn answer_read(
        self,
        h: DevHandler,
        active: Option<DeviceKind>,
        address: u16,
    ) -> (Result<MemoryRead, Fault>, BusState) {
        if active == Some(h.kind) {
            if h.mediator {
                (Ok(MemoryRead::Pass), self)
            } else {
                (Err(Fault::Reentrant(address)), self)
            }
        } else {
            match h.kind {
                DeviceKind::Cartridge => (self.rom.read(address), self),
                DeviceKind::Ppu => {
                    let (r, ppu) = self.ppu.read(address);
                    (r, BusState { ppu, ..self })
                },
                DeviceKind::Apu => {
                    let (r, apu) = self.apu.read_at(address);
                    (r, BusState { apu, ..self })
                },
                DeviceKind::Joypad => {
                    let (r, pad) = self.pad.read(address);
                    (Ok(r), BusState { pad, ..self })
                },
            }
        }
    }

    /// The byte that a read returns once the handlers from the `i`-th on
    /// have been asked in order, and the bus after it. The first handler
    /// that supplies a value wins; if all pass, the backing memory is read.
    /// A fault is latched and ends the read with a zero.
    pub open spec fn read_walk(
        self,
        hs: Seq<DevHandler>,
        active: Option<DeviceKind>,
        address: u16,
        i: int,
    ) -> (u8, BusState)
        decreases hs.len() - i,
    {
        if 0 <= i < hs.len() {
            let (answer, next) = self.answer_read(hs[i], active, address);
            match answer {
                Ok(MemoryRead::Value(value)) => (value, next),
                Ok(MemoryRead::Pass) => next.read_walk(hs, active, address, i + 1),
                Err(fault) => (0u8, next.failed(fault)),
            }
        } else {
            (self.memory[ram_index(address)], self)
        }
    }

    /// The byte that a read of `address` returns while device `active`, if
    /// any, is in the middle of an access of its own, and the bus after it.
    #[verifier::opaque]
    pub open spec fn read_as(self, active: Option<DeviceKind>, address: u16) -> (u8, BusState) {
        self.read_walk(self.handlers_at(address), active, address, 0)
    }

    /// The byte that a read of `address` returns, and the bus after it.
    pub open spec fn read(self, address: u16) -> (u8, BusState) {
        self.read_as(None, address)
    }

    /// The word that a read of `address` returns, and the bus after it: the
    /// low byte is read first, the high byte from the next address, which
    /// wraps round at the top of memory.
    pub open spec fn read_word(self, address: u16) -> (u16, BusState) {
        let (low, first) = self.read(address);
        let (high, second) = first.read(next_address(address));
        ((low as u16) | ((high as u16) << 8), second)
    }

    /// The bus after the first `n` bytes of a sprite DMA from `base`: each
    /// byte is read with the picture processor marked as busy and stored
    /// under the sprite address, which moves on.
    pub open spec fn dma_walk(self, base: u16, n: nat) -> BusState
        decreases n,
    {
        if n == 0 {
            self
        } else {
            let before = self.dma_walk(base, (n - 1) as nat);
            let (byte, after) = before.read_as(
                Some(DeviceKind::Ppu),
                ((base + (n - 1)) % 0x10000) as u16,
            );
            BusState { ppu: after.ppu.oam_stored(byte), ..after }
        }
    }

    /// The bus after a sprite DMA from page `page`: 256 bytes from
    /// `page << 8` on go into sprite memory, and the picture processor
    /// notes that a DMA has run.
    pub open spec fn oam_dma(self, page: u8) -> BusState {
        let copied = self.dma_walk((page as u16) << 8, 256);
        BusState { ppu: PpuState { dma_enable: true, ..copied.ppu }, ..copied }
    }

    /// What the device behind `h` answers to a write, and the bus after it.
    /// A write of the picture processor's DMA register, 0x4014, runs the
    /// sprite DMA.
    pub open spec fn answer_write(self, h: DevHandler, address: u16, value: u8) -> (
        Result<MemoryWrite, Fault>,
        BusState,
    ) {
        match h.kind {
            DeviceKind::Cartridge => {
                let (r, rom) = self.rom.write(address, value);
                (r, BusState { rom, ..self })
            },
            DeviceKind::Ppu => if address == 0x4014 {
                (Ok(MemoryWrite::Value(value)), self.oam_dma(value))
            } else {
                let (r, ppu) = self.ppu.write(address, value);
                (r, BusState { ppu, ..self })
            },
            DeviceKind::Apu => {
                let (r, apu) = self.apu.written(address, value);
                (Ok(r), BusState { apu, ..self })
            },
            DeviceKind::Joypad => {
                let (r, pad) = self.pad.write(address, value);
                (Ok(r), BusState { pad, ..self })
            },
        }
    }

    /// The bus after a write once the handlers from the `i`-th on have been
    /// asked in order. A handler that supplies a value has it stored at the
    /// address itself; one that blocks ends the write; if all pass, the byte
    /// goes to the backing memory. A fault is latched and ends the write.
    pub open spec fn write_walk(self, hs: Seq<DevHandler>, address: u16, value: u8, i: int) -> BusState
        decreases hs.len() - i,
    {
        if 0 <= i < hs.len() {
            let (answer, next) = self.answer_write(hs[i], address, value);
            match answer {
                Ok(MemoryWrite::Value(stored)) => BusState {
                    memory: next.memory.update(address as int, stored),
                    ..next
                },
                Ok(MemoryWrite::Pass) => next.write_walk(hs, address, value, i + 1),
                Ok(MemoryWrite::Block) => next,
                Err(fault) => next.failed(fault),
            }
        } else {
            BusState { memory: self.memory.update(ram_index(address), value), ..self }
        }
    }

    /// The bus after a write of `value` to `address`.
    #[verifier::opaque]
    pub open spec fn write(self, address: u16, value: u8) -> BusState {
        self.write_walk(self.handlers_at(address), address, value, 0)
    }

    /// The bus after a write of a word: the low byte goes to `address`, the
    /// high byte to the next address, which wraps round at the top of
    /// memory.
    pub open spec fn write_word(self, address: u16, value: u16) -> BusState {
        self.write(address, (value & 0xFF) as u8).write(next_address(address), (value >> 8) as u8)
    }
}

/// The address after `address`; the last one is followed by the first.
pub open spec fn next_address(address: u16) -> u16 {
    if address == 0xFFFF {
        0u16
    } else {
        (address + 1) as u16
    }
}

/// Computes the address after `address`.
pub fn following(address: u16) -> (r: u16)
    ensures
        r == next_address(address),
{
    address.wrapping_add(1)
}

impl MemoryBus {
    pub fn new() -> (r: Self)
        ensures
            r@ == BusState::power_on(),
    {
        let r = Self {
            memory: [0u8; 0x10000],
            handlers: HandlerTable::new(),
            rom: Device::new(Rom::empty()),
            ppu: Device::new(Ppu::new(Vec::new(), Mirroring::Horizontal, false)),
            apu: Device::new(Apu::new()),
            pad: Device::new(Joypad::new()),
            fault: None,
        };
        assert(r.memory@ =~= Seq::new(0x10000, |i: int| 0u8));
        r
    }

    /// Registers `handler` for every address from `range.0` to `range.1`,
    /// behind the handlers that the address already has.
    pub fn register(&mut self, range: (u16, u16), handler: DevHandler)
        ensures
            final(self)@ == (BusState {
                handlers: registered(old(self)@.handlers, range.0 as int, range.1 + 1, handler),
                ..old(self)@
            }),
    {
        let ghost start = self@;
        let mut addr: u32 = range.0 as u32;
        let end: u32 = range.1 as u32 + 1;
        assert(start.handlers =~= registered(start.handlers, range.0 as int, range.0 as int, handler));
        while addr < end
            invariant
                range.0 <= addr,
                addr <= end || addr == range.0,
                end == range.1 + 1,
                self@ == (BusState {
                    handlers: registered(start.handlers, range.0 as int, addr as int, handler),
                    ..start
                }),
            decreases end - addr,
        {
            let address = addr as u16;
            let ghost before = table_entries(self.handlers);
            if self.handlers.contains_key(address) {
                match self.handlers.get_mut(address) {
                    Some(vec) => vec.push(handler),
                    None => (),
                }
            } else {
                let mut handlers = Vec::new();
                handlers.push(handler);
                self.handlers.insert(address, handlers);
                assert(seq![handler] =~= Seq::<DevHandler>::empty().push(handler));
            }
            addr += 1;
            assert(table_entries(self.handlers) =~= registered(
                start.handlers,
                range.0 as int,
                addr as int,
                handler,
            ));
        }
        assert(registered(start.handlers, range.0 as int, addr as int, handler) =~= registered(
            start.handlers,
            range.0 as int,
            end as int,
            handler,
        ));
    }

    /// The `i`-th handler registered for `address`, if there are that many.
    pub fn handler_at(&self, address: u16, i: usize) -> (h: Option<DevHandler>)
        ensures
            h == if i < self@.handlers_at(address).len() {
                Some(self@.handlers_at(address)[i as int])
            } else {
                None
            },
            h.is_some() ==> i < usize::MAX,
    {
        match self.handlers.get(address) {
            Some(handlers) => if i < handlers.len() {
                Some(handlers[i])
            } else {
                None
            },
            None => None,
        }
    }

    /// The first fault that an access has run into, if any has.
    pub fn fault(&self) -> (r: Option<Fault>)
        ensures
            r == self.fault,
    {
        self.fault
    }

    /// Latches `fault`, unless an earlier one already is.
    pub fn fail(&mut self, fault: Fault)
        ensures
            final(self)@ == old(self)@.failed(fault),
    {
        if self.fault.is_none() {
            self.fault = Some(fault);
        }
    }

    /// Asks the device behind `h` to answer a read.
    pub fn answer_read(&mut self, h: DevHandler, active: Option<DeviceKind>, address: u16) -> (r:
        Result<MemoryRead, Fault>)
        ensures
            (r, final(self)@) == old(self)@.answer_read(h, active, address),
            final(self)@.follows(old(self)@),
            final(self)@.fault == old(self)@.fault,
    {
        let busy = match active {
            Some(kind) => kind == h.kind,
            None => false,
        };
        if busy {
            if h.mediator {
                Ok(MemoryRead::Pass)
            } else {
                Err(Fault::Reentrant(address))
            }
        } else {
            match h.kind {
                DeviceKind::Cartridge => self.rom.inner.read(address),
                DeviceKind::Ppu => self.ppu.inner.read(address),
                DeviceKind::Apu => self.apu.inner.read(address),
                DeviceKind::Joypad => self.pad.inner.read(address),
            }
        }
    }

    /// Reads `address` while device `active`, if any, is in the middle of an
    /// access of its own.
    pub fn read_as(&mut self, active: Option<DeviceKind>, address: u16) -> (r: u8)
        ensures
            (r, final(self)@) == old(self)@.read_as(active, address),
            final(self)@.follows(old(self)@),
    {
        proof {
            reveal(BusState::read_as);
        }
        let ghost hs = self@.handlers_at(address);
        let mut i: usize = 0;
        let mut current = self.handler_at(address, 0);
        while current.is_some()
            invariant
                hs == self@.handlers_at(address),
                current == if i < hs.len() {
                    Some(hs[i as int])
                } else {
                    None
                },
                current.is_some() ==> i < usize::MAX,
                self@.follows(old(self)@),
                self@.read_walk(hs, active, address, i as int) == old(self)@.read_as(active, address),
            decreases hs.len() - i,
        {
            match self.answer_read(current.unwrap(), active, address) {
                Ok(MemoryRead::Value(value)) => {
                    return value;
                },
                Ok(MemoryRead::Pass) => {},
                Err(fault) => {
                    self.fail(fault);
                    return 0;
                },
            }
            i += 1;
            current = self.handler_at(address, i);
        }
        if address < 0x2000 {
            proof {
                lemma_and_bounds_u16(address, 0x07FF);
            }
            self.memory[(address & 0x07FF) as usize]
        } else {
            self.memory[address as usize]
        }
    }

    /// Runs a sprite DMA from page `page`.
    pub fn oam_dma(&mut self, page: u8)
        ensures
            final(self)@ == old(self)@.oam_dma(page),
            final(self)@.follows(old(self)@),
    {
        let base = (page as u16) << 8;
        let mut idx: u16 = 0;
        while idx < 256
            invariant
                idx <= 256,
                self@ == old(self)@.dma_walk(base, idx as nat),
                self@.follows(old(self)@),
            decreases 256 - idx,
        {
            let byte = self.read_as(Some(DeviceKind::Ppu), base.wrapping_add(idx));
            self.ppu.inner.store_oam(byte);
            idx += 1;
        }
        self.ppu.inner.dma_enable = true;
    }

    /// Asks the device behind `h` to answer a write.
    pub fn answer_write(&mut self, h: DevHandler, address: u16, value: u8) -> (r: Result<
        MemoryWrite,
        Fault,
    >)
        ensures
            (r, final(self)@) == old(self)@.answer_write(h, address, value),
            final(self)@.follows(old(self)@),
    {
        match h.kind {
            DeviceKind::Cartridge => self.rom.inner.write(address, value),
            DeviceKind::Ppu => if address == 0x4014 {
                self.oam_dma(value);
                Ok(MemoryWrite::Value(value))
            } else {
                self.ppu.inner.write(address, value)
            },
            DeviceKind::Apu => self.apu.inner.write(address, value),
            DeviceKind::Joypad => self.pad.inner.write(address, value),
        }
    }
}

impl Bus for MemoryBus {
    open spec fn state(&self) -> BusState {
        self@
    }

    fn read_byte(&mut self, address: u16) -> (r: u8)
        ensures
            final(self)@.follows(old(self)@),
    {
        self.read_as(None, address)
    }

    fn read_word(&mut self, address: u16) -> (r: u16)
        ensures
            final(self)@.follows(old(self)@),
    {
        let low = self.read_byte(address) as u16;
        let high = self.read_byte(following(address)) as u16;
        low | (high << 8)
    }

    fn write_byte(&mut self, address: u16, value: u8)
        ensures
            final(self)@.follows(old(self)@),
    {
        proof {
            reveal(BusState::write);
        }
        let ghost hs = self@.handlers_at(address);
        let mut i: usize = 0;
        let mut current = self.handler_at(address, 0);
        while current.is_some()
            invariant
                hs == self@.handlers_at(address),
                current == if i < hs.len() {
                    Some(hs[i as int])
                } else {
                    None
                },
                current.is_some() ==> i < usize::MAX,
                self@.follows(old(self)@),
                self@.write_walk(hs, address, value, i as int) == old(self)@.write(address, value),
            decreases hs.len() - i,
        {
            match self.answer_write(current.unwrap(), address, value) {
                Ok(MemoryWrite::Value(stored)) => {
                    self.memory[address as usize] = stored;
                    return ;
                },
                Ok(MemoryWrite::Pass) => {},
                Ok(MemoryWrite::Block) => {
                    return ;
                },
                Err(fault) => {
                    self.fail(fault);
                    return ;
                },
            }
            i += 1;
            current = self.handler_at(address, i);
        }
        if address < 0x2000 {
            proof {
                lemma_and_bounds_u16(address, 0x07FF);
            }
            self.memory[(address & 0x07FF) as usize] = value;
        } else {
            self.memory[address as usize] = value;
        }
    }

    fn write_word(&mut self, address: u16, value: u16)
        ensures
            final(self)@.follows(old(self)@),
    {
        proof {
            lemma_low_mask_u16(value);
        }
        self.write_byte(address, (value & 0xFF) as u8);
        self.write_byte(following(address), (value >> 8) as u8);
    }
}

} // verus!
